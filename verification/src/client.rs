//! The kind of client that makes a request.

use vstd::prelude::*;
use vstd::string::StringExecFns;
use crate::error::{SdzApiError, SdzApiErrorView};
use crate::text::{lowercase_text, sdz_text_eq, trimmed_text};

verus! {

/// The platforms that the mobile client runs on.
#[derive(Clone, Copy, Debug, PartialEq, Eq, Structural)]
pub enum SdzClientType {
    Ios,
    Android,
}

/// The client application behind a request.
#[derive(Clone, Debug)]
pub struct SdzClientApp {
    pub sdz_client: SdzClientType,
}

impl SdzClientApp {
    /// Whether the client is a mobile one. Both platforms are.
    pub fn is_mobile(&self) -> (r: bool)
        ensures
            r,
    {
        match self.sdz_client {
            SdzClientType::Ios => true,
            SdzClientType::Android => true,
        }
    }
}

/// The detail of the error for a request that names no client.
pub const SDZ_CLIENT_REQUIRED: &'static str = "mobile client required (x-sdz-client)";

/// The detail of the error for a request that names an unknown client.
pub const SDZ_CLIENT_INVALID: &'static str = "invalid client type (ios/android only)";

/// The client that a header value names, once trimmed and in lower case.
pub open spec fn client_named(value: Seq<char>) -> Option<SdzClientType> {
    let name = lowercase_text(trimmed_text(value));
    if name == "ios"@ {
        Some(SdzClientType::Ios)
    } else if name == "android"@ {
        Some(SdzClientType::Android)
    } else {
        None
    }
}

/// Reads the client from the value of the client header, where the request
/// has one that is text.
///
/// Without a value the request is forbidden, and so it is with a value that
/// names neither platform.
pub fn sdz_client_from_header(value: Option<&str>) -> (r: Result<SdzClientType, SdzApiError>)
    ensures
        match value {
            None => r matches Err(e) && e@ == SdzApiErrorView::Forbidden(SDZ_CLIENT_REQUIRED@),
            Some(v) => match client_named(v@) {
                Some(client) => r matches Ok(c) && c == client,
                None => r matches Err(e) && e@ == SdzApiErrorView::Forbidden(SDZ_CLIENT_INVALID@),
            },
        },
{
    match value {
        None => Err(SdzApiError::Forbidden(String::from_str(SDZ_CLIENT_REQUIRED))),
        Some(v) => {
            let name = v.trim().to_lowercase();
            if sdz_text_eq(name.as_str(), "ios") {
                Ok(SdzClientType::Ios)
            } else if sdz_text_eq(name.as_str(), "android") {
                Ok(SdzClientType::Android)
            } else {
                Err(SdzApiError::Forbidden(String::from_str(SDZ_CLIENT_INVALID)))
            }
        },
    }
}

} // verus!
