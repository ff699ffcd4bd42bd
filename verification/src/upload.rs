//! Upload authorization: from a caller and a content type to a signed URL.
//!
//! The content type is normalized and checked against a fixed list of image
//! types before anything else is done. The object's name is derived here,
//! from the caller's id, a fresh unique id and the extension of the type;
//! the client has no say in it.

use vstd::prelude::*;
use vstd::string::StringExecFns;
use crate::auth::SdzAuthUser;
use crate::error::{SdzApiError, SdzApiErrorView};
use crate::ids::{fresh_unique_id, is_unique_id_text};
use crate::storage::{SdzStorageRepository, SdzUploadUrlRequest, SdzUploadUrlResult};
use crate::text::{lowercase_text, sdz_text_eq, trimmed_text};

verus! {

/// What a client sends to ask for an upload URL.
#[derive(Clone, Debug)]
pub struct SdzGenerateUploadUrlInput {
    pub sdz_content_type: String,
}

/// Answers requests for upload URLs.
#[derive(Clone, Copy, Debug)]
pub struct SdzGenerateUploadUrlUseCase;

/// The detail of the error that answers a content type which is not allowed.
pub const SDZ_UNSUPPORTED_CONTENT_TYPE: &'static str = "unsupported contentType";

/// The file extension of an allowed content type, and nothing for every
/// other text.
pub open spec fn extension_of(content_type: Seq<char>) -> Option<Seq<char>> {
    if content_type == "image/jpeg"@ || content_type == "image/jpg"@ {
        Some("jpg"@)
    } else if content_type == "image/png"@ {
        Some("png"@)
    } else if content_type == "image/webp"@ {
        Some("webp"@)
    } else if content_type == "image/gif"@ {
        Some("gif"@)
    } else if content_type == "image/heic"@ {
        Some("heic"@)
    } else if content_type == "image/heif"@ {
        Some("heif"@)
    } else {
        None
    }
}

/// Maps an allowed content type to its file extension.
pub fn sdz_extension_from_content_type(content_type: &str) -> (r: Option<&'static str>)
    ensures
        match extension_of(content_type@) {
            Some(extension) => r matches Some(e) && e@ == extension,
            None => r is None,
        },
{
    if sdz_text_eq(content_type, "image/jpeg") || sdz_text_eq(content_type, "image/jpg") {
        Some("jpg")
    } else if sdz_text_eq(content_type, "image/png") {
        Some("png")
    } else if sdz_text_eq(content_type, "image/webp") {
        Some("webp")
    } else if sdz_text_eq(content_type, "image/gif") {
        Some("gif")
    } else if sdz_text_eq(content_type, "image/heic") {
        Some("heic")
    } else if sdz_text_eq(content_type, "image/heif") {
        Some("heif")
    } else {
        None
    }
}

/// A content type as it is checked: trimmed, then in lower case.
pub open spec fn normalized_content_type(raw: Seq<char>) -> Seq<char> {
    lowercase_text(trimmed_text(raw))
}

/// Normalizes a content type: trims it and puts it in lower case.
pub fn sdz_normalize_content_type(raw: &str) -> (r: String)
    ensures
        r@ == normalized_content_type(raw@),
{
    raw.trim().to_lowercase()
}

/// The name of an uploaded object: `spots/`, the caller's id, `/`, the
/// object's unique id, `.`, the extension.
pub open spec fn object_name_text(
    user_id: Seq<char>,
    object_id: Seq<char>,
    extension: Seq<char>,
) -> Seq<char> {
    "spots/"@ + user_id + "/"@ + object_id + "."@ + extension
}

/// Builds the name of an uploaded object.
pub fn sdz_object_name(user_id: &str, object_id: &str, extension: &str) -> (r: String)
    ensures
        r@ == object_name_text(user_id@, object_id@, extension@),
{
    let mut out = String::from_str("spots/");
    out.append(user_id);
    out.append("/");
    out.append(object_id);
    out.append(".");
    out.append(extension);
    out
}

/// The request that goes to the store for a caller, an allowed extension, a
/// normalized content type and a unique id.
pub open spec fn is_upload_request(
    request: SdzUploadUrlRequest,
    user_id: Seq<char>,
    object_id: Seq<char>,
    content_type: Seq<char>,
) -> bool {
    &&& extension_of(content_type) matches Some(extension)
    &&& request.sdz_object_name@ == object_name_text(user_id, object_id, extension)
    &&& request.sdz_content_type@ == content_type
}

impl SdzGenerateUploadUrlUseCase {
    /// The use case. It holds nothing of its own.
    pub fn new() -> (r: SdzGenerateUploadUrlUseCase) {
        SdzGenerateUploadUrlUseCase
    }

    /// Checks the content type and derives the request for the store, for an
    /// object with the unique id `object_id`.
    ///
    /// A content type that is not in the list is answered with a bad
    /// request; every other input gives a request.
    pub fn upload_request(
        &self,
        auth_user: &SdzAuthUser,
        input: &SdzGenerateUploadUrlInput,
        object_id: &str,
    ) -> (r: Result<SdzUploadUrlRequest, SdzApiError>)
        ensures
            match extension_of(normalized_content_type(input.sdz_content_type@)) {
                Some(_) => r matches Ok(request) && is_upload_request(
                    request,
                    auth_user.sdz_user_id@,
                    object_id@,
                    normalized_content_type(input.sdz_content_type@),
                ),
                None => r matches Err(e) && e@ == SdzApiErrorView::BadRequest(
                    SDZ_UNSUPPORTED_CONTENT_TYPE@,
                ),
            },
    {
        let content_type = sdz_normalize_content_type(input.sdz_content_type.as_str());
        match sdz_extension_from_content_type(content_type.as_str()) {
            Some(extension) => {
                let object_name = sdz_object_name(
                    auth_user.sdz_user_id.as_str(),
                    object_id,
                    extension,
                );
                Ok(SdzUploadUrlRequest { sdz_object_name: object_name, sdz_content_type: content_type })
            },
            None => Err(SdzApiError::BadRequest(String::from_str(SDZ_UNSUPPORTED_CONTENT_TYPE))),
        }
    }

    /// Answers a request for an upload URL.
    ///
    /// A content type that is not in the list is answered with a bad
    /// request, and the store is not asked. Otherwise the store is asked
    /// once, for an object named after the caller and a fresh unique id,
    /// and its answer is handed on as it is.
    pub fn execute<R: SdzStorageRepository>(
        &self,
        repo: &R,
        auth_user: SdzAuthUser,
        input: SdzGenerateUploadUrlInput,
    ) -> (r: Result<SdzUploadUrlResult, SdzApiError>)
        ensures
            match extension_of(normalized_content_type(input.sdz_content_type@)) {
                Some(_) => exists|request: SdzUploadUrlRequest, object_id: Seq<char>|
                    is_unique_id_text(object_id) && #[trigger] is_upload_request(
                        request,
                        auth_user.sdz_user_id@,
                        object_id,
                        normalized_content_type(input.sdz_content_type@),
                    ) && repo.answers(request, r),
                None => r matches Err(e) && e@ == SdzApiErrorView::BadRequest(
                    SDZ_UNSUPPORTED_CONTENT_TYPE@,
                ),
            },
    {
        let content_type = sdz_normalize_content_type(input.sdz_content_type.as_str());
        match sdz_extension_from_content_type(content_type.as_str()) {
            None => Err(SdzApiError::BadRequest(String::from_str(SDZ_UNSUPPORTED_CONTENT_TYPE))),
            Some(extension) => {
                let object_id = fresh_unique_id();
                let object_name = sdz_object_name(
                    auth_user.sdz_user_id.as_str(),
                    object_id.as_str(),
                    extension,
                );
                let request = SdzUploadUrlRequest {
                    sdz_object_name: object_name,
                    sdz_content_type: content_type,
                };
                let answer = repo.create_upload_url(request);
                proof {
                    assert(is_upload_request(
                        request,
                        auth_user.sdz_user_id@,
                        object_id@,
                        normalized_content_type(input.sdz_content_type@),
                    ));
                }
                answer
            },
        }
    }
}

/// The name of an uploaded object ends in a dot and the extension of its
/// content type, and starts with `spots/` and the caller's id.
pub proof fn lemma_object_name_shape(
    user_id: Seq<char>,
    object_id: Seq<char>,
    extension: Seq<char>,
)
    ensures
        object_name_text(user_id, object_id, extension).len() >= extension.len() + 1,
        object_name_text(user_id, object_id, extension).skip(
            object_name_text(user_id, object_id, extension).len() - extension.len() - 1,
        ) == "."@ + extension,
        object_name_text(user_id, object_id, extension).take(("spots/"@.len() + user_id.len()) as int)
            == "spots/"@ + user_id,
{
    let name = object_name_text(user_id, object_id, extension);
    reveal_strlit(".");
    assert(name.skip(name.len() - extension.len() - 1) =~= "."@ + extension);
    assert(name.take(("spots/"@.len() + user_id.len()) as int) =~= "spots/"@ + user_id);
}

/// Whatever the extension function allows is one of six extensions.
pub proof fn lemma_extensions_are_known(content_type: Seq<char>)
    ensures
        extension_of(content_type) matches Some(e) ==> e == "jpg"@ || e == "png"@ || e == "webp"@
            || e == "gif"@ || e == "heic"@ || e == "heif"@,
{
}

} // verus!
