//! Configuration: from the values of the environment variables to the store
//! that the service works with.

use vstd::prelude::*;
use vstd::string::{StrSliceExecFns, StringExecFns};
use crate::signed_url::{SdzStorageSignedUrlRepository, SDZ_DEFAULT_EXPIRES_IN};
use crate::storage::SdzDisabledStorageRepository;
use crate::text::{is_blank, listed_items, sdz_is_blank, sdz_split_list, sdz_text_eq, texts};

verus! {

/// Whether a character is a decimal digit.
pub open spec fn is_digit(c: char) -> bool {
    48 <= c as u32 <= 57
}

/// Whether a text holds decimal digits only.
pub open spec fn all_digits(s: Seq<char>) -> bool {
    forall|i: int| 0 <= i < s.len() ==> is_digit(#[trigger] s[i])
}

/// The number that a text of decimal digits writes.
pub open spec fn digits_value(s: Seq<char>) -> nat
    decreases s.len(),
{
    if s.len() == 0 {
        0
    } else {
        digits_value(s.drop_last()) * 10 + (s.last() as u32 - 48) as nat
    }
}

/// A numeral without the plus sign that may stand before it.
pub open spec fn without_plus(s: Seq<char>) -> Seq<char> {
    if s.len() > 0 && s[0] == '+' {
        s.skip(1)
    } else {
        s
    }
}

/// The number that a text writes, where it is a numeral of 32 bits: an
/// optional plus sign, then one decimal digit or more and nothing else, the
/// whole not above 4294967295.
pub open spec fn parsed_u32(s: Seq<char>) -> Option<u32> {
    let digits = without_plus(s);
    if digits.len() > 0 && all_digits(digits) && digits_value(digits) <= u32::MAX {
        Some(digits_value(digits) as u32)
    } else {
        None
    }
}

/// Reads a number of 32 bits from its decimal numeral.
pub fn sdz_parse_u32(text: &str) -> (r: Option<u32>)
    ensures
        r == parsed_u32(text@),
{
    let length = text.unicode_len();
    if length == 0 {
        return None;
    }
    let digits = if text.get_char(0) == '+' {
        text.substring_char(1, length)
    } else {
        text
    };
    assert(digits@ =~= without_plus(text@));
    if digits.unicode_len() == 0 {
        return None;
    }
    let mut value: u64 = 0;
    let mut over = false;
    for c in it: digits.chars()
        invariant
            it.seq() == digits@,
            digits@ == without_plus(text@),
            digits@.len() > 0,
            all_digits(digits@.take(it.index() as int)),
            over ==> digits_value(digits@.take(it.index() as int)) > u32::MAX,
            !over ==> value == digits_value(digits@.take(it.index() as int)) && value <= u32::MAX,
    {
        let ghost done = digits@.take(it.index() as int);
        let ghost next = digits@.take(it.index() + 1);
        proof {
            assert(next.drop_last() =~= done);
            assert(next.last() == c);
        }
        let n: u32 = c as u32;
        if n < 48 || n > 57 {
            proof {
                assert(!is_digit(digits@[it.index() as int]));
            }
            return None;
        }
        proof {
            assert forall|i: int| 0 <= i < next.len() implies is_digit(#[trigger] next[i]) by {
                if i < done.len() {
                    assert(next[i] == done[i]);
                }
            }
        }
        if !over {
            value = value * 10 + (n - 48) as u64;
            if value > 0xFFFF_FFFF {
                over = true;
            }
        }
    }
    assert(digits@.take(digits@.len() as int) =~= digits@);
    if over {
        None
    } else {
        Some(value as u32)
    }
}

/// The validity of signed URLs that a setting asks for: the number that it
/// writes, and fifteen minutes where there is none or it writes none.
pub open spec fn expiry_of(raw: Option<Seq<char>>) -> u32 {
    match raw {
        Some(text) => match parsed_u32(text) {
            Some(seconds) => seconds,
            None => SDZ_DEFAULT_EXPIRES_IN,
        },
        None => SDZ_DEFAULT_EXPIRES_IN,
    }
}

/// Reads the validity of signed URLs from its setting.
pub fn sdz_expiry_setting(raw: Option<&str>) -> (r: u32)
    ensures
        r == expiry_of(
            match raw {
                Some(text) => Some(text@),
                None => None,
            },
        ),
{
    match raw {
        Some(text) => match sdz_parse_u32(text) {
            Some(seconds) => seconds,
            None => SDZ_DEFAULT_EXPIRES_IN,
        },
        None => SDZ_DEFAULT_EXPIRES_IN,
    }
}

/// The store that the service works with.
#[derive(Clone, Debug)]
pub enum SdzStorageBackend {
    /// A bucket and a signer are configured.
    Signed(SdzStorageSignedUrlRepository),
    /// Nothing is configured: every request for an upload URL fails.
    Disabled(SdzDisabledStorageRepository),
}

/// Chooses the store from the settings for bucket, signer identity and
/// validity. Where the bucket or the identity is missing, the store is the
/// one that fails every request.
pub fn sdz_storage_backend(
    bucket: Option<String>,
    service_account: Option<String>,
    expires: Option<String>,
) -> (r: SdzStorageBackend)
    ensures
        match (bucket, service_account) {
            (Some(b), Some(s)) => r matches SdzStorageBackend::Signed(repo) && repo.bucket() == b@
                && repo.signer_identity() == s@ && repo.expires_in() == expiry_of(
                match expires {
                    Some(text) => Some(text@),
                    None => None,
                },
            ),
            _ => r is Disabled,
        },
{
    let expires_in = match &expires {
        Some(text) => sdz_expiry_setting(Some(text.as_str())),
        None => sdz_expiry_setting(None),
    };
    match (bucket, service_account) {
        (Some(b), Some(s)) => SdzStorageBackend::Signed(
            SdzStorageSignedUrlRepository::new(b, s, expires_in),
        ),
        _ => SdzStorageBackend::Disabled(SdzDisabledStorageRepository),
    }
}

/// The port on which the service listens where none is set.
pub const SDZ_DEFAULT_PORT: u16 = 8080;

/// The port that a setting asks for: the number of 16 bits that it writes,
/// and 8080 where there is none or it writes none.
pub open spec fn port_of(raw: Option<Seq<char>>) -> u16 {
    match raw {
        Some(text) => match parsed_u32(text) {
            Some(port) => if port <= u16::MAX {
                port as u16
            } else {
                SDZ_DEFAULT_PORT
            },
            None => SDZ_DEFAULT_PORT,
        },
        None => SDZ_DEFAULT_PORT,
    }
}

/// Reads the port on which the service listens from its setting.
pub fn sdz_listen_port(raw: Option<&str>) -> (r: u16)
    ensures
        r == port_of(
            match raw {
                Some(text) => Some(text@),
                None => None,
            },
        ),
{
    match raw {
        Some(text) => match sdz_parse_u32(text) {
            Some(port) => {
                if port <= 65535 {
                    port as u16
                } else {
                    SDZ_DEFAULT_PORT
                }
            },
            None => SDZ_DEFAULT_PORT,
        },
        None => SDZ_DEFAULT_PORT,
    }
}

/// The origins from which browsers may call the service: those that the
/// setting lists between commas, each trimmed and none blank. Where there is
/// no setting, or it lists none, they are the two origins of local
/// development.
pub fn sdz_allowed_origins(raw: Option<&str>) -> (r: Vec<String>)
    ensures
        match raw {
            Some(text) if listed_items(text@).len() > 0 => texts(r@) == listed_items(text@),
            _ => texts(r@) == seq!["http://localhost:3000"@, "http://127.0.0.1:3000"@],
        },
{
    match raw {
        Some(text) => {
            let listed = sdz_split_list(text);
            if listed.len() > 0 {
                assert(texts(listed@).len() == listed@.len());
                return listed;
            }
            assert(texts(listed@).len() == listed@.len());
        },
        None => {},
    }
    let mut local: Vec<String> = Vec::new();
    local.push(String::from_str("http://localhost:3000"));
    local.push(String::from_str("http://127.0.0.1:3000"));
    assert(texts(local@) =~= seq!["http://localhost:3000"@, "http://127.0.0.1:3000"@]);
    local
}

/// Where users and spots are kept.
#[derive(Clone, Debug)]
pub enum SdzRepositoryChoice {
    /// In the document store of a project, under a token where one is set.
    Firestore { project_id: String, token: Option<String> },
    /// In memory, for local work.
    InMemory,
}

/// What the environment variables say of where users and spots are kept.
#[derive(Clone, Debug)]
pub struct SdzRepositorySettings {
    /// Whether the document store is asked for: the setting says `1`.
    pub use_firestore: Option<String>,
    /// The project of the document store.
    pub firestore_project_id: Option<String>,
    /// The project of the identity service, which stands in for it.
    pub auth_project_id: Option<String>,
    /// The token for the document store.
    pub firestore_token: Option<String>,
    /// Whether the service runs where tokens can be fetched.
    pub on_cloud_run: bool,
}

/// The project that the settings name, if they ask for the document store
/// and can reach it: the store is asked for, a project is named, and there
/// is a token or a place to fetch one.
pub open spec fn firestore_project(settings: SdzRepositorySettings) -> Option<String> {
    if !(settings.use_firestore matches Some(flag) && flag@ == "1"@) {
        None
    } else if !(settings.firestore_token is Some || settings.on_cloud_run) {
        None
    } else if settings.firestore_project_id is Some {
        settings.firestore_project_id
    } else {
        settings.auth_project_id
    }
}

/// Chooses where users and spots are kept.
pub fn sdz_repository_choice(settings: SdzRepositorySettings) -> (r: SdzRepositoryChoice)
    ensures
        match firestore_project(settings) {
            Some(project) => r matches SdzRepositoryChoice::Firestore { project_id, token }
                && project_id == project && token == settings.firestore_token,
            None => r is InMemory,
        },
{
    let asked = match &settings.use_firestore {
        Some(flag) => sdz_text_eq(flag.as_str(), "1"),
        None => false,
    };
    if !asked {
        return SdzRepositoryChoice::InMemory;
    }
    let project = match settings.firestore_project_id {
        Some(project) => Some(project),
        None => settings.auth_project_id,
    };
    match project {
        Some(project_id) => {
            if settings.firestore_token.is_some() || settings.on_cloud_run {
                SdzRepositoryChoice::Firestore { project_id, token: settings.firestore_token }
            } else {
                SdzRepositoryChoice::InMemory
            }
        },
        None => SdzRepositoryChoice::InMemory,
    }
}

/// Whether a candidate is a token for the document store: present, and not
/// blank.
pub open spec fn is_store_token(candidate: Option<String>) -> bool {
    candidate matches Some(t) && !is_blank(t@)
}

/// Picks the token for the document store: the configured one, then the one
/// of the environment variable, each only where it is not blank. Without
/// either the token is to be fetched.
pub fn sdz_store_token(configured: &Option<String>, environment: &Option<String>) -> (r: Option<
    String,
>)
    ensures
        match r {
            Some(token) => if is_store_token(*configured) {
                token@ == configured->0@
            } else {
                is_store_token(*environment) && token@ == environment->0@
            },
            None => !is_store_token(*configured) && !is_store_token(*environment),
        },
{
    match configured {
        Some(token) => {
            if !sdz_is_blank(token.as_str()) {
                return Some(token.clone());
            }
        },
        None => {},
    }
    match environment {
        Some(token) => {
            if !sdz_is_blank(token.as_str()) {
                return Some(token.clone());
            }
        },
        None => {},
    }
    None
}

/// A numeral of `n` digits writes a number below ten to the power of `n`.
pub proof fn lemma_digits_value_bound(s: Seq<char>)
    requires
        all_digits(s),
    ensures
        digits_value(s) < pow10(s.len()),
    decreases s.len(),
{
    if s.len() > 0 {
        let head = s.drop_last();
        assert forall|i: int| 0 <= i < head.len() implies is_digit(#[trigger] head[i]) by {
            assert(head[i] == s[i]);
        }
        lemma_digits_value_bound(head);
        assert(is_digit(s[s.len() - 1]));
    }
}

/// Ten to the power of `n`.
pub open spec fn pow10(n: nat) -> nat
    decreases n,
{
    if n == 0 {
        1
    } else {
        10 * pow10((n - 1) as nat)
    }
}

} // verus!
