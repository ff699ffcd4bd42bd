//! Delegated signing.
//!
//! No private key is held here. The text to be signed is sent to a remote
//! signing authority, in the name of the configured identity and under a
//! bearer token. The token is an override where one is set, and is fetched
//! from the metadata endpoint otherwise.
//!
//! The requests themselves are made elsewhere. What is decided here is
//! which request comes next and what its answer means: `SdzRemoteSigner`
//! takes an event and gives the next action.

use vstd::prelude::*;
use vstd::string::{StringExecFns, StringSliceAdditionalSpecFns};
use crate::digest::{hex_lower, sdz_hex};
use crate::error::{SdzApiError, SdzApiErrorView};

verus! {

/// Where a bearer token is fetched from when no override is set.
pub const SDZ_METADATA_TOKEN_URL: &'static str =
    "http://metadata.google.internal/computeMetadata/v1/instance/service-accounts/default/token";

/// The header that the metadata endpoint asks for.
pub const SDZ_METADATA_HEADER_NAME: &'static str = "Metadata-Flavor";

/// The value of that header.
pub const SDZ_METADATA_HEADER_VALUE: &'static str = "Google";

/// What stands before the identity in the signing endpoint's URL.
pub const SDZ_SIGN_URL_PREFIX: &'static str =
    "https://iamcredentials.googleapis.com/v1/projects/-/serviceAccounts/";

/// What stands after it.
pub const SDZ_SIGN_URL_SUFFIX: &'static str = ":signBlob";

/// The standard base64 text of a byte string, with padding.
pub uninterp spec fn base64_text(bytes: Seq<u8>) -> Seq<char>;

/// The bytes that a standard base64 text stands for, if it is one. The text
/// is given by its bytes.
pub uninterp spec fn base64_bytes(text: Seq<u8>) -> Option<Seq<u8>>;

/// `base64::DecodeError`: why a text could not be decoded. Nothing is said
/// of what it holds.
#[verifier::external_type_specification]
#[verifier::external_body]
pub struct ExDecodeError(base64::DecodeError);

/// `base64::Engine::encode` of the `STANDARD` engine: the string returned is
/// the base64 text of the input.
#[verifier::external_body]
fn base64_encode(bytes: &[u8]) -> (r: String)
    ensures
        r@ == base64_text(bytes@),
{
    base64::Engine::encode(&base64::engine::general_purpose::STANDARD, bytes)
}

/// `base64::Engine::decode` of the `STANDARD` engine: the bytes returned are
/// those that the text stands for, and an error is returned where it stands
/// for none.
#[verifier::external_body]
fn base64_decode(text: &[u8]) -> (r: Result<Vec<u8>, base64::DecodeError>)
    ensures
        match r {
            Ok(bytes) => base64_bytes(text@) == Some(bytes@),
            Err(_) => base64_bytes(text@) is None,
        },
{
    base64::Engine::decode(&base64::engine::general_purpose::STANDARD, text)
}

/// The URL of the signing endpoint for an identity.
pub open spec fn sign_url_text(signer_identity: Seq<char>) -> Seq<char> {
    SDZ_SIGN_URL_PREFIX@ + signer_identity + SDZ_SIGN_URL_SUFFIX@
}

/// Builds the URL of the signing endpoint for an identity.
pub fn sdz_sign_blob_url(signer_identity: &str) -> (r: String)
    ensures
        r@ == sign_url_text(signer_identity@),
{
    let mut out = String::from_str(SDZ_SIGN_URL_PREFIX);
    out.append(signer_identity);
    out.append(SDZ_SIGN_URL_SUFFIX);
    out
}

/// The payload of a signing request: the base64 text of the UTF-8 bytes of
/// the string to sign.
pub fn sdz_sign_payload(string_to_sign: &str) -> (r: String)
    ensures
        r@ == base64_text(string_to_sign.spec_bytes()),
{
    base64_encode(string_to_sign.as_bytes())
}

/// The signature that a signed blob holds, or nothing where the blob is no
/// base64 text.
pub open spec fn signature_text(signed_blob: Seq<u8>) -> Option<Seq<char>> {
    match base64_bytes(signed_blob) {
        Some(bytes) => Some(hex_lower(bytes)),
        None => None,
    }
}

/// Turns the signed blob of a signing response into the signature that goes
/// into the URL: the blob is decoded from base64 and its bytes are written
/// in hexadecimal. A blob that cannot be decoded is an internal error.
pub fn sdz_signature_from_blob(signed_blob: &str) -> (r: Result<String, SdzApiError>)
    ensures
        match signature_text(signed_blob.spec_bytes()) {
            Some(signature) => r matches Ok(s) && s@ == signature,
            None => r matches Err(e) && e@ == SdzApiErrorView::Internal,
        },
{
    match base64_decode(signed_blob.as_bytes()) {
        Ok(bytes) => Ok(sdz_hex(bytes.as_slice())),
        Err(_) => Err(SdzApiError::Internal),
    }
}

/// Whether an HTTP status reports success: 200 to 299.
pub open spec fn is_success(status: u16) -> bool {
    200 <= status < 300
}

/// Decides whether an HTTP status reports success.
pub fn sdz_status_is_success(status: u16) -> (r: bool)
    ensures
        r == is_success(status),
{
    200 <= status && status < 300
}

/// Whether a candidate is a token: present, and not empty.
pub open spec fn is_token(candidate: Option<String>) -> bool {
    candidate matches Some(t) && t@.len() > 0
}

/// The first token among the candidates, in their order.
pub open spec fn first_token(candidates: Seq<Option<String>>) -> Option<Seq<char>>
    decreases candidates.len(),
{
    if candidates.len() == 0 {
        None
    } else if is_token(candidates[0]) {
        Some(candidates[0]->0@)
    } else {
        first_token(candidates.drop_first())
    }
}

/// Picks the bearer token from an ordered list of sources: the first one
/// that is present and not empty wins, and the later ones are not looked at.
pub fn sdz_first_token(candidates: &[Option<String>]) -> (r: Option<String>)
    ensures
        match first_token(candidates@) {
            Some(t) => r matches Some(s) && s@ == t,
            None => r is None,
        },
{
    let mut i: usize = 0;
    assert(candidates@.skip(0) =~= candidates@);
    while i < candidates.len()
        invariant
            i <= candidates.len(),
            first_token(candidates@) == first_token(candidates@.skip(i as int)),
        decreases candidates.len() - i,
    {
        let ghost rest = candidates@.skip(i as int);
        proof {
            assert(rest[0] == candidates@[i as int]);
            assert(rest.drop_first() =~= candidates@.skip(i + 1));
        }
        match &candidates[i] {
            Some(token) => {
                if !token.as_str().is_empty() {
                    return Some(token.clone());
                }
            },
            None => {},
        }
        i += 1;
    }
    proof {
        assert(candidates@.skip(i as int).len() == 0);
    }
    None
}

/// The first token is that of the first candidate which is one, and there
/// is none exactly where no candidate is one.
pub proof fn lemma_first_token_is_first(candidates: Seq<Option<String>>, i: int)
    requires
        0 <= i < candidates.len(),
        is_token(candidates[i]),
        forall|j: int| 0 <= j < i ==> !is_token(#[trigger] candidates[j]),
    ensures
        first_token(candidates) == Some(candidates[i]->0@),
    decreases i,
{
    if i > 0 {
        let rest = candidates.drop_first();
        assert(rest[i - 1] == candidates[i]);
        assert forall|j: int| 0 <= j < i - 1 implies !is_token(#[trigger] rest[j]) by {
            assert(rest[j] == candidates[j + 1]);
        }
        lemma_first_token_is_first(rest, i - 1);
    }
}

/// Where no candidate is a token, none is picked.
pub proof fn lemma_no_token_among_none(candidates: Seq<Option<String>>)
    requires
        forall|j: int| 0 <= j < candidates.len() ==> !is_token(#[trigger] candidates[j]),
    ensures
        first_token(candidates) is None,
    decreases candidates.len(),
{
    if candidates.len() > 0 {
        let rest = candidates.drop_first();
        assert forall|j: int| 0 <= j < rest.len() implies !is_token(#[trigger] rest[j]) by {
            assert(rest[j] == candidates[j + 1]);
        }
        lemma_no_token_among_none(rest);
    }
}

/// How far a signing has come.
#[derive(Clone, Copy, Debug, PartialEq, Eq, Structural)]
pub enum SdzSignerPhase {
    /// Nothing has been done yet.
    Idle,
    /// The metadata endpoint has been asked for a token.
    AwaitingToken,
    /// The signing authority has been asked for a signature.
    AwaitingSignature,
    /// The signing has ended, well or badly.
    Closed,
}

/// What has happened.
#[derive(Clone, Debug)]
pub enum SdzSignerEvent {
    /// The signing starts, with the two override values as they were found:
    /// the one for signing, and the one shared with another subsystem.
    Started { signing_override: Option<String>, shared_override: Option<String> },
    /// The metadata endpoint has answered. The token is absent where the
    /// answer held none that could be read.
    TokenFetched { status: u16, access_token: Option<String> },
    /// The signing authority has answered. The blob is absent where the
    /// answer held none that could be read.
    BlobSigned { status: u16, signed_blob: Option<String> },
    /// A request could not be sent, or its answer did not arrive.
    TransportFailed,
}

/// What is to be done next.
#[derive(Clone, Debug)]
pub enum SdzSignerAction {
    /// Ask the metadata endpoint for a token: a `GET` of `token_url` with
    /// one header.
    FetchToken { token_url: String, header_name: String, header_value: String },
    /// Ask the signing authority for a signature: a `POST` of `body`, which
    /// is JSON, to `url` under `bearer_token`. The body holds `payload`.
    SignBlob { url: String, bearer_token: String, payload: String, body: String },
    /// The signing has succeeded.
    Succeed { signature: String },
    /// The signing has failed.
    Fail,
}

/// An action, with its texts as plain values.
pub enum SdzSignerActionView {
    FetchToken { token_url: Seq<char>, header_name: Seq<char>, header_value: Seq<char> },
    SignBlob { url: Seq<char>, bearer_token: Seq<char>, payload: Seq<char>, body: Seq<char> },
    Succeed { signature: Seq<char> },
    Fail,
}

impl View for SdzSignerAction {
    type V = SdzSignerActionView;

    open spec fn view(&self) -> SdzSignerActionView {
        match self {
            SdzSignerAction::FetchToken { token_url, header_name, header_value } => {
                SdzSignerActionView::FetchToken {
                    token_url: token_url@,
                    header_name: header_name@,
                    header_value: header_value@,
                }
            },
            SdzSignerAction::SignBlob { url, bearer_token, payload, body } => {
                SdzSignerActionView::SignBlob {
                    url: url@,
                    bearer_token: bearer_token@,
                    payload: payload@,
                    body: body@,
                }
            },
            SdzSignerAction::Succeed { signature } => SdzSignerActionView::Succeed {
                signature: signature@,
            },
            SdzSignerAction::Fail => SdzSignerActionView::Fail,
        }
    }
}

/// The body of a signing request: a JSON object with the payload as its
/// one member.
pub open spec fn sign_body_text(payload: Seq<char>) -> Seq<char> {
    "{\"payload\":\""@ + payload + "\"}"@
}

/// Builds the body of a signing request. The payload is base64 text, which
/// stands in a JSON string as it is.
pub fn sdz_sign_body(payload: &str) -> (r: String)
    ensures
        r@ == sign_body_text(payload@),
{
    let mut out = String::from_str("{\"payload\":\"");
    out.append(payload);
    out.append("\"}");
    out
}

/// The request for a token: where it goes, and the header that it carries.
pub open spec fn token_request() -> SdzSignerActionView {
    SdzSignerActionView::FetchToken {
        token_url: SDZ_METADATA_TOKEN_URL@,
        header_name: SDZ_METADATA_HEADER_NAME@,
        header_value: SDZ_METADATA_HEADER_VALUE@,
    }
}

/// The signing request for an identity, a text and a token.
pub open spec fn sign_request(
    signer_identity: Seq<char>,
    string_to_sign: Seq<char>,
    bearer_token: Seq<char>,
) -> SdzSignerActionView {
    SdzSignerActionView::SignBlob {
        url: sign_url_text(signer_identity),
        bearer_token,
        payload: base64_text(vstd::utf8::encode_utf8(string_to_sign)),
        body: sign_body_text(base64_text(vstd::utf8::encode_utf8(string_to_sign))),
    }
}

/// The phase and the action that follow an event.
///
/// - At the start, an override sends the signing request at once; without
///   one the token is fetched first.
/// - A token that was fetched with success sends the signing request.
/// - A blob that was signed with success and can be decoded ends the
///   signing with its signature.
/// - Everything else ends the signing in failure: a status outside 200 to
///   299, an answer without content, a blob that cannot be decoded, a
///   transport failure, or an event that the phase does not wait for.
pub open spec fn signer_transition(
    phase: SdzSignerPhase,
    signer_identity: Seq<char>,
    string_to_sign: Seq<char>,
    event: SdzSignerEvent,
) -> (SdzSignerPhase, SdzSignerActionView) {
    match (phase, event) {
        (SdzSignerPhase::Idle, SdzSignerEvent::Started { signing_override, shared_override }) => {
            match first_token(seq![signing_override, shared_override]) {
                Some(token) => (
                    SdzSignerPhase::AwaitingSignature,
                    sign_request(signer_identity, string_to_sign, token),
                ),
                None => (SdzSignerPhase::AwaitingToken, token_request()),
            }
        },
        (SdzSignerPhase::AwaitingToken, SdzSignerEvent::TokenFetched { status, access_token }) => {
            if is_success(status) && access_token is Some {
                (
                    SdzSignerPhase::AwaitingSignature,
                    sign_request(signer_identity, string_to_sign, access_token->0@),
                )
            } else {
                (SdzSignerPhase::Closed, SdzSignerActionView::Fail)
            }
        },
        (
            SdzSignerPhase::AwaitingSignature,
            SdzSignerEvent::BlobSigned { status, signed_blob },
        ) => {
            if is_success(status) && signed_blob is Some {
                match signature_text(vstd::utf8::encode_utf8(signed_blob->0@)) {
                    Some(signature) => (
                        SdzSignerPhase::Closed,
                        SdzSignerActionView::Succeed { signature },
                    ),
                    None => (SdzSignerPhase::Closed, SdzSignerActionView::Fail),
                }
            } else {
                (SdzSignerPhase::Closed, SdzSignerActionView::Fail)
            }
        },
        _ => (SdzSignerPhase::Closed, SdzSignerActionView::Fail),
    }
}

/// How many answers a phase can still wait for.
pub open spec fn steps_left(phase: SdzSignerPhase) -> nat {
    match phase {
        SdzSignerPhase::Idle => 3,
        SdzSignerPhase::AwaitingToken => 2,
        SdzSignerPhase::AwaitingSignature => 1,
        SdzSignerPhase::Closed => 0,
    }
}

/// One delegated signing: the identity to sign as, the text to sign, and
/// how far the signing has come.
#[derive(Clone, Debug)]
pub struct SdzRemoteSigner {
    signer_identity: String,
    string_to_sign: String,
    phase: SdzSignerPhase,
}

impl SdzRemoteSigner {
    /// The identity to sign as.
    pub closed spec fn identity(self) -> Seq<char> {
        self.signer_identity@
    }

    /// The text to sign.
    pub closed spec fn text(self) -> Seq<char> {
        self.string_to_sign@
    }

    /// How far the signing has come.
    pub closed spec fn phase(self) -> SdzSignerPhase {
        self.phase
    }

    /// A signing of `string_to_sign` as `signer_identity`, not yet started.
    pub fn new(signer_identity: &str, string_to_sign: &str) -> (r: SdzRemoteSigner)
        ensures
            r.identity() == signer_identity@,
            r.text() == string_to_sign@,
            r.phase() == SdzSignerPhase::Idle,
    {
        SdzRemoteSigner {
            signer_identity: String::from_str(signer_identity),
            string_to_sign: String::from_str(string_to_sign),
            phase: SdzSignerPhase::Idle,
        }
    }

    /// How far the signing has come.
    pub fn current_phase(&self) -> (r: SdzSignerPhase)
        ensures
            r == self.phase(),
    {
        self.phase
    }

    fn sign_blob_action(&self, bearer_token: String) -> (r: SdzSignerAction)
        ensures
            r@ == sign_request(self.identity(), self.text(), bearer_token@),
    {
        let payload = sdz_sign_payload(self.string_to_sign.as_str());
        let body = sdz_sign_body(payload.as_str());
        SdzSignerAction::SignBlob {
            url: sdz_sign_blob_url(self.signer_identity.as_str()),
            bearer_token,
            payload,
            body,
        }
    }

    /// Takes an event and says what is to be done next.
    pub fn step(&mut self, event: SdzSignerEvent) -> (r: SdzSignerAction)
        ensures
            final(self).identity() == old(self).identity(),
            final(self).text() == old(self).text(),
            (final(self).phase(), r@) == signer_transition(
                old(self).phase(),
                old(self).identity(),
                old(self).text(),
                event,
            ),
    {
        let phase = self.phase;
        match event {
            SdzSignerEvent::Started { signing_override, shared_override } => {
                if phase == SdzSignerPhase::Idle {
                    let mut candidates: Vec<Option<String>> = Vec::new();
                    candidates.push(signing_override);
                    candidates.push(shared_override);
                    assert(candidates@ =~= seq![signing_override, shared_override]);
                    match sdz_first_token(candidates.as_slice()) {
                        Some(token) => {
                            self.phase = SdzSignerPhase::AwaitingSignature;
                            self.sign_blob_action(token)
                        },
                        None => {
                            self.phase = SdzSignerPhase::AwaitingToken;
                            SdzSignerAction::FetchToken {
                                token_url: String::from_str(SDZ_METADATA_TOKEN_URL),
                                header_name: String::from_str(SDZ_METADATA_HEADER_NAME),
                                header_value: String::from_str(SDZ_METADATA_HEADER_VALUE),
                            }
                        },
                    }
                } else {
                    self.phase = SdzSignerPhase::Closed;
                    SdzSignerAction::Fail
                }
            },
            SdzSignerEvent::TokenFetched { status, access_token } => {
                if phase == SdzSignerPhase::AwaitingToken && sdz_status_is_success(status) {
                    match access_token {
                        Some(token) => {
                            self.phase = SdzSignerPhase::AwaitingSignature;
                            self.sign_blob_action(token)
                        },
                        None => {
                            self.phase = SdzSignerPhase::Closed;
                            SdzSignerAction::Fail
                        },
                    }
                } else {
                    self.phase = SdzSignerPhase::Closed;
                    SdzSignerAction::Fail
                }
            },
            SdzSignerEvent::BlobSigned { status, signed_blob } => {
                self.phase = SdzSignerPhase::Closed;
                if phase == SdzSignerPhase::AwaitingSignature && sdz_status_is_success(status) {
                    match signed_blob {
                        Some(blob) => match sdz_signature_from_blob(blob.as_str()) {
                            Ok(signature) => SdzSignerAction::Succeed { signature },
                            Err(_) => SdzSignerAction::Fail,
                        },
                        None => SdzSignerAction::Fail,
                    }
                } else {
                    SdzSignerAction::Fail
                }
            },
            SdzSignerEvent::TransportFailed => {
                self.phase = SdzSignerPhase::Closed;
                SdzSignerAction::Fail
            },
        }
    }
}

impl SdzSignerAction {
    /// What the signing has come to, where it has ended: the signature, or
    /// an internal error that says nothing of the cause.
    pub fn outcome(&self) -> (r: Option<Result<String, SdzApiError>>)
        ensures
            match self@ {
                SdzSignerActionView::Succeed { signature } => r matches Some(Ok(s)) && s@
                    == signature,
                SdzSignerActionView::Fail => r matches Some(Err(e)) && e@
                    == SdzApiErrorView::Internal,
                _ => r is None,
            },
    {
        match self {
            SdzSignerAction::Succeed { signature } => Some(Ok(signature.clone())),
            SdzSignerAction::Fail => Some(Err(SdzApiError::Internal)),
            _ => None,
        }
    }
}

/// Every step brings the signing nearer to its end: nothing is asked twice,
/// and nothing is tried again.
pub proof fn lemma_signer_makes_progress(
    phase: SdzSignerPhase,
    signer_identity: Seq<char>,
    string_to_sign: Seq<char>,
    event: SdzSignerEvent,
)
    requires
        phase != SdzSignerPhase::Closed,
    ensures
        steps_left(signer_transition(phase, signer_identity, string_to_sign, event).0)
            < steps_left(phase),
{
}

/// A signing that has ended stays ended, and answers every event with
/// failure.
pub proof fn lemma_closed_signer_stays_closed(
    signer_identity: Seq<char>,
    string_to_sign: Seq<char>,
    event: SdzSignerEvent,
)
    ensures
        signer_transition(SdzSignerPhase::Closed, signer_identity, string_to_sign, event) == (
            SdzSignerPhase::Closed,
            SdzSignerActionView::Fail,
        ),
{
}

/// A failure of transport ends the signing in failure, whatever the phase.
pub proof fn lemma_transport_failure_fails(
    phase: SdzSignerPhase,
    signer_identity: Seq<char>,
    string_to_sign: Seq<char>,
)
    ensures
        signer_transition(
            phase,
            signer_identity,
            string_to_sign,
            SdzSignerEvent::TransportFailed,
        ) == (SdzSignerPhase::Closed, SdzSignerActionView::Fail),
{
}

/// An answer with a status outside 200 to 299 ends the signing in failure.
pub proof fn lemma_bad_status_fails(
    phase: SdzSignerPhase,
    signer_identity: Seq<char>,
    string_to_sign: Seq<char>,
    event: SdzSignerEvent,
)
    requires
        match event {
            SdzSignerEvent::TokenFetched { status, .. } => !is_success(status),
            SdzSignerEvent::BlobSigned { status, .. } => !is_success(status),
            _ => false,
        },
    ensures
        signer_transition(phase, signer_identity, string_to_sign, event) == (
            SdzSignerPhase::Closed,
            SdzSignerActionView::Fail,
        ),
{
}

/// The signing request always goes to the endpoint of the configured
/// identity and carries the base64 text of the string to sign; the token is
/// an override or the one that was fetched.
pub proof fn lemma_sign_request_is_fixed(
    phase: SdzSignerPhase,
    signer_identity: Seq<char>,
    string_to_sign: Seq<char>,
    event: SdzSignerEvent,
)
    requires
        signer_transition(phase, signer_identity, string_to_sign, event).1 is SignBlob,
    ensures
        signer_transition(phase, signer_identity, string_to_sign, event).0
            == SdzSignerPhase::AwaitingSignature,
        signer_transition(phase, signer_identity, string_to_sign, event).1->url == sign_url_text(
            signer_identity,
        ),
        signer_transition(phase, signer_identity, string_to_sign, event).1->payload == base64_text(
            vstd::utf8::encode_utf8(string_to_sign),
        ),
        signer_transition(phase, signer_identity, string_to_sign, event).1->body
            == sign_body_text(base64_text(vstd::utf8::encode_utf8(string_to_sign))),
        match event {
            SdzSignerEvent::Started { signing_override, shared_override } => first_token(
                seq![signing_override, shared_override],
            ) == Some(signer_transition(phase, signer_identity, string_to_sign, event).1->bearer_token),
            SdzSignerEvent::TokenFetched { status, access_token } => is_success(status) && (
            access_token matches Some(t) && t@ == signer_transition(
                phase,
                signer_identity,
                string_to_sign,
                event,
            ).1->bearer_token),
            _ => false,
        },
{
}

} // verus!
