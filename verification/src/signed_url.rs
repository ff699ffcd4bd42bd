//! Signed upload URLs: what is signed, and what the signature is put into.
//!
//! The repository holds the bucket, the signer's identity and the validity
//! of a URL. Signing itself is delegated: `begin_upload` says what is to be
//! signed, and `finish_upload` builds the answer from the signature that
//! came back.

use vstd::prelude::*;
use vstd::string::StringExecFns;
use crate::canonical::{
    canonical_query_text, canonical_uri_text, sdz_build_canonical_uri, sdz_canonical_query,
    sdz_string_to_sign, string_to_sign_text, text_hash, upload_request_text, SdzCanonicalRequest,
    SDZ_STORAGE_HOST,
};
use crate::encoding::{percent_encode, sdz_encode_path, SdzEncodeSet};
use crate::scope::{
    credential_text, scope_text, sdz_credential, sdz_scope, utc_basic_timestamp, SdzUtcInstant,
};
use crate::storage::{
    sdz_to_jst, SdzOffsetTime, SdzUploadUrlRequest, SdzUploadUrlResult, SDZ_JST_OFFSET_SECONDS,
};

verus! {

/// The validity of a signed URL where none is configured: fifteen minutes.
pub const SDZ_DEFAULT_EXPIRES_IN: u32 = 900;

/// The signed URL: scheme and host, the canonical URI, the canonical query,
/// and the signature as the last parameter.
pub open spec fn signed_url_text(
    canonical_uri: Seq<char>,
    canonical_query: Seq<char>,
    signature: Seq<char>,
) -> Seq<char> {
    "https://"@ + SDZ_STORAGE_HOST@ + canonical_uri + "?"@ + canonical_query
        + "&X-Goog-Signature="@ + signature
}

/// The plain URL of an object: scheme and host, the bucket, the object's
/// name percent-encoded as a path.
pub open spec fn object_url_text(bucket: Seq<char>, object_name: Seq<char>) -> Seq<char> {
    "https://"@ + SDZ_STORAGE_HOST@ + "/"@ + bucket + "/"@ + percent_encode(
        object_name,
        SdzEncodeSet::Path,
    )
}

/// Puts a signature into a URL. The signature comes last and is written as
/// it is: it is no part of what was signed, and hexadecimal text needs no
/// encoding.
pub fn sdz_assemble_signed_url(canonical_uri: &str, canonical_query: &str, signature: &str) -> (r:
    String)
    ensures
        r@ == signed_url_text(canonical_uri@, canonical_query@, signature@),
{
    let mut out = String::from_str("https://");
    out.append(SDZ_STORAGE_HOST);
    out.append(canonical_uri);
    out.append("?");
    out.append(canonical_query);
    out.append("&X-Goog-Signature=");
    out.append(signature);
    out
}

/// What is to be signed for one upload, with the parts it was made from.
#[derive(Clone, Debug)]
pub struct SdzSigningJob {
    /// The signing time as a basic timestamp.
    pub timestamp: String,
    /// The credential scope.
    pub scope: String,
    /// The credential: signer identity and scope.
    pub credential: String,
    /// The canonical request.
    pub canonical_request: SdzCanonicalRequest,
    /// The hexadecimal digest of the canonical request.
    pub canonical_hash: String,
    /// The text that the signing authority signs.
    pub string_to_sign: String,
}

/// Hands out signed upload URLs for one bucket.
#[derive(Clone, Debug)]
pub struct SdzStorageSignedUrlRepository {
    sdz_bucket: String,
    sdz_service_account_email: String,
    sdz_expires_in: u32,
}

impl SdzStorageSignedUrlRepository {
    /// The bucket.
    pub closed spec fn bucket(self) -> Seq<char> {
        self.sdz_bucket@
    }

    /// The signer's identity.
    pub closed spec fn signer_identity(self) -> Seq<char> {
        self.sdz_service_account_email@
    }

    /// The validity of a URL, in seconds.
    pub closed spec fn expires_in(self) -> nat {
        self.sdz_expires_in as nat
    }

    /// The credential for a signature made at `now`.
    pub open spec fn credential_at(self, now: int) -> Seq<char> {
        credential_text(self.signer_identity(), utc_basic_timestamp(now as i64))
    }

    /// The canonical query for a signature made at `now`.
    pub open spec fn query_at(self, now: int) -> Seq<char> {
        canonical_query_text(
            self.credential_at(now),
            utc_basic_timestamp(now as i64),
            self.expires_in(),
        )
    }

    /// The canonical request text for an upload signed at `now`.
    pub open spec fn request_text_at(self, request: SdzUploadUrlRequest, now: int) -> Seq<char> {
        upload_request_text(
            self.bucket(),
            request.sdz_object_name@,
            request.sdz_content_type@,
            self.credential_at(now),
            utc_basic_timestamp(now as i64),
            self.expires_in(),
        )
    }

    /// The text to be signed for an upload requested at `now`.
    pub open spec fn string_to_sign_at(self, request: SdzUploadUrlRequest, now: int) -> Seq<char> {
        string_to_sign_text(
            utc_basic_timestamp(now as i64),
            scope_text(utc_basic_timestamp(now as i64)),
            text_hash(self.request_text_at(request, now)),
        )
    }

    /// The signed URL for an upload requested at `now`, given the signature.
    pub open spec fn signed_url_at(
        self,
        request: SdzUploadUrlRequest,
        now: int,
        signature: Seq<char>,
    ) -> Seq<char> {
        signed_url_text(
            canonical_uri_text(self.bucket(), request.sdz_object_name@),
            self.query_at(now),
            signature,
        )
    }

    /// A repository for `sdz_bucket`, signing as `sdz_service_account_email`,
    /// whose URLs are valid for `sdz_expires_in` seconds.
    pub fn new(sdz_bucket: String, sdz_service_account_email: String, sdz_expires_in: u32) -> (r:
        SdzStorageSignedUrlRepository)
        ensures
            r.bucket() == sdz_bucket@,
            r.signer_identity() == sdz_service_account_email@,
            r.expires_in() == sdz_expires_in,
    {
        SdzStorageSignedUrlRepository { sdz_bucket, sdz_service_account_email, sdz_expires_in }
    }

    /// The bucket.
    pub fn bucket_name(&self) -> (r: &str)
        ensures
            r@ == self.bucket(),
    {
        self.sdz_bucket.as_str()
    }

    /// The signer's identity.
    pub fn service_account_email(&self) -> (r: &str)
        ensures
            r@ == self.signer_identity(),
    {
        self.sdz_service_account_email.as_str()
    }

    /// The validity of a URL, in seconds.
    pub fn expires_in_seconds(&self) -> (r: u32)
        ensures
            r == self.expires_in(),
    {
        self.sdz_expires_in
    }

    /// Says what is to be signed for an upload requested at `now`.
    ///
    /// Nothing here depends on anything but the repository, the request and
    /// the time: the same three give the same job.
    pub fn begin_upload(&self, request: &SdzUploadUrlRequest, now: SdzUtcInstant) -> (r:
        SdzSigningJob)
        ensures
            r.timestamp@ == utc_basic_timestamp(now.seconds() as i64),
            r.scope@ == scope_text(r.timestamp@),
            r.credential@ == self.credential_at(now.seconds()),
            r.canonical_request.text() == self.request_text_at(*request, now.seconds()),
            r.canonical_hash@ == text_hash(r.canonical_request.text()),
            r.string_to_sign@ == self.string_to_sign_at(*request, now.seconds()),
    {
        let timestamp = now.timestamp();
        let scope = sdz_scope(timestamp.as_str());
        let credential = sdz_credential(self.sdz_service_account_email.as_str(), timestamp.as_str());
        let canonical_request = SdzCanonicalRequest::for_upload(
            self.sdz_bucket.as_str(),
            request.sdz_object_name.as_str(),
            request.sdz_content_type.as_str(),
            credential.as_str(),
            timestamp.as_str(),
            self.sdz_expires_in,
        );
        let canonical_hash = canonical_request.hash();
        let string_to_sign = sdz_string_to_sign(
            timestamp.as_str(),
            scope.as_str(),
            canonical_hash.as_str(),
        );
        SdzSigningJob {
            timestamp,
            scope,
            credential,
            canonical_request,
            canonical_hash,
            string_to_sign,
        }
    }

    /// Builds the signed URL of an upload requested at `now`.
    pub fn build_signed_url(
        &self,
        request: &SdzUploadUrlRequest,
        now: SdzUtcInstant,
        signature: &str,
    ) -> (r: String)
        ensures
            r@ == self.signed_url_at(*request, now.seconds(), signature@),
    {
        let timestamp = now.timestamp();
        let credential = sdz_credential(self.sdz_service_account_email.as_str(), timestamp.as_str());
        let canonical_query = sdz_canonical_query(
            credential.as_str(),
            timestamp.as_str(),
            self.sdz_expires_in,
        );
        let canonical_uri = sdz_build_canonical_uri(
            self.sdz_bucket.as_str(),
            request.sdz_object_name.as_str(),
        );
        sdz_assemble_signed_url(canonical_uri.as_str(), canonical_query.as_str(), signature)
    }

    /// Builds the plain URL of an object.
    pub fn build_object_url(&self, object_name: &str) -> (r: String)
        ensures
            r@ == object_url_text(self.bucket(), object_name@),
    {
        let encoded_path = sdz_encode_path(object_name);
        let mut out = String::from_str("https://");
        out.append(SDZ_STORAGE_HOST);
        out.append("/");
        out.append(self.sdz_bucket.as_str());
        out.append("/");
        out.append(encoded_path.as_str());
        out
    }

    /// When a URL signed at `now` stops being valid: the configured validity
    /// after `now`, shown nine hours east of UTC.
    pub fn expires_at(&self, now: SdzUtcInstant) -> (r: SdzOffsetTime)
        ensures
            r.seconds() == now.seconds() + self.expires_in(),
            r.offset() == SDZ_JST_OFFSET_SECONDS,
    {
        sdz_to_jst(SdzOffsetTime::after(now, self.sdz_expires_in))
    }

    /// Builds the answer to an upload request from the signature that the
    /// signing authority returned for the job begun at `now`.
    pub fn finish_upload(&self, request: SdzUploadUrlRequest, now: SdzUtcInstant, signature: &str)
        -> (r: SdzUploadUrlResult)
        ensures
            r.sdz_upload_url@ == self.signed_url_at(request, now.seconds(), signature@),
            r.sdz_object_url@ == object_url_text(self.bucket(), request.sdz_object_name@),
            r.sdz_object_name@ == request.sdz_object_name@,
            r.sdz_expires_at.seconds() == now.seconds() + self.expires_in(),
            r.sdz_expires_at.offset() == SDZ_JST_OFFSET_SECONDS,
    {
        let upload_url = self.build_signed_url(&request, now, signature);
        let object_url = self.build_object_url(request.sdz_object_name.as_str());
        let expires_at = self.expires_at(now);
        SdzUploadUrlResult {
            sdz_upload_url: upload_url,
            sdz_object_url: object_url,
            sdz_object_name: request.sdz_object_name,
            sdz_expires_at: expires_at,
        }
    }
}

/// Signing is repeatable: two repositories with the same settings, asked for
/// the same object and content type at the same second, ask for the same
/// text to be signed, and put a signature into the same URL.
pub proof fn lemma_signing_is_deterministic(
    first: SdzStorageSignedUrlRepository,
    second: SdzStorageSignedUrlRepository,
    request: SdzUploadUrlRequest,
    again: SdzUploadUrlRequest,
    now: int,
    signature: Seq<char>,
)
    requires
        first.bucket() == second.bucket(),
        first.signer_identity() == second.signer_identity(),
        first.expires_in() == second.expires_in(),
        request.sdz_object_name@ == again.sdz_object_name@,
        request.sdz_content_type@ == again.sdz_content_type@,
    ensures
        first.request_text_at(request, now) == second.request_text_at(again, now),
        first.string_to_sign_at(request, now) == second.string_to_sign_at(again, now),
        first.signed_url_at(request, now, signature) == second.signed_url_at(
            again,
            now,
            signature,
        ),
{
}

/// The signature is the last thing in a signed URL.
pub proof fn lemma_signed_url_ends_in_signature(
    canonical_uri: Seq<char>,
    canonical_query: Seq<char>,
    signature: Seq<char>,
)
    ensures
        signed_url_text(canonical_uri, canonical_query, signature).len() >= signature.len(),
        signed_url_text(canonical_uri, canonical_query, signature).skip(
            signed_url_text(canonical_uri, canonical_query, signature).len() - signature.len(),
        ) == signature,
{
    let url = signed_url_text(canonical_uri, canonical_query, signature);
    assert(url.skip(url.len() - signature.len()) =~= signature);
}

} // verus!
