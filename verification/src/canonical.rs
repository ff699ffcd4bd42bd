//! The canonical form of the upload request, and the string that is signed.
//!
//! The request that a client will send is a `PUT` of one object with two
//! signed headers, `content-type` and `host`. Its canonical form is the text
//! that the object store rebuilds on its side; both sides must arrive at the
//! same bytes.

use vstd::prelude::*;
use vstd::string::StringExecFns;
use vstd::utf8::{encode_utf8, is_ascii_chars, is_ascii_chars_encode_utf8};
use crate::digest::{hex_lower, sdz_sha256_hex, sha256_digest};
use crate::encoding::{
    lemma_clean_text_encodes_to_itself, lemma_percent_encode_concat, lemma_percent_encode_single,
    percent_encode, sdz_encode_path, SdzEncodeSet,
};
use crate::params::{
    agree_before, key_le, lemma_sorted_params_are_unique, pair_text, params_view, query_text,
    sdz_build_query, sdz_sort_params, sorted_by_key, sorted_params,
};
use crate::text::{lemma_split_joined, lemma_split_without_separator, split_on};

verus! {

/// The host name of the object store.
pub const SDZ_STORAGE_HOST: &'static str = "storage.googleapis.com";

/// The signing algorithm's identifier.
pub const SDZ_GCS_ALGORITHM: &'static str = "GOOG4-RSA-SHA256";

/// The headers that the signature covers, in alphabetical order.
pub const SDZ_SIGNED_HEADERS: &'static str = "content-type;host";

/// The marker that stands in place of a body hash: the body is not known
/// when the URL is signed.
pub const SDZ_UNSIGNED_PAYLOAD: &'static str = "UNSIGNED-PAYLOAD";

/// The key of the algorithm parameter.
pub const SDZ_PARAM_ALGORITHM: &'static str = "X-Goog-Algorithm";

/// The key of the credential parameter.
pub const SDZ_PARAM_CREDENTIAL: &'static str = "X-Goog-Credential";

/// The key of the timestamp parameter.
pub const SDZ_PARAM_DATE: &'static str = "X-Goog-Date";

/// The key of the expiry parameter.
pub const SDZ_PARAM_EXPIRES: &'static str = "X-Goog-Expires";

/// The key of the signed-headers parameter.
pub const SDZ_PARAM_SIGNED_HEADERS: &'static str = "X-Goog-SignedHeaders";

/// The ten decimal digits, by value.
pub open spec fn decimal_digits() -> Seq<char> {
    seq!['0', '1', '2', '3', '4', '5', '6', '7', '8', '9']
}

/// The decimal numeral of `n`, without sign or leading zeros.
pub open spec fn decimal_text(n: nat) -> Seq<char>
    decreases n,
{
    if n < 10 {
        seq![decimal_digits()[n as int]]
    } else {
        decimal_text(n / 10) + seq![decimal_digits()[(n % 10) as int]]
    }
}

fn decimal_digit(d: u32) -> (r: char)
    requires
        d < 10,
    ensures
        r == decimal_digits()[d as int],
{
    if d == 0 {
        '0'
    } else if d == 1 {
        '1'
    } else if d == 2 {
        '2'
    } else if d == 3 {
        '3'
    } else if d == 4 {
        '4'
    } else if d == 5 {
        '5'
    } else if d == 6 {
        '6'
    } else if d == 7 {
        '7'
    } else if d == 8 {
        '8'
    } else {
        '9'
    }
}

/// Writes `n` as a decimal numeral.
pub fn sdz_decimal(n: u32) -> (r: String)
    ensures
        r@ == decimal_text(n as nat),
    decreases n,
{
    if n < 10 {
        let mut out = String::new();
        out.push(decimal_digit(n));
        assert(out@ =~= decimal_text(n as nat));
        out
    } else {
        let mut out = sdz_decimal(n / 10);
        out.push(decimal_digit(n % 10));
        out
    }
}

/// The five parameters of a signed URL, in the order of their keys.
pub open spec fn signing_params(credential: Seq<char>, timestamp: Seq<char>, expires_in: nat) -> Seq<
    (Seq<char>, Seq<char>),
> {
    seq![
        (SDZ_PARAM_ALGORITHM@, SDZ_GCS_ALGORITHM@),
        (SDZ_PARAM_CREDENTIAL@, credential),
        (SDZ_PARAM_DATE@, timestamp),
        (SDZ_PARAM_EXPIRES@, decimal_text(expires_in)),
        (SDZ_PARAM_SIGNED_HEADERS@, SDZ_SIGNED_HEADERS@),
    ]
}

/// The canonical query: the five parameters as canonical text.
pub open spec fn canonical_query_text(
    credential: Seq<char>,
    timestamp: Seq<char>,
    expires_in: nat,
) -> Seq<char> {
    query_text(signing_params(credential, timestamp, expires_in))
}

/// Builds the five parameters of a signed URL.
pub fn sdz_signing_params(credential: &str, timestamp: &str, expires_in: u32) -> (r: Vec<
    (String, String),
>)
    ensures
        params_view(r@) == signing_params(credential@, timestamp@, expires_in as nat),
{
    let mut out: Vec<(String, String)> = Vec::new();
    out.push((String::from_str(SDZ_PARAM_ALGORITHM), String::from_str(SDZ_GCS_ALGORITHM)));
    out.push((String::from_str(SDZ_PARAM_CREDENTIAL), String::from_str(credential)));
    out.push((String::from_str(SDZ_PARAM_DATE), String::from_str(timestamp)));
    out.push((String::from_str(SDZ_PARAM_EXPIRES), sdz_decimal(expires_in)));
    out.push((String::from_str(SDZ_PARAM_SIGNED_HEADERS), String::from_str(SDZ_SIGNED_HEADERS)));
    assert(params_view(out@) =~= signing_params(credential@, timestamp@, expires_in as nat));
    out
}

/// Two ASCII keys that agree before place `k`, the first having the smaller
/// character there, are different and in order.
proof fn lemma_ascii_keys_in_order(a: Seq<char>, b: Seq<char>, k: int)
    requires
        is_ascii_chars(a),
        is_ascii_chars(b),
        0 <= k < a.len(),
        k < b.len(),
        forall|j: int| 0 <= j < k ==> a[j] == b[j],
        (a[k] as u8) < (b[k] as u8),
    ensures
        key_le(a, b),
        encode_utf8(a) != encode_utf8(b),
{
    is_ascii_chars_encode_utf8(a);
    is_ascii_chars_encode_utf8(b);
    assert(agree_before(encode_utf8(a), encode_utf8(b), k));
    assert(encode_utf8(a)[k] != encode_utf8(b)[k]);
}

/// The five keys, in the order in which they are listed, step up from each
/// to the next: the listed order is their lexicographic order, whatever the
/// values are.
pub proof fn lemma_signing_params_are_sorted(
    credential: Seq<char>,
    timestamp: Seq<char>,
    expires_in: nat,
)
    ensures
        sorted_params(signing_params(credential, timestamp, expires_in)),
        sorted_by_key(signing_params(credential, timestamp, expires_in)),
{
    reveal_strlit("X-Goog-Algorithm");
    reveal_strlit("X-Goog-Credential");
    reveal_strlit("X-Goog-Date");
    reveal_strlit("X-Goog-Expires");
    reveal_strlit("X-Goog-SignedHeaders");
    let ps = signing_params(credential, timestamp, expires_in);
    let k0 = SDZ_PARAM_ALGORITHM@;
    let k1 = SDZ_PARAM_CREDENTIAL@;
    let k2 = SDZ_PARAM_DATE@;
    let k3 = SDZ_PARAM_EXPIRES@;
    let k4 = SDZ_PARAM_SIGNED_HEADERS@;
    lemma_ascii_keys_in_order(k0, k1, 7);
    lemma_ascii_keys_in_order(k0, k2, 7);
    lemma_ascii_keys_in_order(k0, k3, 7);
    lemma_ascii_keys_in_order(k0, k4, 7);
    lemma_ascii_keys_in_order(k1, k2, 7);
    lemma_ascii_keys_in_order(k1, k3, 7);
    lemma_ascii_keys_in_order(k1, k4, 7);
    lemma_ascii_keys_in_order(k2, k3, 7);
    lemma_ascii_keys_in_order(k2, k4, 7);
    lemma_ascii_keys_in_order(k3, k4, 7);
    assert(ps[0].0 == k0 && ps[1].0 == k1 && ps[2].0 == k2 && ps[3].0 == k3 && ps[4].0 == k4);
}

/// In whatever order the five parameters are given, putting them in order
/// gives the listed order: a list that is in order and holds these five is
/// the list of `signing_params`.
pub proof fn lemma_canonical_order_is_unique(
    ps: Seq<(Seq<char>, Seq<char>)>,
    credential: Seq<char>,
    timestamp: Seq<char>,
    expires_in: nat,
)
    requires
        sorted_params(ps),
        ps.to_multiset() == signing_params(credential, timestamp, expires_in).to_multiset(),
    ensures
        ps == signing_params(credential, timestamp, expires_in),
{
    lemma_signing_params_are_sorted(credential, timestamp, expires_in);
    lemma_sorted_params_are_unique(ps, signing_params(credential, timestamp, expires_in));
}

/// Builds the canonical query: the five parameters, sorted by key, as
/// canonical text.
pub fn sdz_canonical_query(credential: &str, timestamp: &str, expires_in: u32) -> (r: String)
    ensures
        r@ == canonical_query_text(credential@, timestamp@, expires_in as nat),
{
    let params = sdz_signing_params(credential, timestamp, expires_in);
    proof {
        lemma_signing_params_are_sorted(credential@, timestamp@, expires_in as nat);
    }
    let sorted = sdz_sort_params(params);
    sdz_build_query(sorted.as_slice())
}

/// The canonical URI of an object: `/`, the bucket, `/`, the object's name,
/// percent-encoded as a path.
pub open spec fn canonical_uri_text(bucket: Seq<char>, object_name: Seq<char>) -> Seq<char> {
    percent_encode(seq!['/'] + bucket + seq!['/'] + object_name, SdzEncodeSet::Path)
}

/// Builds the canonical URI of an object.
pub fn sdz_build_canonical_uri(bucket: &str, object_name: &str) -> (r: String)
    ensures
        r@ == canonical_uri_text(bucket@, object_name@),
{
    let mut full_path = String::new();
    full_path.push('/');
    full_path.append(bucket);
    full_path.push('/');
    full_path.append(object_name);
    assert(full_path@ =~= seq!['/'] + bucket@ + seq!['/'] + object_name@);
    sdz_encode_path(full_path.as_str())
}

/// The canonical headers: `content-type` and `host`, in this order, each
/// closed by a newline.
pub open spec fn canonical_headers_text(content_type: Seq<char>) -> Seq<char> {
    "content-type:"@ + content_type + "\nhost:"@ + SDZ_STORAGE_HOST@ + "\n"@
}

/// Builds the canonical headers for a content type.
pub fn sdz_canonical_headers(content_type: &str) -> (r: String)
    ensures
        r@ == canonical_headers_text(content_type@),
{
    let mut out = String::from_str("content-type:");
    out.append(content_type);
    out.append("\nhost:");
    out.append(SDZ_STORAGE_HOST);
    out.append("\n");
    out
}

/// The canonical representation of the intended upload.
#[derive(Clone, Debug)]
pub struct SdzCanonicalRequest {
    /// The HTTP method: always `PUT`.
    pub method: String,
    /// The percent-encoded path of the object.
    pub canonical_uri: String,
    /// The sorted, percent-encoded query parameters.
    pub canonical_query: String,
    /// The signed headers with their values.
    pub canonical_headers: String,
    /// The names of the signed headers.
    pub signed_headers: String,
}

/// The canonical request as one text: method, URI, query, headers, signed
/// header names and the payload marker, each on a line of its own.
pub open spec fn canonical_request_text(
    method: Seq<char>,
    canonical_uri: Seq<char>,
    canonical_query: Seq<char>,
    canonical_headers: Seq<char>,
    signed_headers: Seq<char>,
) -> Seq<char> {
    method + "\n"@ + canonical_uri + "\n"@ + canonical_query + "\n"@ + canonical_headers + "\n"@
        + signed_headers + "\n"@ + SDZ_UNSIGNED_PAYLOAD@
}

/// The canonical request text of an upload, from what it depends on.
pub open spec fn upload_request_text(
    bucket: Seq<char>,
    object_name: Seq<char>,
    content_type: Seq<char>,
    credential: Seq<char>,
    timestamp: Seq<char>,
    expires_in: nat,
) -> Seq<char> {
    canonical_request_text(
        "PUT"@,
        canonical_uri_text(bucket, object_name),
        canonical_query_text(credential, timestamp, expires_in),
        canonical_headers_text(content_type),
        SDZ_SIGNED_HEADERS@,
    )
}

/// The hexadecimal SHA-256 digest of a text's UTF-8 bytes.
pub open spec fn text_hash(text: Seq<char>) -> Seq<char> {
    hex_lower(sha256_digest(encode_utf8(text)))
}

impl SdzCanonicalRequest {
    /// The text that is hashed.
    pub open spec fn text(self) -> Seq<char> {
        canonical_request_text(
            self.method@,
            self.canonical_uri@,
            self.canonical_query@,
            self.canonical_headers@,
            self.signed_headers@,
        )
    }

    /// Assembles the canonical request of an upload.
    pub fn for_upload(
        bucket: &str,
        object_name: &str,
        content_type: &str,
        credential: &str,
        timestamp: &str,
        expires_in: u32,
    ) -> (r: SdzCanonicalRequest)
        ensures
            r.method@ == "PUT"@,
            r.canonical_uri@ == canonical_uri_text(bucket@, object_name@),
            r.canonical_query@ == canonical_query_text(
                credential@,
                timestamp@,
                expires_in as nat,
            ),
            r.canonical_headers@ == canonical_headers_text(content_type@),
            r.signed_headers@ == SDZ_SIGNED_HEADERS@,
            r.text() == upload_request_text(
                bucket@,
                object_name@,
                content_type@,
                credential@,
                timestamp@,
                expires_in as nat,
            ),
    {
        SdzCanonicalRequest {
            method: String::from_str("PUT"),
            canonical_uri: sdz_build_canonical_uri(bucket, object_name),
            canonical_query: sdz_canonical_query(credential, timestamp, expires_in),
            canonical_headers: sdz_canonical_headers(content_type),
            signed_headers: String::from_str(SDZ_SIGNED_HEADERS),
        }
    }

    /// Writes the canonical request as one text.
    pub fn render(&self) -> (r: String)
        ensures
            r@ == self.text(),
    {
        let mut out = self.method.clone();
        out.append("\n");
        out.append(self.canonical_uri.as_str());
        out.append("\n");
        out.append(self.canonical_query.as_str());
        out.append("\n");
        out.append(self.canonical_headers.as_str());
        out.append("\n");
        out.append(self.signed_headers.as_str());
        out.append("\n");
        out.append(SDZ_UNSIGNED_PAYLOAD);
        out
    }

    /// The hexadecimal SHA-256 digest of the canonical request.
    pub fn hash(&self) -> (r: String)
        ensures
            r@ == text_hash(self.text()),
    {
        let text = self.render();
        sdz_sha256_hex(text.as_str())
    }
}

/// The string to sign: algorithm, timestamp, scope and the canonical
/// request's hash, joined by newlines, with no newline at the end.
pub open spec fn string_to_sign_text(
    timestamp: Seq<char>,
    scope: Seq<char>,
    canonical_hash: Seq<char>,
) -> Seq<char> {
    SDZ_GCS_ALGORITHM@ + "\n"@ + timestamp + "\n"@ + scope + "\n"@ + canonical_hash
}

/// Builds the string to sign.
pub fn sdz_string_to_sign(timestamp: &str, scope: &str, canonical_hash: &str) -> (r: String)
    ensures
        r@ == string_to_sign_text(timestamp@, scope@, canonical_hash@),
{
    let mut out = String::from_str(SDZ_GCS_ALGORITHM);
    out.append("\n");
    out.append(timestamp);
    out.append("\n");
    out.append(scope);
    out.append("\n");
    out.append(canonical_hash);
    out
}

/// The string to sign has four lines and no newline at the end: split at
/// its newlines it gives the algorithm, the timestamp, the scope and the
/// hash, where none of these holds a newline itself.
pub proof fn lemma_string_to_sign_has_four_lines(
    timestamp: Seq<char>,
    scope: Seq<char>,
    canonical_hash: Seq<char>,
)
    requires
        forall|i: int| 0 <= i < timestamp.len() ==> timestamp[i] != '\n',
        forall|i: int| 0 <= i < scope.len() ==> scope[i] != '\n',
        forall|i: int| 0 <= i < canonical_hash.len() ==> canonical_hash[i] != '\n',
    ensures
        split_on(string_to_sign_text(timestamp, scope, canonical_hash), '\n') == seq![
            SDZ_GCS_ALGORITHM@,
            timestamp,
            scope,
            canonical_hash,
        ],
{
    reveal_strlit("\n");
    reveal_strlit("GOOG4-RSA-SHA256");
    let newline = seq!['\n'];
    assert("\n"@ =~= newline);
    let algorithm = SDZ_GCS_ALGORITHM@;
    let one = algorithm;
    let two = one + newline + timestamp;
    let three = two + newline + scope;
    let four = three + newline + canonical_hash;
    assert(four =~= string_to_sign_text(timestamp, scope, canonical_hash));
    lemma_split_without_separator(algorithm, '\n');
    lemma_split_without_separator(timestamp, '\n');
    lemma_split_without_separator(scope, '\n');
    lemma_split_without_separator(canonical_hash, '\n');
    lemma_split_joined(one, timestamp, '\n');
    lemma_split_joined(two, scope, '\n');
    lemma_split_joined(three, canonical_hash, '\n');
    assert(split_on(four, '\n') =~= seq![algorithm, timestamp, scope, canonical_hash]);
}

/// The canonical query spelled out: the five parameters stand in the order
/// of their keys, whatever their values are. The keys need no encoding; the
/// values are encoded for a query.
pub proof fn lemma_canonical_query_spelled_out(
    credential: Seq<char>,
    timestamp: Seq<char>,
    expires_in: nat,
)
    ensures
        canonical_query_text(credential, timestamp, expires_in) == "X-Goog-Algorithm="@
            + percent_encode(SDZ_GCS_ALGORITHM@, SdzEncodeSet::Query) + "&X-Goog-Credential="@
            + percent_encode(credential, SdzEncodeSet::Query) + "&X-Goog-Date="@ + percent_encode(
            timestamp,
            SdzEncodeSet::Query,
        ) + "&X-Goog-Expires="@ + percent_encode(decimal_text(expires_in), SdzEncodeSet::Query)
            + "&X-Goog-SignedHeaders="@ + percent_encode(
            SDZ_SIGNED_HEADERS@,
            SdzEncodeSet::Query,
        ),
{
    reveal_strlit("X-Goog-Algorithm");
    reveal_strlit("X-Goog-Credential");
    reveal_strlit("X-Goog-Date");
    reveal_strlit("X-Goog-Expires");
    reveal_strlit("X-Goog-SignedHeaders");
    reveal_strlit("X-Goog-Algorithm=");
    reveal_strlit("&X-Goog-Credential=");
    reveal_strlit("&X-Goog-Date=");
    reveal_strlit("&X-Goog-Expires=");
    reveal_strlit("&X-Goog-SignedHeaders=");
    let set = SdzEncodeSet::Query;
    lemma_clean_text_encodes_to_itself(SDZ_PARAM_ALGORITHM@, set);
    lemma_clean_text_encodes_to_itself(SDZ_PARAM_CREDENTIAL@, set);
    lemma_clean_text_encodes_to_itself(SDZ_PARAM_DATE@, set);
    lemma_clean_text_encodes_to_itself(SDZ_PARAM_EXPIRES@, set);
    lemma_clean_text_encodes_to_itself(SDZ_PARAM_SIGNED_HEADERS@, set);
    let ps = signing_params(credential, timestamp, expires_in);
    let q4 = ps;
    let q3 = q4.drop_last();
    let q2 = q3.drop_last();
    let q1 = q2.drop_last();
    let q0 = q1.drop_last();
    assert(q0.len() == 1 && q0[0] == ps[0]);
    assert(q1.last() == ps[1] && q2.last() == ps[2] && q3.last() == ps[3] && q4.last() == ps[4]);
    assert(query_text(q0) == pair_text(ps[0]));
    assert(query_text(q1) == query_text(q0) + seq!['&'] + pair_text(ps[1]));
    assert(query_text(q2) == query_text(q1) + seq!['&'] + pair_text(ps[2]));
    assert(query_text(q3) == query_text(q2) + seq!['&'] + pair_text(ps[3]));
    assert(query_text(q4) == query_text(q3) + seq!['&'] + pair_text(ps[4]));
    assert(pair_text(ps[0]) =~= "X-Goog-Algorithm="@ + percent_encode(SDZ_GCS_ALGORITHM@, set));
    assert(seq!['&'] + pair_text(ps[1]) =~= "&X-Goog-Credential="@ + percent_encode(
        credential,
        set,
    ));
    assert(seq!['&'] + pair_text(ps[2]) =~= "&X-Goog-Date="@ + percent_encode(timestamp, set));
    assert(seq!['&'] + pair_text(ps[3]) =~= "&X-Goog-Expires="@ + percent_encode(
        decimal_text(expires_in),
        set,
    ));
    assert(seq!['&'] + pair_text(ps[4]) =~= "&X-Goog-SignedHeaders="@ + percent_encode(
        SDZ_SIGNED_HEADERS@,
        set,
    ));
    assert(query_text(q4) =~= "X-Goog-Algorithm="@ + percent_encode(SDZ_GCS_ALGORITHM@, set)
        + "&X-Goog-Credential="@ + percent_encode(credential, set) + "&X-Goog-Date="@
        + percent_encode(timestamp, set) + "&X-Goog-Expires="@ + percent_encode(
        decimal_text(expires_in),
        set,
    ) + "&X-Goog-SignedHeaders="@ + percent_encode(SDZ_SIGNED_HEADERS@, set));
}

/// The canonical URI keeps the slashes that part bucket and object: it is
/// `/`, the encoded bucket, `/`, the encoded object name.
pub proof fn lemma_canonical_uri_by_parts(bucket: Seq<char>, object_name: Seq<char>)
    ensures
        canonical_uri_text(bucket, object_name) == seq!['/'] + percent_encode(
            bucket,
            SdzEncodeSet::Path,
        ) + seq!['/'] + percent_encode(object_name, SdzEncodeSet::Path),
{
    let set = SdzEncodeSet::Path;
    lemma_percent_encode_concat(seq!['/'] + bucket + seq!['/'], object_name, set);
    lemma_percent_encode_concat(seq!['/'] + bucket, seq!['/'], set);
    lemma_percent_encode_concat(seq!['/'], bucket, set);
    lemma_percent_encode_single('/', set);
}

/// The same inputs give the same digest: the hash of the canonical request
/// depends on nothing but bucket, object name, content type, credential,
/// timestamp and expiry.
pub proof fn lemma_canonical_hash_is_deterministic(
    first: (Seq<char>, Seq<char>, Seq<char>, Seq<char>, Seq<char>, nat),
    second: (Seq<char>, Seq<char>, Seq<char>, Seq<char>, Seq<char>, nat),
)
    requires
        first == second,
    ensures
        text_hash(upload_request_text(first.0, first.1, first.2, first.3, first.4, first.5))
            == text_hash(
            upload_request_text(second.0, second.1, second.2, second.3, second.4, second.5),
        ),
{
}

} // verus!
