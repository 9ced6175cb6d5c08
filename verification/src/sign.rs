//! Request signing for authenticated REST calls: the string-to-sign is the
//! API key, the timestamp in milliseconds rendered base-10, and the
//! canonical parameter string, concatenated with no separator; the signature
//! is the lower-case hex HMAC-SHA256 digest of it under the secret key.

use vstd::prelude::*;
use crate::numfmt::spec_u64_dec;

verus! {

/// Which canonicalization the parameters get before signing.
#[derive(Debug, Clone, Copy, PartialEq, Eq, Structural)]
pub enum SignRequestParamsKind {
    /// URL query-string form.
    Query,
    /// Compact JSON-object form.
    Body,
}

/// Everything a signature is computed from. Parameters are an ordered list
/// of key/value pairs.
#[derive(Debug)]
pub struct SignRequestParams {
    pub timestamp_millis: u64,
    pub api_key: String,
    pub secret_key: String,
    pub params_kind: SignRequestParamsKind,
    pub params: Vec<(String, String)>,
}

#[derive(Debug)]
pub struct SignRequestOutput {
    pub signature: String,
}

#[derive(Debug, Clone, Copy, PartialEq, Eq, Structural)]
pub enum SignRequestError {
    /// A parameter set that the chosen encoding could not represent.
    Canonicalization,
    /// A secret key the MAC primitive rejected.
    Signing,
}

/// The contents of a pair list, keys and values as character sequences.
pub open spec fn pairs_view(pairs: Seq<(String, String)>) -> Seq<(Seq<char>, Seq<char>)> {
    Seq::new(pairs.len(), |i: int| (pairs[i].0@, pairs[i].1@))
}

/// What `serde_urlencoded` produces for a pair list.
pub uninterp spec fn query_encoding_of(pairs: Seq<(Seq<char>, Seq<char>)>) -> Seq<char>;

/// What `serde_json` produces for a pair list rendered as a JSON object.
pub uninterp spec fn json_object_encoding_of(pairs: Seq<(Seq<char>, Seq<char>)>) -> Seq<char>;

/// The HMAC-SHA256 digest of `msg` under `key` (both UTF-8 encoded).
pub uninterp spec fn hmac_sha256_of(key: Seq<char>, msg: Seq<char>) -> Seq<u8>;

/// Relies on serde_urlencoded::to_string: percent-encoded query-string
/// serialization of the key/value pairs, in order; on a list of string
/// pairs every value is representable, so it does not fail.
#[verifier::external_body]
fn urlencode_pairs(pairs: &Vec<(String, String)>) -> (r: Result<String, SignRequestError>)
    ensures
        r is Ok,
        r matches Ok(s) ==> s@ == query_encoding_of(pairs_view(pairs@)),
{
    match serde_urlencoded::to_string(pairs) {
        Ok(s) => Ok(s),
        Err(_) => Err(SignRequestError::Canonicalization),
    }
}

/// Relies on serde_json::to_string on a JSON object built from the pairs:
/// compact JSON text; an object of string values always serializes, so it
/// does not fail.
#[verifier::external_body]
fn json_encode_pairs(pairs: &Vec<(String, String)>) -> (r: Result<String, SignRequestError>)
    ensures
        r is Ok,
        r matches Ok(s) ==> s@ == json_object_encoding_of(pairs_view(pairs@)),
{
    let mut map = serde_json::Map::new();
    for (k, v) in pairs.iter() {
        map.insert(k.clone(), serde_json::Value::String(v.clone()));
    }
    match serde_json::to_string(&serde_json::Value::Object(map)) {
        Ok(s) => Ok(s),
        Err(_) => Err(SignRequestError::Canonicalization),
    }
}

/// Relies on hmac's Hmac with sha2::Sha256: the digest is a function of key
/// and message alone and is 32 bytes long; HMAC accepts keys of any
/// length, so keying does not fail.
#[verifier::external_body]
fn hmac_sha256(key: &str, msg: &str) -> (r: Result<Vec<u8>, SignRequestError>)
    ensures
        r is Ok,
        r matches Ok(b) ==> b@ == hmac_sha256_of(key@, msg@) && b@.len() == 32,
{
    let mut mac = match <hmac::Hmac<sha2::Sha256> as hmac::KeyInit>::new_from_slice(
        key.as_bytes(),
    ) {
        Ok(m) => m,
        Err(_) => return Err(SignRequestError::Signing),
    };
    hmac::Mac::update(&mut mac, msg.as_bytes());
    let out = hmac::Mac::finalize(mac).into_bytes();
    Ok(out.to_vec())
}

/// The character for one hex digit, lower case.
pub open spec fn spec_hex_char(d: int) -> char {
    if d < 10 {
        crate::numfmt::spec_digit_char(d)
    } else if d == 10 {
        'a'
    } else if d == 11 {
        'b'
    } else if d == 12 {
        'c'
    } else if d == 13 {
        'd'
    } else if d == 14 {
        'e'
    } else {
        'f'
    }
}

/// Lower-case hex of a byte sequence: two digits per byte, high nibble first.
pub open spec fn spec_lower_hex(bytes: Seq<u8>) -> Seq<char> {
    Seq::new(
        2 * bytes.len(),
        |i: int|
            if i % 2 == 0 {
                spec_hex_char(bytes[i / 2] as int / 16)
            } else {
                spec_hex_char(bytes[i / 2] as int % 16)
            },
    )
}

pub open spec fn is_lower_hex_char(c: char) -> bool {
    ('0' <= c && c <= '9') || ('a' <= c && c <= 'f')
}

/// Relies on hex::encode: two lower-case digits per byte, in order, high
/// nibble first.
#[verifier::external_body]
fn hex_encode(bytes: &Vec<u8>) -> (r: String)
    ensures
        r@ == spec_lower_hex(bytes@),
{
    hex::encode(bytes)
}

/// Every lower-case hex rendering has twice the bytes' length and only
/// lower-case hex digits in it.
pub proof fn lemma_lower_hex_format(bytes: Seq<u8>)
    ensures
        spec_lower_hex(bytes).len() == 2 * bytes.len(),
        forall|i: int|
            0 <= i < spec_lower_hex(bytes).len() ==> is_lower_hex_char(
                #[trigger] spec_lower_hex(bytes)[i],
            ),
{
    assert forall|i: int|
        0 <= i < spec_lower_hex(bytes).len() implies is_lower_hex_char(
        spec_lower_hex(bytes)[i],
    ) by {
        let b = bytes[i / 2] as int;
        assert(0 <= b < 256);
        assert(0 <= b / 16 < 16);
        assert(0 <= b % 16 < 16);
    }
}

/// The canonical parameter string for the chosen encoding.
pub open spec fn spec_canonical(
    kind: SignRequestParamsKind,
    pairs: Seq<(Seq<char>, Seq<char>)>,
) -> Seq<char> {
    match kind {
        SignRequestParamsKind::Query => query_encoding_of(pairs),
        SignRequestParamsKind::Body => json_object_encoding_of(pairs),
    }
}

/// API key, then the timestamp in base-10 milliseconds, then the canonical
/// parameters; no separators.
pub open spec fn spec_string_to_sign(
    api_key: Seq<char>,
    timestamp_millis: u64,
    canonical: Seq<char>,
) -> Seq<char> {
    api_key + spec_u64_dec(timestamp_millis as nat) + canonical
}

/// The signature for the given inputs: a pure function of them.
pub open spec fn spec_signature(
    secret_key: Seq<char>,
    api_key: Seq<char>,
    timestamp_millis: u64,
    kind: SignRequestParamsKind,
    pairs: Seq<(Seq<char>, Seq<char>)>,
) -> Seq<char> {
    spec_lower_hex(
        hmac_sha256_of(
            secret_key,
            spec_string_to_sign(api_key, timestamp_millis, spec_canonical(kind, pairs)),
        ),
    )
}

/// Signs one request: the signature is exactly the lower-case hex
/// HMAC-SHA256 digest of the string-to-sign, 64 characters long. With
/// parameters held as string pairs neither canonicalization can fail and
/// the MAC primitive takes any key, so signing always succeeds; the error
/// type names the primitives' error surfaces all the same.
pub fn sign_request(params: &SignRequestParams) -> (r: Result<
    SignRequestOutput,
    SignRequestError,
>)
    ensures
        r is Ok,
        r matches Ok(o) ==> {
            &&& o.signature@ == spec_signature(
                params.secret_key@,
                params.api_key@,
                params.timestamp_millis,
                params.params_kind,
                pairs_view(params.params@),
            )
            &&& o.signature@.len() == 64
            &&& forall|i: int|
                0 <= i < o.signature@.len() ==> is_lower_hex_char(#[trigger] o.signature@[i])
        },
{
    let data_string = match params.params_kind {
        SignRequestParamsKind::Query => match urlencode_pairs(&params.params) {
            Ok(s) => s,
            Err(e) => { return Err(e); },
        },
        SignRequestParamsKind::Body => match json_encode_pairs(&params.params) {
            Ok(s) => s,
            Err(e) => { return Err(e); },
        },
    };
    let mut string_to_sign = params.api_key.clone();
    let millis = crate::numfmt::u64_to_dec_string(params.timestamp_millis);
    string_to_sign.append(millis.as_str());
    string_to_sign.append(data_string.as_str());
    let mac_bytes = match hmac_sha256(params.secret_key.as_str(), string_to_sign.as_str()) {
        Ok(b) => b,
        Err(e) => { return Err(e); },
    };
    let signature = hex_encode(&mac_bytes);
    proof {
        lemma_lower_hex_format(mac_bytes@);
    }
    Ok(SignRequestOutput { signature })
}

/// Signing is deterministic: two signatures that both meet the signing
/// contract for the same inputs are equal, character for character.
pub proof fn lemma_sign_deterministic(
    o1: SignRequestOutput,
    o2: SignRequestOutput,
    secret_key: Seq<char>,
    api_key: Seq<char>,
    timestamp_millis: u64,
    kind: SignRequestParamsKind,
    pairs: Seq<(Seq<char>, Seq<char>)>,
)
    requires
        o1.signature@ == spec_signature(secret_key, api_key, timestamp_millis, kind, pairs),
        o2.signature@ == spec_signature(secret_key, api_key, timestamp_millis, kind, pairs),
    ensures
        o1.signature@ == o2.signature@,
{
}

} // verus!
