//! The signer: canonical form of the parameters and the signature over it.
//!
//! A signature is the base64 form of
//! `HMAC-SHA512(key, "/0" + path ++ SHA-256(nonce + canonical))`, where the
//! key is the base64-decoded secret and `canonical` is `nonce=<nonce>`
//! followed by the other parameters in their order, values percent-encoded.

use vstd::prelude::*;
use vstd::string::*;
use vstd::utf8::*;
use hmac::crypto_mac::InvalidKeyLength;
use crate::crypto::{concat_bytes, hmac_sha512, hmac_sha512_tag, sha256, sha256_digest};
use crate::encoding::{
    base64_decode,
    base64_decoded,
    base64_encode,
    base64_encoded,
    decodable_len,
    percent_encode_text,
    percent_encoded,
};
use crate::payload::{distinct_keys, lemma_rebuilt_keeps_order, rebuilt, Entry, Payload};

verus! {

/// Why a signature could not be computed.
#[derive(Debug, Clone, Copy, PartialEq, Eq, Structural)]
pub enum SignError {
    /// The secret is not base64, or is longer than the decoder can take.
    InvalidSecret,
    /// The decoded secret was refused as a MAC key.
    InvalidKey,
}

/// The key of the nonce parameter.
pub open spec fn nonce_key() -> Seq<char> {
    "nonce"@
}

/// The version segment that precedes every signed path.
pub open spec fn api_prefix() -> Seq<char> {
    "/0"@
}

/// One parameter in canonical form: `&key=value`, the value percent-encoded.
pub open spec fn segment(entry: Entry) -> Seq<char> {
    "&"@ + entry.0 + "="@ + percent_encoded(entry.1)
}

/// The canonical form of all parameters but the nonce, in their order.
pub open spec fn canonical_tail(entries: Seq<Entry>) -> Seq<char>
    decreases entries.len(),
{
    if entries.len() == 0 {
        Seq::empty()
    } else if entries.last().0 == nonce_key() {
        canonical_tail(entries.drop_last())
    } else {
        canonical_tail(entries.drop_last()) + segment(entries.last())
    }
}

/// The canonical signing string: `nonce=<nonce>`, then the other parameters.
pub open spec fn canonical_query(nonce: Seq<char>, entries: Seq<Entry>) -> Seq<char> {
    "nonce="@ + nonce + canonical_tail(entries)
}

/// The bytes that the tag is computed over: the versioned path, then the
/// SHA-256 digest of nonce and canonical string.
pub open spec fn signing_message(path: Seq<char>, nonce: Seq<char>, entries: Seq<Entry>) -> Seq<
    u8,
> {
    encode_utf8(api_prefix() + path) + sha256_digest(
        encode_utf8(nonce + canonical_query(nonce, entries)),
    )
}

/// The MAC key that a secret stands for, where it is base64 that the decoder
/// can take.
pub open spec fn secret_key(secret: Seq<char>) -> Option<Seq<u8>> {
    let text = encode_utf8(secret);
    if decodable_len(text.len()) {
        base64_decoded(text)
    } else {
        None
    }
}

/// The signature that a key gives over a message.
pub open spec fn tag_text(key: Seq<u8>, message: Seq<u8>) -> Seq<char> {
    base64_encoded(hmac_sha512_tag(key, message))
}

/// The signature of a request, or the reason why there is none.
pub open spec fn signature(
    secret: Seq<char>,
    path: Seq<char>,
    nonce: Seq<char>,
    entries: Seq<Entry>,
) -> Result<Seq<char>, SignError> {
    match secret_key(secret) {
        Some(key) => Ok(tag_text(key, signing_message(path, nonce, entries))),
        None => Err(SignError::InvalidSecret),
    }
}

/// What a computed signature denotes.
pub open spec fn signed_view(res: Result<String, SignError>) -> Result<Seq<char>, SignError> {
    match res {
        Ok(text) => Ok(text@),
        Err(e) => Err(e),
    }
}

/// The canonical signing string begins with `nonce=<nonce>`.
pub proof fn lemma_canonical_starts_with_nonce(nonce: Seq<char>, entries: Seq<Entry>)
    ensures
        ("nonce="@ + nonce).is_prefix_of(canonical_query(nonce, entries)),
{
    let head = "nonce="@ + nonce;
    let all = canonical_query(nonce, entries);
    assert(all.subrange(0, head.len() as int) =~= head);
}

/// A parameter that is added last comes last in the canonical string: the
/// order of the parameters is the order of their segments.
pub proof fn lemma_canonical_follows_insertion(
    nonce: Seq<char>,
    entries: Seq<Entry>,
    entry: Entry,
)
    requires
        entry.0 != nonce_key(),
    ensures
        canonical_query(nonce, entries.push(entry)) == canonical_query(nonce, entries) + segment(
            entry,
        ),
{
    let longer = entries.push(entry);
    assert(longer.drop_last() =~= entries);
    assert(canonical_query(nonce, longer) =~= canonical_query(nonce, entries) + segment(entry));
}

/// The signature is a function of secret, path, nonce and the parameters in
/// their order: two computations on the same inputs agree.
pub proof fn lemma_signature_is_deterministic(
    secret: Seq<char>,
    path: Seq<char>,
    nonce: Seq<char>,
    entries: Seq<Entry>,
    first: Result<String, SignError>,
    second: Result<String, SignError>,
)
    requires
        signed_view(first) == signature(secret, path, nonce, entries),
        signed_view(second) == signature(secret, path, nonce, entries),
    ensures
        signed_view(first) == signed_view(second),
        first is Ok ==> second is Ok && first->Ok_0@ == second->Ok_0@,
{
}

/// The signature written out, for a secret that decodes to `key`: the
/// base64 form of the HMAC-SHA512 tag, under `key`, of the versioned path
/// followed by the SHA-256 digest of the nonce and the canonical string.
pub proof fn lemma_signature_of_decoded_secret(
    secret: Seq<char>,
    path: Seq<char>,
    nonce: Seq<char>,
    entries: Seq<Entry>,
    key: Seq<u8>,
)
    requires
        decodable_len(encode_utf8(secret).len()),
        base64_decoded(encode_utf8(secret)) == Some(key),
    ensures
        signature(secret, path, nonce, entries) == Ok::<Seq<char>, SignError>(
            base64_encoded(
                hmac_sha512_tag(
                    key,
                    encode_utf8("/0"@ + path) + sha256_digest(
                        encode_utf8(nonce + ("nonce="@ + nonce + canonical_tail(entries))),
                    ),
                ),
            ),
        ),
{
}

/// Without parameters, or with the nonce as the only one, the canonical
/// string is `nonce=<nonce>` and nothing more: no `&` follows.
pub proof fn lemma_canonical_of_nonce_only(nonce: Seq<char>, entries: Seq<Entry>)
    requires
        forall|i: int| 0 <= i < entries.len() ==> (#[trigger] entries[i]).0 == nonce_key(),
    ensures
        canonical_tail(entries) == Seq::<char>::empty(),
        canonical_query(nonce, entries) == "nonce="@ + nonce,
    decreases entries.len(),
{
    if entries.len() > 0 {
        let front = entries.drop_last();
        assert forall|i: int| 0 <= i < front.len() implies (#[trigger] front[i]).0
            == nonce_key() by {
            assert(front[i] == entries[i]);
        }
        lemma_canonical_of_nonce_only(nonce, front);
        assert(entries[entries.len() - 1].0 == nonce_key());
    }
    assert("nonce="@ + nonce + Seq::<char>::empty() =~= "nonce="@ + nonce);
}

/// Signing parameters and signing them again after they were set anew, one
/// by one in their order, gives the same signature.
pub proof fn lemma_signature_survives_rebuild(
    secret: Seq<char>,
    path: Seq<char>,
    nonce: Seq<char>,
    entries: Seq<Entry>,
)
    requires
        distinct_keys(entries),
    ensures
        canonical_query(nonce, rebuilt(entries)) == canonical_query(nonce, entries),
        signature(secret, path, nonce, rebuilt(entries)) == signature(secret, path, nonce, entries),
{
    lemma_rebuilt_keeps_order(entries);
}

/// Builds the canonical signing string of `payload` under `nonce`.
pub fn canonical_query_string(nonce: &str, payload: &Payload) -> (out: String)
    ensures
        out@ == canonical_query(nonce@, payload@),
{
    let nonce_name = String::from_str("nonce");
    let mut out = String::from_str("nonce=");
    out.append(nonce);
    let mut i: usize = 0;
    while i < payload.len()
        invariant
            i <= payload@.len(),
            nonce_name@ == nonce_key(),
            out@ == "nonce="@ + nonce@ + canonical_tail(payload@.take(i as int)),
        decreases payload@.len() - i,
    {
        let key = payload.key_at(i);
        proof {
            let upto = payload@.take(i + 1);
            assert(upto.drop_last() =~= payload@.take(i as int));
            assert(upto.last() == payload@[i as int]);
        }
        if *key != nonce_name {
            let encoded = percent_encode_text(payload.value_at(i).as_str());
            let ghost before = out@;
            out.append("&");
            out.append(key.as_str());
            out.append("=");
            out.append(encoded.as_str());
            assert(out@ =~= before + segment(payload@[i as int]));
        }
        i += 1;
    }
    assert(payload@.take(i as int) =~= payload@);
    out
}

/// Turns the outcome of the MAC computation into the signature text.
pub fn signature_from_tag(tag: Result<Vec<u8>, InvalidKeyLength>) -> (res: Result<
    String,
    SignError,
>)
    requires
        tag matches Ok(bytes) ==> bytes@.len() <= usize::MAX / 2,
    ensures
        match tag {
            Ok(bytes) => res matches Ok(text) && text@ == base64_encoded(bytes@),
            Err(_) => res == Err::<String, SignError>(SignError::InvalidKey),
        },
{
    match tag {
        Ok(bytes) => Ok(base64_encode(bytes.as_slice())),
        Err(_) => Err(SignError::InvalidKey),
    }
}

/// Signs a request: `secret` is the base64 form of the key, `path` the
/// endpoint path without the version segment, `nonce` the nonce as text and
/// `payload` the parameters in their order.
pub fn sign(secret: &str, path: &str, nonce: &str, payload: &Payload) -> (res: Result<
    String,
    SignError,
>)
    ensures
        signed_view(res) == signature(secret@, path@, nonce@, payload@),
{
    let mut signed_path = String::from_str("/0");
    signed_path.append(path);

    let mut hashed = String::from_str(nonce);
    let canonical = canonical_query_string(nonce, payload);
    hashed.append(canonical.as_str());
    let digest = sha256(hashed.as_str().as_bytes());

    let secret_text = secret.as_bytes();
    if secret_text.len() > usize::MAX - 7 {
        return Err(SignError::InvalidSecret);
    }
    let key = match base64_decode(secret_text) {
        Ok(key) => key,
        Err(_) => {
            return Err(SignError::InvalidSecret);
        },
    };
    let message = concat_bytes(signed_path.as_str().as_bytes(), digest.as_slice());
    signature_from_tag(hmac_sha512(key.as_slice(), message.as_slice()))
}

} // verus!
