//! The two hash primitives of the signature: SHA-256 for the pre-hash and
//! HMAC-SHA512 for the tag.
//!
//! Both are computed by the `sha2` and `hmac` crates. Their results are
//! named here; the library's contracts say which bytes are handed to them and
//! what is done with what they return.

use vstd::prelude::*;
use hmac::{Hmac, Mac, NewMac};
use hmac::crypto_mac::InvalidKeyLength;
use sha2::{Digest, Sha256, Sha512};

verus! {

/// The SHA-256 digest of `data`.
pub uninterp spec fn sha256_digest(data: Seq<u8>) -> Seq<u8>;

/// The HMAC-SHA512 tag of `message` under `key`.
pub uninterp spec fn hmac_sha512_tag(key: Seq<u8>, message: Seq<u8>) -> Seq<u8>;

/// Length in bytes of an HMAC-SHA512 tag.
pub const TAG_LEN: usize = 64;

#[verifier::external_type_specification]
#[verifier::external_body]
pub struct ExInvalidKeyLength(InvalidKeyLength);

/// `Sha256::digest`: the digest is a function of the bytes alone.
#[verifier::external_body]
pub(crate) fn sha256(data: &[u8]) -> (digest: Vec<u8>)
    ensures
        digest@ == sha256_digest(data@),
{
    Sha256::digest(data).to_vec()
}

/// `Hmac::<Sha512>::new_varkey`, `update` and `finalize`: HMAC takes a key of
/// any length, so the construction does not fail; the tag is a function of
/// key and message alone and has the 64 bytes of a SHA-512 output.
#[verifier::external_body]
pub(crate) fn hmac_sha512(key: &[u8], message: &[u8]) -> (res: Result<Vec<u8>, InvalidKeyLength>)
    ensures
        res is Ok,
        res matches Ok(tag) ==> tag@ == hmac_sha512_tag(key@, message@) && tag@.len() == TAG_LEN,
{
    let mut mac = Hmac::<Sha512>::new_varkey(key)?;
    mac.update(message);
    Ok(mac.finalize().into_bytes().to_vec())
}

/// The bytes of `first` followed by those of `second`.
pub fn concat_bytes(first: &[u8], second: &[u8]) -> (out: Vec<u8>)
    ensures
        out@ == first@ + second@,
{
    let mut out: Vec<u8> = Vec::new();
    let mut i: usize = 0;
    while i < first.len()
        invariant
            i <= first.len(),
            out@ == first@.take(i as int),
        decreases first.len() - i,
    {
        out.push(first[i]);
        assert(first@.take(i + 1) =~= first@.take(i as int).push(first@[i as int]));
        i += 1;
    }
    assert(first@.take(i as int) =~= first@);
    let mut j: usize = 0;
    while j < second.len()
        invariant
            j <= second.len(),
            out@ == first@ + second@.take(j as int),
        decreases second.len() - j,
    {
        out.push(second[j]);
        assert(first@ + second@.take(j + 1) =~= (first@ + second@.take(j as int)).push(
            second@[j as int],
        ));
        j += 1;
    }
    assert(second@.take(j as int) =~= second@);
    out
}

} // verus!
