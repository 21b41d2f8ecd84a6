//! Checks on what the exchange and the signer return: a signature against
//! the one that the signer gives for the same key, nonce and path, and the
//! server's time against the local clock.

use vstd::prelude::*;
use vstd::string::*;
use vstd::utf8::*;
use crate::crypto::{concat_bytes, hmac_sha512, sha256, sha256_digest};
use crate::encoding::base64_decode;
use crate::payload::Entry;
use crate::signing::{secret_key, signature, signature_from_tag, tag_text, SignError};
use crate::system_server::ServerTime;
use crate::text::appended;

verus! {

/// The server's time as a response gave it, with the local time in seconds
/// since the Unix epoch at which the response was received.
#[derive(Debug)]
pub struct ServerTimeResponse {
    pub server_time: ServerTime,
    pub current_ts: i64,
}

/// The minute that a time in seconds falls into, counted from the epoch and
/// rounded towards it.
pub open spec fn minute_of(seconds: int) -> int {
    if seconds >= 0 {
        seconds / 60
    } else {
        -((-seconds) / 60)
    }
}

impl ServerTimeResponse {
    /// Whether the server's time and the local time fall into the same minute.
    pub fn same_minute(&self) -> (same: bool)
        ensures
            same == (minute_of(self.server_time.unixtime as int) == minute_of(
                self.current_ts as int,
            )),
    {
        self.server_time.unixtime / 60 == self.current_ts / 60
    }
}

/// The inputs of one signature check: the key in base64, the nonce, and the
/// path as it is signed.
#[derive(Debug)]
pub struct Validate2FA {
    pub private_key: String,
    pub nonce: String,
    pub endpoint: String,
}

impl Validate2FA {
    /// The bytes that the check computes its tag over: the path as given,
    /// then the SHA-256 digest of the nonce and `nonce=<nonce>`.
    pub open spec fn message(&self) -> Seq<u8> {
        encode_utf8(self.endpoint@) + sha256_digest(
            encode_utf8(self.nonce@ + ("nonce="@ + self.nonce@)),
        )
    }

    /// The signature that the check expects, or the reason why there is none.
    pub open spec fn expected(&self) -> Result<Seq<char>, SignError> {
        match secret_key(self.private_key@) {
            Some(key) => Ok(tag_text(key, self.message())),
            None => Err(SignError::InvalidSecret),
        }
    }

    /// Computes the signature over nonce and path and says whether
    /// `sign_to_match` is that signature.
    pub fn sign(&self, sign_to_match: String) -> (res: Result<bool, SignError>)
        ensures
            res == match self.expected() {
                Ok(text) => Ok::<bool, SignError>(text == sign_to_match@),
                Err(e) => Err::<bool, SignError>(e),
            },
    {
        let payload = appended("nonce=", self.nonce.as_str());
        let hashed = appended(self.nonce.as_str(), payload.as_str());
        let digest = sha256(hashed.as_str().as_bytes());

        let key_text = self.private_key.as_str().as_bytes();
        if key_text.len() > usize::MAX - 7 {
            return Err(SignError::InvalidSecret);
        }
        let key = match base64_decode(key_text) {
            Ok(key) => key,
            Err(_) => {
                return Err(SignError::InvalidSecret);
            },
        };
        let message = concat_bytes(self.endpoint.as_str().as_bytes(), digest.as_slice());
        match signature_from_tag(hmac_sha512(key.as_slice(), message.as_slice())) {
            Ok(signed) => Ok(signed == sign_to_match),
            Err(e) => Err(e),
        }
    }
}

/// The check expects what the signer gives: for a path with its version
/// segment, the expected signature is that of a request to the path, under
/// the same key and nonce, without further parameters.
pub proof fn lemma_check_expects_the_signature(check: Validate2FA, path: Seq<char>)
    requires
        check.endpoint@ == "/0"@ + path,
    ensures
        check.expected() == signature(
            check.private_key@,
            path,
            check.nonce@,
            Seq::<Entry>::empty(),
        ),
{
    let nonce = check.nonce@;
    assert(nonce + ("nonce="@ + nonce) =~= nonce + ("nonce="@ + nonce + Seq::<char>::empty()));
}

} // verus!
