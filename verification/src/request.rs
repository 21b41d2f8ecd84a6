//! What a prepared request consists of, and why preparing one can fail.

use vstd::prelude::*;
use crate::payload::{entries_view, Entry, Payload};
use crate::signing::SignError;

verus! {

/// The two HTTP methods that requests are sent with.
#[derive(Debug, Clone, Copy, PartialEq, Eq, Structural)]
pub enum Method {
    Get,
    Post,
}

/// Why a request was not prepared. Each is a fault of the configuration or
/// of the call, found before anything is sent.
#[derive(Debug, Clone, Copy, PartialEq, Eq, Structural)]
pub enum RequestError {
    /// The method is neither `GET` nor `POST`.
    InvalidMethod,
    /// Two-factor credentials are required and the passphrase is empty.
    MissingPassphrase,
    /// Two-factor credentials are required and their key or secret is empty.
    MissingTwoFactorCredentials,
    /// A nonce had to be generated and the clock reads a time before the epoch.
    ClockBeforeEpoch,
    /// The API key or the signature cannot stand in a header.
    InvalidHeaderValue,
    /// The signature could not be computed.
    Signature(SignError),
}

/// A request that is ready to be sent.
#[derive(Debug)]
pub struct SignedRequest {
    /// The method to send it with.
    pub method: Method,
    /// Base URL and path, with the query string where there is one.
    pub url: String,
    /// Header names and values, in the order in which they were set.
    pub headers: Vec<(String, String)>,
    /// The parameters of the form-encoded body, where there is a body.
    pub form: Option<Payload>,
}

/// A prepared request as plain values.
pub struct RequestView {
    pub method: Method,
    pub url: Seq<char>,
    pub headers: Seq<Entry>,
    pub form: Option<Seq<Entry>>,
}

impl View for SignedRequest {
    type V = RequestView;

    open spec fn view(&self) -> RequestView {
        RequestView {
            method: self.method,
            url: self.url@,
            headers: entries_view(self.headers@),
            form: match self.form {
                Some(payload) => Some(payload@),
                None => None,
            },
        }
    }
}

/// What the outcome of preparing a request denotes.
pub open spec fn outcome_view(res: Result<SignedRequest, RequestError>) -> Result<
    RequestView,
    RequestError,
> {
    match res {
        Ok(request) => Ok(request@),
        Err(e) => Err(e),
    }
}

/// What the outcome of assembling headers denotes.
pub open spec fn headers_view(res: Result<Vec<(String, String)>, RequestError>) -> Result<
    Seq<Entry>,
    RequestError,
> {
    match res {
        Ok(headers) => Ok(entries_view(headers@)),
        Err(e) => Err(e),
    }
}

} // verus!
