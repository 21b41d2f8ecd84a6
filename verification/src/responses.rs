//! Responses: their decoded shapes, and the classification of what came back
//! from the transport.
//!
//! A call yields its value only where the response has the status 200 and
//! its body decodes into the expected shape. Every other outcome is a status
//! code: that of the response or of the failure where there is one, else 400.
//! Errors that the exchange lists inside a well-formed body are part of the
//! value; they are the caller's to read.

use vstd::prelude::*;
use crate::orders::OpenOrders;
use crate::system_server::{ServerTime, SystemStatus};

verus! {

/// The status code of a response that carries its value.
pub const OK: u16 = 200;

/// The status code that stands for a failure without a status of its own.
pub const BAD_REQUEST: u16 = 400;

/// An HTTP status code.
#[derive(Debug, Clone, Copy, PartialEq, Eq, Structural)]
pub struct StatusCode {
    pub code: u16,
}

/// What the transport returned for a request.
#[derive(Debug, Clone, Copy, PartialEq, Eq, Structural)]
pub enum TransportOutcome {
    /// A response arrived, with this status.
    Response(StatusCode),
    /// No response could be had. The failure carries a status or none.
    Failure(Option<StatusCode>),
}

/// The result of a call, by endpoint.
#[derive(Debug)]
pub enum ResponseResult {
    OpenOrdersResponse(OpenOrders),
    ServerTimeResponse(ServerTime),
    SystemStatusResponse(SystemStatus),
}

/// The body of a response: the errors that the exchange lists, and the result.
#[derive(Debug)]
pub struct APIResponse {
    pub error: Vec<String>,
    pub result: ResponseResult,
}

/// Whether the body of a response is to be decoded: it is where a response
/// arrived with the status 200. Else the status code to hand back.
pub open spec fn transport_verdict(outcome: TransportOutcome) -> Result<(), StatusCode> {
    match outcome {
        TransportOutcome::Response(status) => if status.code == OK {
            Ok(())
        } else {
            Err(status)
        },
        TransportOutcome::Failure(Some(status)) => Err(status),
        TransportOutcome::Failure(None) => Err(StatusCode { code: BAD_REQUEST }),
    }
}

/// The result of a call: the decoded body where the transport's verdict is
/// good and the body decoded, else a status code.
pub open spec fn classified<T>(outcome: TransportOutcome, body: Option<T>) -> Result<
    T,
    StatusCode,
> {
    match transport_verdict(outcome) {
        Err(status) => Err(status),
        Ok(_) => match body {
            Some(value) => Ok(value),
            None => Err(StatusCode { code: BAD_REQUEST }),
        },
    }
}

/// Says whether the body of a response is to be decoded, or which status
/// code the call fails with.
pub fn check_transport(outcome: TransportOutcome) -> (res: Result<(), StatusCode>)
    ensures
        res == transport_verdict(outcome),
{
    match outcome {
        TransportOutcome::Response(status) => {
            if status.code == OK {
                Ok(())
            } else {
                Err(status)
            }
        },
        TransportOutcome::Failure(Some(status)) => Err(status),
        TransportOutcome::Failure(None) => Err(StatusCode { code: BAD_REQUEST }),
    }
}

/// Classifies the outcome of a call. `body` is the decoded body, `None`
/// where it did not decode into the expected shape.
pub fn classify_response<T>(outcome: TransportOutcome, body: Option<T>) -> (res: Result<
    T,
    StatusCode,
>)
    ensures
        res == classified(outcome, body),
        res is Ok <==> outcome == TransportOutcome::Response(StatusCode { code: OK })
            && body is Some,
        outcome matches TransportOutcome::Response(status) ==> (status.code != OK ==> res
            == Err::<T, StatusCode>(status)),
        outcome == TransportOutcome::Failure(None) ==> res == Err::<T, StatusCode>(
            StatusCode { code: BAD_REQUEST },
        ),
{
    match check_transport(outcome) {
        Err(status) => Err(status),
        Ok(_) => match body {
            Some(value) => Ok(value),
            None => Err(StatusCode { code: BAD_REQUEST }),
        },
    }
}

} // verus!
