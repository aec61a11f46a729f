//! The result shapes handed back to callers: resolved transactions with or
//! without a body, the error taxonomy, and helpers over whole batches of
//! results.

use vstd::prelude::*;

use crate::canframe::{CANRequest, CANResponse};

verus! {

/// The ways one request can fail. `FailedToSend` is immediate (the transport
/// rejected the transmission, or a second request for an already-pending
/// `(axis, command)` key was rejected); `NoResponse` is the timeout;
/// `ConvertedBadData` comes from the typed decoding layer; `UnknownAxis`
/// means the caller addressed an axis outside the managed group.
#[derive(Clone, Copy, Debug, PartialEq, Eq, Structural)]
pub enum ODriveError {
    FailedToSend,
    NoResponse,
    ConvertedBadData,
    UnknownAxis,
}

/// A failed transaction: the request that was attempted and why it failed.
#[derive(Clone, Copy, Debug, PartialEq, Eq)]
pub struct ErrorResponse {
    pub request: CANRequest,
    pub err: ODriveError,
}

/// A resolved transaction before typed decoding: a read command comes back
/// with a response frame, a write command with a bare acknowledgement.
#[derive(Clone, Copy, Debug, PartialEq, Eq)]
pub enum ResponseType {
    Body { request: CANRequest, response: CANResponse },
    Bodyless { req: CANRequest },
}

/// The dispatcher-level outcome of one request.
pub type ODriveResponse = Result<ResponseType, ErrorResponse>;

impl ResponseType {
    /// The request this resolution answers.
    pub open spec fn spec_request(self) -> CANRequest {
        match self {
            ResponseType::Body { request, response } => request,
            ResponseType::Bodyless { req } => req,
        }
    }

    /// The request and response of a resolved read. Only a resolution that
    /// carries a body may be asked for one: write requests do not return a
    /// response body.
    pub fn body(self) -> (r: (CANRequest, CANResponse))
        requires
            self is Body,
        ensures
            self == (ResponseType::Body { request: r.0, response: r.1 }),
    {
        match self {
            ResponseType::Body { request, response } => (request, response),
            ResponseType::Bodyless { req: _ } => vstd::pervasive::unreached(),
        }
    }

    pub fn request(self) -> (r: CANRequest)
        ensures
            r == self.spec_request(),
    {
        match self {
            ResponseType::Body { request, response: _ } => request,
            ResponseType::Bodyless { req } => req,
        }
    }
}

/// A decoded, successful transaction: which axis answered, the request that
/// was sent (for traceability), and the typed result.
#[derive(Clone, Copy, Debug, PartialEq, Eq)]
pub struct Success<T> {
    pub axis: crate::canframe::AxisID,
    pub sent_request: CANRequest,
    pub data: T,
}

/// Unwrapping a whole batch of per-axis results at once.
pub trait ResultAll<T, E>: View<V = Seq<Result<T, E>>> + Sized {
    /// Unwraps every result in the batch. Callers must know that every
    /// result is a success; the results are returned in their original
    /// order.
    fn unwrap_all(self) -> (r: Vec<T>)
        requires
            forall|i: int| 0 <= i < self@.len() ==> self@[i] is Ok,
        ensures
            r@.len() == self@.len(),
            forall|i: int| 0 <= i < r@.len() ==> self@[i] == Ok::<T, E>(r@[i]),
    ;

    /// Like `unwrap_all`; the message names the operation for readers of the
    /// calling code.
    fn expect_all(self, msg: String) -> (r: Vec<T>)
        requires
            forall|i: int| 0 <= i < self@.len() ==> self@[i] is Ok,
        ensures
            r@.len() == self@.len(),
            forall|i: int| 0 <= i < r@.len() ==> self@[i] == Ok::<T, E>(r@[i]),
    ;
}

impl<T, E> ResultAll<T, E> for Vec<Result<T, E>> {
    fn unwrap_all(self) -> (r: Vec<T>) {
        let ghost orig = self@;
        let mut rest = self;
        let mut out: Vec<T> = Vec::new();
        while rest.len() > 0
            invariant
                out@.len() + rest@.len() == orig.len(),
                rest@ == orig.skip(out@.len() as int),
                forall|i: int| 0 <= i < orig.len() ==> orig[i] is Ok,
                forall|i: int| 0 <= i < out@.len() ==> orig[i] == Ok::<T, E>(out@[i]),
            decreases rest@.len(),
        {
            let x = rest.remove(0);
            assert(x == orig[out@.len() as int]);
            match x {
                Ok(v) => out.push(v),
                Err(_) => vstd::pervasive::unreached(),
            }
            assert(rest@ =~= orig.skip(out@.len() as int));
        }
        out
    }

    fn expect_all(self, msg: String) -> (r: Vec<T>) {
        let _ = msg;
        self.unwrap_all()
    }
}

} // verus!
