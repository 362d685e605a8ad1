//! The response translator: from a submission's result and the time it took to
//! what goes on the wire.
//!
//! Translation is a pure mapping. A payload is answered with 200, an
//! acknowledgment of background work with 202, and a failure with the status
//! that belongs to its kind.

use vstd::prelude::*;
use crate::outcome::{
    outcome_result, ErrorKind, ExecutionResult, ExecutionResultView, ExecutorErrorView,
};

verus! {

/// Status of a response that carries a payload.
pub const STATUS_OK: u16 = 200;

/// Status of a response that acknowledges work still going on.
pub const STATUS_ACCEPTED: u16 = 202;

/// The status code that a failure of the given kind is answered with.
pub open spec fn status_of(kind: ErrorKind) -> u16 {
    match kind {
        ErrorKind::BadInput => 400,
        ErrorKind::NotFound => 404,
        ErrorKind::Timeout => 408,
        ErrorKind::Conflict => 409,
        ErrorKind::ExecutorFailure => 500,
        ErrorKind::IOFailure => 500,
    }
}

/// The status code that a failure of the given kind is answered with.
pub fn status_code(kind: ErrorKind) -> (code: u16)
    ensures
        code == status_of(kind),
{
    match kind {
        ErrorKind::BadInput => 400,
        ErrorKind::NotFound => 404,
        ErrorKind::Timeout => 408,
        ErrorKind::Conflict => 409,
        ErrorKind::ExecutorFailure => 500,
        ErrorKind::IOFailure => 500,
    }
}

/// What a response says besides its status and timing.
#[derive(Clone, Debug, PartialEq, Eq)]
pub enum ResponseBody<T> {
    /// The payload of a success.
    Result(T),
    /// Nothing yet: the work goes on in the background.
    Acknowledged,
    /// The message of a failure.
    Error(String),
}

/// Mathematical model of a [`ResponseBody`].
pub enum ResponseBodyView<T> {
    Result(T),
    Acknowledged,
    Error(Seq<char>),
}

impl<T> View for ResponseBody<T> {
    type V = ResponseBodyView<T>;

    open spec fn view(&self) -> ResponseBodyView<T> {
        match self {
            ResponseBody::Result(payload) => ResponseBodyView::Result(*payload),
            ResponseBody::Acknowledged => ResponseBodyView::Acknowledged,
            ResponseBody::Error(message) => ResponseBodyView::Error(message@),
        }
    }
}

/// A response as it goes on the wire.
#[derive(Clone, Debug, PartialEq, Eq)]
pub struct WireResponse<T> {
    /// The HTTP status code.
    pub status: u16,
    /// The payload, the acknowledgment or the error message.
    pub body: ResponseBody<T>,
    /// Milliseconds from the receipt of the request to this response.
    pub time: u64,
}

/// Mathematical model of a [`WireResponse`].
pub struct WireResponseView<T> {
    pub status: u16,
    pub body: ResponseBodyView<T>,
    pub time: u64,
}

impl<T> View for WireResponse<T> {
    type V = WireResponseView<T>;

    open spec fn view(&self) -> WireResponseView<T> {
        WireResponseView { status: self.status, body: self.body@, time: self.time }
    }
}

/// The wire response for a result that took `elapsed` milliseconds.
pub open spec fn translate<T>(result: ExecutionResultView<T>, elapsed: u64) -> WireResponseView<T> {
    match result {
        ExecutionResultView::Success(payload) => WireResponseView {
            status: STATUS_OK,
            body: ResponseBodyView::Result(payload),
            time: elapsed,
        },
        ExecutionResultView::Accepted => WireResponseView {
            status: STATUS_ACCEPTED,
            body: ResponseBodyView::Acknowledged,
            time: elapsed,
        },
        ExecutionResultView::Failure(kind, message) => WireResponseView {
            status: status_of(kind),
            body: ResponseBodyView::Error(message),
            time: elapsed,
        },
    }
}

/// Translates a result and the milliseconds elapsed since the request was
/// received into the response for the wire.
pub fn process_response<T>(result: ExecutionResult<T>, elapsed: u64) -> (response: WireResponse<T>)
    ensures
        response@ == translate(result@, elapsed),
{
    match result {
        ExecutionResult::Success(payload) => WireResponse {
            status: STATUS_OK,
            body: ResponseBody::Result(payload),
            time: elapsed,
        },
        ExecutionResult::Accepted => WireResponse {
            status: STATUS_ACCEPTED,
            body: ResponseBody::Acknowledged,
            time: elapsed,
        },
        ExecutionResult::Failure(kind, message) => WireResponse {
            status: status_code(kind),
            body: ResponseBody::Error(message),
            time: elapsed,
        },
    }
}

/// The status alone tells the three results apart, the body holds a payload
/// only for a success, and every response carries the elapsed time.
pub proof fn lemma_response_tells_results_apart<T>(result: ExecutionResultView<T>, elapsed: u64)
    ensures
        translate(result, elapsed).status == STATUS_OK <==> result is Success,
        translate(result, elapsed).status == STATUS_ACCEPTED <==> result is Accepted,
        translate(result, elapsed).status >= 400 <==> result is Failure,
        translate(result, elapsed).body is Result <==> result is Success,
        translate(result, elapsed).body is Error <==> result is Failure,
        translate(result, elapsed).time == elapsed,
{
}

/// An error of the executor keeps its message on the wire, and unknown names,
/// conflicts and other executor failures are answered with 404, 409 and 500.
pub proof fn lemma_executor_errors_on_the_wire<T>(
    error: ExecutorErrorView,
    elapsed: u64,
)
    ensures
        translate(outcome_result::<T>(Err(error)), elapsed).body
            == ResponseBodyView::<T>::Error(error.message()),
        error is NotFound ==> translate(
            outcome_result::<T>(Err(error)),
            elapsed,
        ).status == 404,
        error is Conflict ==> translate(
            outcome_result::<T>(Err(error)),
            elapsed,
        ).status == 409,
        error is Failure ==> translate(
            outcome_result::<T>(Err(error)),
            elapsed,
        ).status == 500,
{
}

} // verus!
