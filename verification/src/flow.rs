use vstd::prelude::*;
use crate::error::ProxyError;
use crate::event::{
    build_event, headers_are_text, is_event_document, is_event_of, InboundRequest,
    InvocationEvent, Timestamp,
};
use crate::json::JsonValue;
use crate::reply::{
    error_response, into_response, is_error_response, is_response_of_document, outcome_failure,
    resolve_outcome, BackendOutcome, OutgoingResponse,
};

verus! {

/// What is to be done with a request that has just been received.
#[derive(Debug)]
pub enum NextStep {
    /// Post `document`, the document of `event`, to the backend, once.
    CallBackend { event: InvocationEvent, document: JsonValue },
    /// Answer the caller at once; the backend is not contacted.
    Respond(OutgoingResponse),
}

/// How a request ended.
#[derive(Clone, Copy, Debug, PartialEq, Eq, Structural)]
pub enum Terminal {
    /// The response that the backend's reply describes was made.
    Sent,
    /// The request failed and was answered with an error response.
    ErrorResponseSent,
}

/// Takes a request in: the backend is to be called with the request's event,
/// unless a header value is not valid UTF-8; then the caller is answered with
/// the error response of `InvalidHeaderEncoding` and nothing is sent on.
pub fn begin(request: &InboundRequest, now: &Timestamp) -> (step: NextStep)
    requires
        request.body@.len() <= isize::MAX,
    ensures
        match step {
            NextStep::CallBackend { event, document } => {
                &&& headers_are_text(request.headers@)
                &&& is_event_of(event@, *request, *now)
                &&& is_event_document(document, event@)
            },
            NextStep::Respond(response) => {
                &&& !headers_are_text(request.headers@)
                &&& is_error_response(response, ProxyError::InvalidHeaderEncoding)
            },
        },
{
    match build_event(request, now) {
        Ok(event) => {
            let document = event.to_document();
            NextStep::CallBackend { event, document }
        },
        Err(e) => NextStep::Respond(error_response(e)),
    }
}

/// Ends a request once the backend call is over: with the response that the
/// reply describes, or with the error response of whatever failed. Either
/// way the response is complete, and the request is never tried again.
pub fn conclude(outcome: &BackendOutcome) -> (end: (Terminal, OutgoingResponse))
    ensures
        match outcome_failure(*outcome) {
            None => {
                &&& end.0 == Terminal::Sent
                &&& *outcome matches BackendOutcome::Answered { document: Some(d), .. }
                &&& is_response_of_document(end.1, d)
            },
            Some(error) => {
                &&& end.0 == Terminal::ErrorResponseSent
                &&& is_error_response(end.1, error)
            },
        },
{
    let made = resolve_outcome(outcome);
    let state = match &made {
        Ok(_) => Terminal::Sent,
        Err(_) => Terminal::ErrorResponseSent,
    };
    (state, into_response(made))
}

} // verus!
