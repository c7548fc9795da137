//! The decisions of a call of a HelixQL QUERY endpoint.
//!
//! A call POSTs the parameters as JSON to `<base_url>/query/<name>`, then
//! either decodes a 2xx response as JSON, or reads the body of any other
//! response and reports the status with it. The sending, reading and decoding
//! are the caller's work: it hands each outcome to [`QueryStage::next`] as a
//! [`QueryEvent`] and performs the [`QueryAction`] it gets back, until that
//! action is [`QueryAction::Finish`].

use vstd::prelude::*;

use crate::error::HelixError;

verus! {

/// Whether an HTTP status code is a success: `200..300`.
pub open spec fn spec_is_success(status: u16) -> bool {
    200 <= status < 300
}

/// Whether an HTTP status code is a success: `200..300`.
pub fn is_success_status(status: u16) -> (r: bool)
    ensures
        r == spec_is_success(status),
{
    200 <= status && status < 300
}

/// Where a call of a QUERY endpoint stands.
#[derive(Debug, Clone, Copy, PartialEq, Eq, Structural)]
pub enum QueryStage {
    /// The request was sent; its response (or failure) is awaited.
    AwaitingResponse,
    /// The instance answered with a non-2xx `status`; its body is awaited.
    AwaitingErrorBody { status: u16 },
    /// The instance answered with a 2xx status; the decoded body is awaited.
    AwaitingDecode,
    /// The call has finished.
    Finished,
}

/// What the caller learnt from the work it was asked to do.
#[derive(Debug)]
pub enum QueryEvent<R> {
    /// The status code of the response, or the transport failure.
    Responded(Result<u16, reqwest::Error>),
    /// The text of the response body, or the failure to read it.
    ErrorBodyRead(Result<String, reqwest::Error>),
    /// The response body decoded as JSON, or the failure to decode it.
    Decoded(Result<R, reqwest::Error>),
}

/// What the caller is to do next.
#[derive(Debug)]
pub enum QueryAction<R> {
    /// Read the response body as text and hand it back as
    /// [`QueryEvent::ErrorBodyRead`].
    ReadErrorBody,
    /// Decode the response body as JSON and hand it back as
    /// [`QueryEvent::Decoded`].
    DecodeBody,
    /// The call is over, with this result.
    Finish(Result<R, HelixError>),
}

/// Whether `event` is the outcome of the work that `stage` awaits.
pub open spec fn accepts<R>(stage: QueryStage, event: QueryEvent<R>) -> bool {
    match stage {
        QueryStage::AwaitingResponse => event is Responded,
        QueryStage::AwaitingErrorBody { .. } => event is ErrorBodyRead,
        QueryStage::AwaitingDecode => event is Decoded,
        QueryStage::Finished => false,
    }
}

/// The step from `stage` on `event` to `next` with `action`.
pub open spec fn step<R>(
    stage: QueryStage,
    event: QueryEvent<R>,
    next: QueryStage,
    action: QueryAction<R>,
) -> bool {
    match event {
        QueryEvent::Responded(Err(e)) => next == QueryStage::Finished && action == QueryAction::<
            R,
        >::Finish(Err(HelixError::Http(e))),
        QueryEvent::Responded(Ok(status)) => if spec_is_success(status) {
            next == QueryStage::AwaitingDecode && action is DecodeBody
        } else {
            next == (QueryStage::AwaitingErrorBody { status }) && action is ReadErrorBody
        },
        QueryEvent::ErrorBodyRead(body) => {
            &&& next == QueryStage::Finished
            &&& stage matches QueryStage::AwaitingErrorBody { status }
            &&& action matches QueryAction::Finish(Err(HelixError::Status { status: s, body: b }))
            &&& s == status
            &&& b@ == match body {
                Ok(text) => text@,
                Err(_) => Seq::<char>::empty(),
            }
        },
        QueryEvent::Decoded(Ok(v)) => next == QueryStage::Finished && action
            == QueryAction::Finish(Ok::<R, HelixError>(v)),
        QueryEvent::Decoded(Err(e)) => next == QueryStage::Finished && action
            == QueryAction::<R>::Finish(Err(HelixError::Http(e))),
    }
}

impl QueryStage {
    /// The stage of a call whose request was just sent.
    pub fn start() -> (s: QueryStage)
        ensures
            s == QueryStage::AwaitingResponse,
    {
        QueryStage::AwaitingResponse
    }

    /// Whether `event` is the outcome of the work that this stage awaits.
    pub fn awaits<R>(&self, event: &QueryEvent<R>) -> (r: bool)
        ensures
            r == accepts(*self, *event),
    {
        match self {
            QueryStage::AwaitingResponse => matches!(event, QueryEvent::Responded(_)),
            QueryStage::AwaitingErrorBody { .. } => matches!(event, QueryEvent::ErrorBodyRead(_)),
            QueryStage::AwaitingDecode => matches!(event, QueryEvent::Decoded(_)),
            QueryStage::Finished => false,
        }
    }

    /// The step on `event`: the next stage, and what the caller is to do.
    ///
    /// A transport failure finishes the call with [`HelixError::Http`]; a 2xx
    /// status asks for the body to be decoded, and the decoded value (or the
    /// decode failure, as [`HelixError::Http`]) finishes the call; any other
    /// status asks for the body text, and finishes the call with
    /// [`HelixError::Status`] carrying the status and that text (empty when it
    /// could not be read).
    pub fn next<R>(self, event: QueryEvent<R>) -> (r: (QueryStage, QueryAction<R>))
        requires
            accepts(self, event),
        ensures
            step(self, event, r.0, r.1),
    {
        match event {
            QueryEvent::Responded(Err(e)) => (
                QueryStage::Finished,
                QueryAction::Finish(Err(HelixError::Http(e))),
            ),
            QueryEvent::Responded(Ok(status)) => {
                if is_success_status(status) {
                    (QueryStage::AwaitingDecode, QueryAction::DecodeBody)
                } else {
                    (QueryStage::AwaitingErrorBody { status }, QueryAction::ReadErrorBody)
                }
            },
            QueryEvent::ErrorBodyRead(body) => {
                let status = match self {
                    QueryStage::AwaitingErrorBody { status } => status,
                    _ => 0,
                };
                let text = match body {
                    Ok(text) => text,
                    Err(_) => String::new(),
                };
                (
                    QueryStage::Finished,
                    QueryAction::Finish(Err(HelixError::Status { status, body: text })),
                )
            },
            QueryEvent::Decoded(Ok(v)) => (QueryStage::Finished, QueryAction::Finish(Ok(v))),
            QueryEvent::Decoded(Err(e)) => (
                QueryStage::Finished,
                QueryAction::Finish(Err(HelixError::Http(e))),
            ),
        }
    }
}

/// `action` finishes the call with a [`HelixError::Status`] error for `code`.
pub open spec fn finishes_with_status<R>(action: QueryAction<R>, code: u16) -> bool {
    action matches QueryAction::Finish(Err(HelixError::Status { status, .. })) && status == code
}

/// A call finishes after at most two events. A transport failure finishes it
/// at once with [`HelixError::Http`]; after any response the next event
/// finishes it: for a 2xx status with the decoded value or, when decoding
/// failed, with [`HelixError::Http`]; for any other status with
/// [`HelixError::Status`] carrying that status.
pub proof fn law_query_outcome<R>(
    e1: QueryEvent<R>,
    s1: QueryStage,
    a1: QueryAction<R>,
    e2: QueryEvent<R>,
    s2: QueryStage,
    a2: QueryAction<R>,
)
    requires
        accepts(QueryStage::AwaitingResponse, e1),
        step(QueryStage::AwaitingResponse, e1, s1, a1),
        !(a1 is Finish) ==> accepts(s1, e2) && step(s1, e2, s2, a2),
    ensures
        e1 matches QueryEvent::Responded(Err(e)) ==> s1 == QueryStage::Finished && a1
            == QueryAction::<R>::Finish(Err(HelixError::Http(e))),
        e1 matches QueryEvent::Responded(Ok(_)) ==> !(a1 is Finish) && s2 == QueryStage::Finished
            && a2 is Finish,
        e1 matches QueryEvent::Responded(Ok(status)) && spec_is_success(status) ==> {
            &&& e2 is Decoded
            &&& e2 matches QueryEvent::Decoded(Ok(v)) ==> a2 == QueryAction::Finish(
                Ok::<R, HelixError>(v),
            )
            &&& e2 matches QueryEvent::Decoded(Err(e)) ==> a2 == QueryAction::<R>::Finish(
                Err(HelixError::Http(e)),
            )
        },
        e1 matches QueryEvent::Responded(Ok(code)) ==> (!spec_is_success(code) ==> e2 is ErrorBodyRead
            && finishes_with_status(a2, code)),
{
}

/// Exactly the statuses `200..300` are decoded: every other status, whatever
/// its class, is read as an error body and reported with its code.
pub proof fn law_only_2xx_is_decoded<R>(status: u16, next: QueryStage, action: QueryAction<R>)
    requires
        step(QueryStage::AwaitingResponse, QueryEvent::<R>::Responded(Ok(status)), next, action),
    ensures
        200 <= status && status < 300 ==> next == QueryStage::AwaitingDecode && action is DecodeBody,
        !(200 <= status && status < 300) ==> next == (QueryStage::AwaitingErrorBody { status })
            && action is ReadErrorBody,
{
}

/// The event of the work that `action` asks the caller to do.
pub open spec fn answers<R>(action: QueryAction<R>, event: QueryEvent<R>) -> bool {
    match action {
        QueryAction::ReadErrorBody => event is ErrorBodyRead,
        QueryAction::DecodeBody => event is Decoded,
        QueryAction::Finish(_) => false,
    }
}

/// The stage a step leads to accepts whatever comes of the work its action asks
/// for: every read body (or failure to read it) after `ReadErrorBody`, every
/// decoded value (or decode failure) after `DecodeBody`.
pub proof fn law_asked_work_is_accepted<R>(
    stage: QueryStage,
    event: QueryEvent<R>,
    next: QueryStage,
    action: QueryAction<R>,
    outcome: QueryEvent<R>,
)
    requires
        accepts(stage, event),
        step(stage, event, next, action),
        answers(action, outcome),
    ensures
        accepts(next, outcome),
{
}

/// Each stage that awaits work accepts every outcome of that work: any
/// response or transport failure while awaiting the response, any body text or
/// read failure while awaiting the error body, any decoded value or decode
/// failure while awaiting the decode.
pub proof fn law_awaited_outcomes_are_accepted<R>(
    response: Result<u16, reqwest::Error>,
    status: u16,
    body: Result<String, reqwest::Error>,
    decoded: Result<R, reqwest::Error>,
)
    ensures
        accepts(QueryStage::AwaitingResponse, QueryEvent::<R>::Responded(response)),
        accepts(QueryStage::AwaitingErrorBody { status }, QueryEvent::<R>::ErrorBodyRead(body)),
        accepts(QueryStage::AwaitingDecode, QueryEvent::<R>::Decoded(decoded)),
{
}

} // verus!
