//! The dispatcher: what is done with a request, and in what shape the result
//! of any branch leaves it.
//!
//! The web and the RPC service answer in their own ways and fail in their
//! own ways. The dispatcher forwards a request to one of them, or answers it
//! itself, and brings whatever comes back into one shape, so that one
//! transport can serve all three branches.

use vstd::prelude::*;
use crate::classifier::{branch_for, classify, marks_plaintext, Branch};
use crate::http_model::header_lookup;
use crate::redirect::{redirect, redirect_for, target_of, RedirectError};

verus! {

/// Status of a redirect: moved permanently.
pub const MOVED_PERMANENTLY: u16 = 301;

/// Status of an answer to a request that cannot be redirected: bad request.
pub const BAD_REQUEST: u16 = 400;

/// Status of the answer that stands in for a service that broke down:
/// internal server error.
pub const INTERNAL_SERVER_ERROR: u16 = 500;

/// One of the two services that a request is forwarded to.
#[derive(Clone, Copy, Debug, PartialEq, Eq, Structural)]
pub enum Adapter {
    /// The web service.
    Web,
    /// The RPC service.
    Rpc,
}

/// A response that the dispatcher writes itself. It has no body.
#[derive(Debug, PartialEq, Eq)]
pub struct Reply {
    /// The status code.
    pub status: u16,
    /// The `Location` header, where the reply is a redirect.
    pub location: Option<Vec<u8>>,
}

/// A reply as plain values.
pub struct ReplyView {
    pub status: u16,
    pub location: Option<Seq<u8>>,
}

impl View for Reply {
    type V = ReplyView;

    open spec fn view(&self) -> ReplyView {
        ReplyView {
            status: self.status,
            location: match self.location {
                Some(bytes) => Some(bytes@),
                None => None,
            },
        }
    }
}

/// What is done with a request.
#[derive(Debug, PartialEq, Eq)]
pub enum Step {
    /// It is handed to this service, which then owns it.
    Forward(Adapter),
    /// It is answered at once with this reply; its body is not read.
    Respond(Reply),
}

/// A step as plain values.
pub enum StepView {
    Forward(Adapter),
    Respond(ReplyView),
}

impl View for Step {
    type V = StepView;

    open spec fn view(&self) -> StepView {
        match self {
            Step::Forward(adapter) => StepView::Forward(*adapter),
            Step::Respond(reply) => StepView::Respond(reply@),
        }
    }
}

/// The reply that a redirect, or the failure to build one, comes to: a
/// permanent redirect to the target, or a client error without a target.
pub open spec fn answer_of(redirect: Result<Seq<u8>, RedirectError>) -> ReplyView {
    match redirect {
        Ok(location) => ReplyView { status: MOVED_PERMANENTLY, location: Some(location) },
        Err(_) => ReplyView { status: BAD_REQUEST, location: None },
    }
}

/// What is done with a request of this branch, given the redirect that was
/// built for it; the redirect is not looked at for the other two branches.
pub open spec fn step_of(branch: Branch, redirect: Result<Seq<u8>, RedirectError>) -> StepView {
    match branch {
        Branch::Web => StepView::Forward(Adapter::Web),
        Branch::Rpc => StepView::Forward(Adapter::Rpc),
        Branch::Redirect => StepView::Respond(answer_of(redirect)),
    }
}

/// What is done with a request with these headers and this address.
pub open spec fn step_for(headers: http::HeaderMap<http::HeaderValue>, uri: http::Uri) -> StepView {
    step_of(branch_for(headers), redirect_for(headers, uri))
}

/// Turns a redirect, or the failure to build one, into the reply to send.
pub fn answer(redirect: Result<Vec<u8>, RedirectError>) -> (reply: Reply)
    ensures
        reply@ == answer_of(target_of(redirect)),
{
    match redirect {
        Ok(location) => Reply { status: MOVED_PERMANENTLY, location: Some(location) },
        Err(_) => Reply { status: BAD_REQUEST, location: None },
    }
}

/// Decides what is done with a request.
///
/// A request for the web or the RPC service is forwarded to it. A plaintext
/// request is answered at once: with a permanent redirect to its HTTPS
/// address or, where that address cannot be built, with a client error.
/// A plaintext request without a `Host` header is such a client error.
pub fn dispatch(headers: &http::HeaderMap<http::HeaderValue>, uri: &http::Uri) -> (step: Step)
    ensures
        step@ == step_for(*headers, *uri),
        marks_plaintext(header_lookup(*headers, "x-forwarded-proto"@)) && header_lookup(
            *headers,
            "host"@,
        ) is None ==> step@ == StepView::Respond(
            ReplyView { status: BAD_REQUEST, location: None },
        ),
{
    match classify(headers) {
        Branch::Web => Step::Forward(Adapter::Web),
        Branch::Rpc => Step::Forward(Adapter::Rpc),
        Branch::Redirect => Step::Respond(answer(redirect(headers, uri))),
    }
}

/// What became of a request inside the service it was forwarded to. `R` is
/// the service's response and `E` its error, whatever they are made of.
#[derive(Debug, PartialEq, Eq)]
pub enum Outcome<R, E> {
    /// The service produced a response.
    Completed(R),
    /// The service reported an error.
    Failed(E),
    /// The service broke down without reporting anything.
    Faulted,
}

/// The one shape in which the result of a forwarded request leaves the
/// dispatcher, whichever service it was forwarded to.
#[derive(Debug, PartialEq, Eq)]
pub enum Unified<R, E> {
    /// The service's response, to be passed on as it is.
    Passed(R),
    /// The request failed: the service's error goes to the transport as the
    /// error of this request, marked with the service it came from.
    Failed(Adapter, E),
    /// A reply that the dispatcher writes in place of the missing response.
    Written(Reply),
}

/// The unified result of one forwarded request. It is made of that
/// request's service and outcome and of nothing else.
pub open spec fn unified_of<R, E>(adapter: Adapter, outcome: Outcome<R, E>) -> Unified<R, E> {
    match outcome {
        Outcome::Completed(response) => Unified::Passed(response),
        Outcome::Failed(error) => Unified::Failed(adapter, error),
        Outcome::Faulted => Unified::Written(
            Reply { status: INTERNAL_SERVER_ERROR, location: None },
        ),
    }
}

/// Brings the outcome of a forwarded request into the one shape.
///
/// A response is passed on untouched. An error stays an error of this
/// request alone. A breakdown is caught here and becomes a plain server
/// error, so that the client still gets a well-formed answer.
pub fn unify<R, E>(adapter: Adapter, outcome: Outcome<R, E>) -> (unified: Unified<R, E>)
    ensures
        unified == unified_of(adapter, outcome),
{
    match outcome {
        Outcome::Completed(response) => Unified::Passed(response),
        Outcome::Failed(error) => Unified::Failed(adapter, error),
        Outcome::Faulted => Unified::Written(
            Reply { status: INTERNAL_SERVER_ERROR, location: None },
        ),
    }
}

} // verus!
