//! The two exchanges with the ledger, each as a request to send and a reading
//! of what came back.
//!
//! Nothing here touches the network. [`submit_batches`] and
//! [`wait_for_batch`] say which request to make, or refuse before any is
//! made; the caller performs it, once, and hands the [`Reply`] to
//! [`submission_link`] or [`polled_status`]. Polling is the caller's loop: ask,
//! look at [`StatusResponse::is_finished`], ask again.

use crate::error::{SubmitError, SubmitErrorView};
use crate::json::{json_document, link_of, parse_link, parse_status_response, status_response_of};
use crate::status::{StatusResponse, StatusResponseView};
use crate::text::{contains_char, decimal, decimal_text};
use crate::url::{scheme_verdict, uri_scheme, validate_url};
use vstd::prelude::*;

verus! {

/// The request methods that the exchanges use.
#[derive(Debug, PartialEq, Eq, Clone, Copy)]
pub enum Method {
    Get,
    Post,
}

/// The content types that the exchanges use.
#[derive(Debug, PartialEq, Eq, Clone, Copy)]
pub enum MediaType {
    /// `application/octet-stream`
    OctetStream,
}

/// One request, to be made once.
#[derive(Debug, PartialEq)]
pub struct Request {
    pub method: Method,
    /// The target, already checked.
    pub url: String,
    /// The `Content-Type` header, if one is to be sent.
    pub content_type: Option<MediaType>,
    /// The `Content-Length` header, if one is to be sent.
    pub content_length: Option<u64>,
    pub body: Vec<u8>,
}

/// What came of a request.
#[derive(Debug, PartialEq)]
pub enum Reply {
    /// No answer arrived; `message` is the transport's word on why.
    Failed { message: String },
    /// The server answered with this status code and this body, whole.
    Answered { status: u16, body: Vec<u8> },
}

/// What a [`Request`] holds.
pub struct RequestView {
    pub method: Method,
    pub url: Seq<char>,
    pub content_type: Option<MediaType>,
    pub content_length: Option<nat>,
    pub body: Seq<u8>,
}

/// What a [`Reply`] holds.
pub enum ReplyView {
    Failed { message: Seq<char> },
    Answered { status: nat, body: Seq<u8> },
}

impl View for Request {
    type V = RequestView;

    open spec fn view(&self) -> RequestView {
        RequestView {
            method: self.method,
            url: self.url@,
            content_type: self.content_type,
            content_length: match self.content_length {
                Some(length) => Some(length as nat),
                None => None,
            },
            body: self.body@,
        }
    }
}

impl View for Reply {
    type V = ReplyView;

    open spec fn view(&self) -> ReplyView {
        match self {
            Reply::Failed { message } => ReplyView::Failed { message: message@ },
            Reply::Answered { status, body } => ReplyView::Answered {
                status: *status as nat,
                body: body@,
            },
        }
    }
}

/// The status code with which the server says that it could not settle a
/// query in time.
pub const SERVICE_UNAVAILABLE: u16 = 503;

/// What a plan holds.
pub open spec fn plan_view(plan: Result<Request, SubmitError>) -> Result<
    RequestView,
    SubmitErrorView,
> {
    match plan {
        Ok(request) => Ok(request@),
        Err(error) => Err(error@),
    }
}

/// Where batches are posted, given the endpoint's URL.
pub open spec fn batches_target(url: Seq<char>) -> Seq<char> {
    url + "/batches"@
}

/// What goes between a status link and the wait parameter: `&` after a query
/// that is already there, `?` to start one.
pub open spec fn wait_separator(url: Seq<char>) -> Seq<char> {
    if url.contains('?') {
        "&"@
    } else {
        "?"@
    }
}

/// Where a status is asked for, given the status link and the seconds that
/// the server may take to answer.
pub open spec fn status_target(url: Seq<char>, wait: nat) -> Seq<char> {
    url + wait_separator(url) + "wait="@ + decimal(wait)
}

/// The request that posts `payload` to `target`.
pub open spec fn post_of(target: Seq<char>, payload: Seq<u8>) -> RequestView {
    RequestView {
        method: Method::Post,
        url: target,
        content_type: Some(MediaType::OctetStream),
        content_length: Some(payload.len()),
        body: payload,
    }
}

/// The request that gets `target`.
pub open spec fn get_of(target: Seq<char>) -> RequestView {
    RequestView {
        method: Method::Get,
        url: target,
        content_type: None,
        content_length: None,
        body: Seq::empty(),
    }
}

/// What a checked target holds.
pub open spec fn target_view(target: Result<String, SubmitError>) -> Result<
    Seq<char>,
    SubmitErrorView,
> {
    match target {
        Ok(text) => Ok(text@),
        Err(error) => Err(error@),
    }
}

/// The target itself if it is accepted, else the refusal, which quotes `url`.
pub open spec fn checked_target(target: Seq<char>, url: Seq<char>) -> Result<
    Seq<char>,
    SubmitErrorView,
> {
    match scheme_verdict(uri_scheme(target), url) {
        Ok(()) => Ok(target),
        Err(error) => Err(error),
    }
}

/// What [`submit_batches`] answers: the post of the payload to the batches
/// target if that target is accepted, else the refusal.
pub open spec fn submission_plan(url: Seq<char>, payload: Seq<u8>) -> Result<
    RequestView,
    SubmitErrorView,
> {
    match checked_target(batches_target(url), url) {
        Ok(target) => Ok(post_of(target, payload)),
        Err(error) => Err(error),
    }
}

/// What [`wait_for_batch`] answers: the get of the status target if that
/// target is accepted, else the refusal.
pub open spec fn query_plan(url: Seq<char>, wait: nat) -> Result<RequestView, SubmitErrorView> {
    match checked_target(status_target(url, wait), url) {
        Ok(target) => Ok(get_of(target)),
        Err(error) => Err(error),
    }
}

/// What [`submission_link`] answers: the link that the body spells, whatever
/// the status code.
pub open spec fn link_reading(reply: ReplyView) -> Result<Seq<char>, SubmitErrorView> {
    match reply {
        ReplyView::Failed { message } => Err(SubmitErrorView::TransportFailure { message }),
        ReplyView::Answered { status, body } => match json_document(body) {
            Some(doc) => match link_of(doc) {
                Some(link) => Ok(link.link),
                None => Err(SubmitErrorView::ProtocolError),
            },
            None => Err(SubmitErrorView::ProtocolError),
        },
    }
}

/// What [`polled_status`] answers: the status response that the body spells,
/// unless the server reported itself unavailable.
pub open spec fn status_reading(reply: ReplyView) -> Result<StatusResponseView, SubmitErrorView> {
    match reply {
        ReplyView::Failed { message } => Err(SubmitErrorView::TransportFailure { message }),
        ReplyView::Answered { status, body } => if status == SERVICE_UNAVAILABLE {
            Err(SubmitErrorView::ServiceUnavailable)
        } else {
            match json_document(body) {
                Some(doc) => match status_response_of(doc) {
                    Some(response) => Ok(response),
                    None => Err(SubmitErrorView::ProtocolError),
                },
                None => Err(SubmitErrorView::ProtocolError),
            }
        },
    }
}

/// Makes and checks the target for batches at the endpoint `url`: `url`
/// followed by `/batches`.
pub fn batches_url(url: &str) -> (target: Result<String, SubmitError>)
    ensures
        target_view(target) == checked_target(batches_target(url@), url@),
{
    let mut target = String::from_str(url);
    target.append("/batches");
    match validate_url(target.as_str(), url) {
        Ok(()) => Ok(target),
        Err(error) => Err(error),
    }
}

/// Makes and checks the target for one status query: the status link `url`
/// with the parameter `wait=<seconds>` added to its query, or starting one.
pub fn status_url(url: &str, wait: u64) -> (target: Result<String, SubmitError>)
    ensures
        target_view(target) == checked_target(status_target(url@, wait as nat), url@),
{
    let mut target = String::from_str(url);
    if contains_char(url, '?') {
        target.append("&");
    } else {
        target.append("?");
    }
    target.append("wait=");
    target.append(decimal_text(wait).as_str());
    match validate_url(target.as_str(), url) {
        Ok(()) => Ok(target),
        Err(error) => Err(error),
    }
}

/// Plans the submission of `payload`, the serialized batches, to the endpoint
/// at `url`: one `POST` to `url` followed by `/batches`, declared as an octet
/// stream of the payload's length. The target is checked first, and a target
/// that is refused yields no request.
pub fn submit_batches(url: &str, payload: Vec<u8>) -> (plan: Result<Request, SubmitError>)
    ensures
        plan_view(plan) == submission_plan(url@, payload@),
{
    match batches_url(url) {
        Ok(target) => {
            let length = payload.len() as u64;
            Ok(
                Request {
                    method: Method::Post,
                    url: target,
                    content_type: Some(MediaType::OctetStream),
                    content_length: Some(length),
                    body: payload,
                },
            )
        },
        Err(error) => Err(error),
    }
}

/// Plans one status query: one `GET` of the status link `url` with the
/// parameter `wait=<seconds>` added to its query. The server may hold the
/// answer back for that long. The target is checked first, and a target that
/// is refused yields no request.
pub fn wait_for_batch(url: &str, wait: u64) -> (plan: Result<Request, SubmitError>)
    ensures
        plan_view(plan) == query_plan(url@, wait as nat),
{
    match status_url(url, wait) {
        Ok(target) => Ok(
            Request {
                method: Method::Get,
                url: target,
                content_type: None,
                content_length: None,
                body: Vec::new(),
            },
        ),
        Err(error) => Err(error),
    }
}

/// Reads the reply to a submission: the link under which its status can be
/// asked for.
pub fn submission_link(reply: Reply) -> (link: Result<String, SubmitError>)
    ensures
        match link {
            Ok(text) => link_reading(reply@) == Ok::<Seq<char>, SubmitErrorView>(text@),
            Err(error) => link_reading(reply@) == Err::<Seq<char>, SubmitErrorView>(error@),
        },
{
    match reply {
        Reply::Failed { message } => Err(SubmitError::TransportFailure { message }),
        Reply::Answered { status, body } => match parse_link(body.as_slice()) {
            Some(link) => Ok(link.link),
            None => Err(SubmitError::ProtocolError),
        },
    }
}

/// Reads the reply to a status query.
pub fn polled_status(reply: Reply) -> (response: Result<StatusResponse, SubmitError>)
    ensures
        match response {
            Ok(found) => status_reading(reply@) == Ok::<StatusResponseView, SubmitErrorView>(
                found@,
            ),
            Err(error) => status_reading(reply@) == Err::<StatusResponseView, SubmitErrorView>(
                error@,
            ),
        },
{
    match reply {
        Reply::Failed { message } => Err(SubmitError::TransportFailure { message }),
        Reply::Answered { status, body } => {
            if status == SERVICE_UNAVAILABLE {
                Err(SubmitError::ServiceUnavailable)
            } else {
                match parse_status_response(body.as_slice()) {
                    Some(response) => Ok(response),
                    None => Err(SubmitError::ProtocolError),
                }
            }
        },
    }
}

} // verus!
