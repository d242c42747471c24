//! Reading and changing where calls are forwarded.
use vstd::prelude::*;

use crate::actions::{ActionError, ActionErrorView};
use crate::call_forward::{CallForwardState, CallForwardStateView};
use crate::modem::{ModemError, ModemErrorView};
use crate::normalize::{
    complaint, normalize_e164, normalized, result_view, NormalizeError, NormalizeErrorView,
};
use crate::rows::{opt_view, res_view};

verus! {

/// What the modem is asked to do.
#[derive(Debug)]
pub enum ForwardRequest {
    Query,
    Enable(String),
    Disable,
}

pub enum ForwardRequestView {
    Query,
    Enable(Seq<char>),
    Disable,
}

impl View for ForwardRequest {
    type V = ForwardRequestView;

    open spec fn view(&self) -> ForwardRequestView {
        match self {
            ForwardRequest::Query => ForwardRequestView::Query,
            ForwardRequest::Enable(e164) => ForwardRequestView::Enable(e164@),
            ForwardRequest::Disable => ForwardRequestView::Disable,
        }
    }
}

/// What a wish means: nothing switches forwarding off, a number forwards there.
pub open spec fn forward_for(number: Option<Result<Seq<char>, NormalizeErrorView>>) -> Result<
    ForwardRequestView,
    ActionErrorView,
> {
    match number {
        None => Ok(ForwardRequestView::Disable),
        Some(Ok(e164)) => Ok(ForwardRequestView::Enable(e164)),
        Some(Err(e)) => Err(ActionErrorView::InvalidNumber(complaint(e))),
    }
}

/// What a wish means, the number as it was written.
pub open spec fn forward_wish(region: Seq<char>, e164: Option<Seq<char>>) -> Result<
    ForwardRequestView,
    ActionErrorView,
> {
    forward_for(
        match e164 {
            None => None,
            Some(raw) => Some(normalized(raw, region)),
        },
    )
}

/// What is asked of the modem to learn where calls go.
pub fn get_call_forward() -> (r: ForwardRequest)
    ensures
        r@ == ForwardRequestView::Query,
{
    ForwardRequest::Query
}

/// What is asked of the modem for a number that was read.
pub fn forward_request(number: Option<Result<String, NormalizeError>>) -> (r: Result<
    ForwardRequest,
    ActionError,
>)
    ensures
        res_view(r) == forward_for(
            match number {
                Some(n) => Some(result_view(n)),
                None => None,
            },
        ),
{
    match number {
        None => Ok(ForwardRequest::Disable),
        Some(Ok(e164)) => Ok(ForwardRequest::Enable(e164)),
        Some(Err(e)) => Err(ActionError::InvalidNumber(e.message())),
    }
}

/// What is asked of the modem to change where calls go.
pub fn put_call_forward(region: &str, e164: &Option<String>) -> (r: Result<
    ForwardRequest,
    ActionError,
>)
    ensures
        res_view(r) == forward_wish(region@, opt_view(*e164)),
{
    match e164 {
        None => forward_request(None),
        Some(raw) => forward_request(Some(normalize_e164(raw.as_str(), region))),
    }
}

pub open spec fn forward_failure(e: ModemErrorView) -> ActionErrorView {
    match e {
        ModemErrorView::NotFound(s) => ActionErrorView::ModemUnavailable(s),
        ModemErrorView::Failed(s) => ActionErrorView::ForwardFailed(s),
    }
}

/// The modem's answer as that of the action.
pub open spec fn forward_outcome(r: Result<CallForwardStateView, ModemErrorView>) -> Result<
    CallForwardStateView,
    ActionErrorView,
> {
    match r {
        Ok(s) => Ok(s),
        Err(e) => Err(forward_failure(e)),
    }
}

fn map_forward_err(err: ModemError) -> (r: ActionError)
    ensures
        r@ == forward_failure(err@),
{
    match err {
        ModemError::NotFound(s) => ActionError::ModemUnavailable(s),
        ModemError::Failed(s) => ActionError::ForwardFailed(s),
    }
}

/// Answers with what the modem said.
pub fn forward_answer(answer: Result<CallForwardState, ModemError>) -> (r: Result<
    CallForwardState,
    ActionError,
>)
    ensures
        res_view(r) == forward_outcome(res_view(answer)),
{
    match answer {
        Ok(state) => Ok(state),
        Err(e) => Err(map_forward_err(e)),
    }
}

} // verus!
