//! The HTTP API: who may call it, how requests are read and how errors answer.
use vstd::prelude::*;

use crate::actions::identity::{Identity, IdentityView};
use crate::actions::{ActionError, ActionErrorView};
use crate::route::GENERAL_THREAD;
use crate::rows::{opt_view, res_opt, res_view, views};
use crate::text::{nonblank, trim};

verus! {

// ---------------------------------------------------------------------------
// Answers
// ---------------------------------------------------------------------------

/// An answer that tells an error. `numbers` and `sent` are said only by the
/// errors that have them.
#[derive(Debug)]
pub struct ApiResponse {
    pub status: u16,
    pub error: String,
    pub message: String,
    pub numbers: Option<Vec<String>>,
    pub sent: Option<bool>,
}

pub struct ApiResponseView {
    pub status: u16,
    pub error: Seq<char>,
    pub message: Seq<char>,
    pub numbers: Option<Seq<Seq<char>>>,
    pub sent: Option<bool>,
}

impl View for ApiResponse {
    type V = ApiResponseView;

    open spec fn view(&self) -> ApiResponseView {
        ApiResponseView {
            status: self.status,
            error: self.error@,
            message: self.message@,
            numbers: match self.numbers {
                Some(v) => Some(views(v@)),
                None => None,
            },
            sent: self.sent,
        }
    }
}

pub open spec fn plain(status: u16, error: Seq<char>, message: Seq<char>) -> ApiResponseView {
    ApiResponseView { status, error, message, numbers: None, sent: None }
}

/// The status and the short name of each error, with its words and what else
/// it tells.
pub open spec fn answered(e: ActionErrorView) -> ApiResponseView {
    let words = e.words();
    match e {
        ActionErrorView::MissingIdentity => plain(400, "missing_identity"@, words),
        ActionErrorView::Validation(_) => plain(400, "validation"@, words),
        ActionErrorView::InvalidNumber(_) => plain(400, "invalid_number"@, words),
        ActionErrorView::NotFound(_) => plain(404, "not_found"@, words),
        ActionErrorView::IdentityConflict => plain(409, "identity_conflict"@, words),
        ActionErrorView::NeedDefaultNumber { numbers } => ApiResponseView {
            numbers: Some(numbers),
            ..plain(409, "need_default_number"@, words)
        },
        ActionErrorView::ContactsUnavailable => plain(503, "contacts_unavailable"@, words),
        ActionErrorView::ModemFailed(_) => plain(502, "modem_failed"@, words),
        ActionErrorView::TelegramFailed { sent, .. } => ApiResponseView {
            sent: Some(sent),
            ..plain(502, "telegram_failed"@, words)
        },
        ActionErrorView::ModemUnavailable(_) => plain(503, "modem_unavailable"@, words),
        ActionErrorView::ForwardFailed(_) => plain(500, "forward_failed"@, words),
        ActionErrorView::Db(_) => plain(500, "internal"@, words),
        ActionErrorView::App(_) => plain(500, "internal"@, words),
    }
}

/// An error answer that says no more than what is wrong.
pub fn api_error_response(status: u16, error: &str, message: &str) -> (r: ApiResponse)
    ensures
        r@ == plain(status, error@, message@),
{
    ApiResponse {
        status,
        error: error.to_owned(),
        message: message.to_owned(),
        numbers: None,
        sent: None,
    }
}

/// The answer to an action that failed.
pub fn action_to_response(err: ActionError) -> (r: ApiResponse)
    ensures
        r@ == answered(err@),
{
    let words = err.message();
    let message = words.as_str();
    match err {
        ActionError::MissingIdentity => api_error_response(400, "missing_identity", message),
        ActionError::Validation(_) => api_error_response(400, "validation", message),
        ActionError::InvalidNumber(_) => api_error_response(400, "invalid_number", message),
        ActionError::NotFound(_) => api_error_response(404, "not_found", message),
        ActionError::IdentityConflict => api_error_response(409, "identity_conflict", message),
        ActionError::NeedDefaultNumber { numbers } => ApiResponse {
            status: 409,
            error: "need_default_number".to_owned(),
            message: words,
            numbers: Some(numbers),
            sent: None,
        },
        ActionError::ContactsUnavailable => api_error_response(
            503,
            "contacts_unavailable",
            message,
        ),
        ActionError::ModemFailed(_) => api_error_response(502, "modem_failed", message),
        ActionError::TelegramFailed { sent, message: _ } => ApiResponse {
            status: 502,
            error: "telegram_failed".to_owned(),
            message: words,
            numbers: None,
            sent: Some(sent),
        },
        ActionError::ModemUnavailable(_) => api_error_response(503, "modem_unavailable", message),
        ActionError::ForwardFailed(_) => api_error_response(500, "forward_failed", message),
        ActionError::Db(_) => api_error_response(500, "internal", message),
        ActionError::App(_) => api_error_response(500, "internal", message),
    }
}

/// The answer to a caller without the key.
pub fn unauthorized() -> (r: ApiResponse)
    ensures
        r@ == plain(401, "unauthorized"@, "unauthorized"@),
{
    api_error_response(401, "unauthorized", "unauthorized")
}

/// The answer to a path that leads nowhere.
pub fn api_not_found() -> (r: ApiResponse)
    ensures
        r@ == plain(404, "not_found"@, "not found"@),
{
    api_error_response(404, "not_found", "not found")
}

/// The answer to a path that does not take the method.
pub fn api_method_not_allowed() -> (r: ApiResponse)
    ensures
        r@ == plain(405, "validation"@, "method not allowed"@),
{
    api_error_response(405, "validation", "method not allowed")
}

/// What is wrong with the body of a request.
#[derive(Debug)]
pub enum BodyProblem {
    /// It is no JSON, has the wrong fields or could not be read; in words.
    Unreadable(String),
    /// It is not announced as JSON.
    NotJson,
    Other,
}

pub open spec fn problem_words(p: BodyProblem) -> Seq<char> {
    match p {
        BodyProblem::Unreadable(s) => s@,
        BodyProblem::NotJson => "expected request with content-type application/json"@,
        BodyProblem::Other => "invalid request body"@,
    }
}

/// The answer to a request whose body cannot be read.
pub fn json_rejection_response(problem: BodyProblem) -> (r: ApiResponse)
    ensures
        r@ == plain(400, "validation"@, problem_words(problem)),
{
    match problem {
        BodyProblem::Unreadable(s) => api_error_response(400, "validation", s.as_str()),
        BodyProblem::NotJson => api_error_response(
            400,
            "validation",
            "expected request with content-type application/json",
        ),
        BodyProblem::Other => api_error_response(400, "validation", "invalid request body"),
    }
}

// ---------------------------------------------------------------------------
// Requests
// ---------------------------------------------------------------------------

/// The fields of a request that say whom it is about.
#[derive(Debug)]
pub struct IdentityReq {
    pub number: Option<String>,
    pub contact_id: Option<i64>,
    pub thread_id: Option<i32>,
}

impl View for IdentityReq {
    type V = IdentityView;

    open spec fn view(&self) -> IdentityView {
        IdentityView {
            number: opt_view(self.number),
            contact_id: self.contact_id,
            thread_id: self.thread_id,
        }
    }
}

/// The fields as an identity: a number of white space counts as missing, and a
/// thread alone says nothing.
pub open spec fn identified(req: IdentityView) -> Result<IdentityView, ActionErrorView> {
    if req.thread_id is Some && nonblank(req.number) is None && req.contact_id is None {
        Err(ActionErrorView::MissingIdentity)
    } else {
        Ok(IdentityView { number: nonblank(req.number), ..req })
    }
}

pub fn identity_from_req(req: IdentityReq) -> (r: Result<Identity, ActionError>)
    ensures
        res_view(r) == identified(req@),
{
    let number = match &req.number {
        Some(s) => {
            let s = trim(s.as_str());
            if s.as_str().is_empty() {
                None
            } else {
                Some(s)
            }
        },
        None => None,
    };
    if req.thread_id.is_some() && number.is_none() && req.contact_id.is_none() {
        return Err(ActionError::MissingIdentity);
    }
    Ok(Identity { number, contact_id: req.contact_id, thread_id: req.thread_id })
}

/// The thread that a request over HTTP is answered in.
pub fn reply_thread(id: &Identity) -> (r: i32)
    ensures
        r == match id@.thread_id {
            Some(t) => t,
            None => GENERAL_THREAD,
        },
{
    match id.thread_id {
        Some(t) => t,
        None => GENERAL_THREAD,
    }
}

/// The number in a request that changes where calls go, as it stands there.
#[derive(Debug)]
pub enum ForwardField {
    Missing,
    Null,
    Text(String),
    Other,
}

/// What the request wants: to switch forwarding off only if it says null.
pub open spec fn forward_wanted(f: ForwardField) -> Result<Option<Seq<char>>, ActionErrorView> {
    match f {
        ForwardField::Missing => Err(ActionErrorView::Validation("e164 is required"@)),
        ForwardField::Null => Ok(None),
        ForwardField::Text(s) => if nonblank(Some(s@)) is None {
            Err(ActionErrorView::Validation("e164 must not be empty"@))
        } else {
            Ok(Some(s@))
        },
        ForwardField::Other => Err(ActionErrorView::Validation("e164 must be string or null"@)),
    }
}

pub fn forward_from_req(field: ForwardField) -> (r: Result<Option<String>, ActionError>)
    ensures
        res_opt(r) == forward_wanted(field),
{
    match field {
        ForwardField::Missing => Err(ActionError::Validation("e164 is required".to_owned())),
        ForwardField::Null => Ok(None),
        ForwardField::Text(s) => if trim(s.as_str()).as_str().is_empty() {
            Err(ActionError::Validation("e164 must not be empty".to_owned()))
        } else {
            Ok(Some(s))
        },
        ForwardField::Other => Err(
            ActionError::Validation("e164 must be string or null".to_owned()),
        ),
    }
}

// ---------------------------------------------------------------------------
// The key
// ---------------------------------------------------------------------------

/// Calls `subtle::ConstantTimeEq::ct_eq` on two byte slices: the result says
/// whether they are equal. How long it takes is not stated.
#[verifier::external_body]
fn ct_eq(a: &[u8], b: &[u8]) -> (r: bool)
    ensures
        r == (a@ == b@),
{
    bool::from(subtle::ConstantTimeEq::ct_eq(a, b))
}

/// The bytes with zeros behind them.
pub open spec fn padded(s: Seq<u8>, len: int) -> Seq<u8> {
    Seq::new(len as nat, |i: int| if i < s.len() { s[i] } else { 0 })
}

fn pad(s: &[u8], len: usize) -> (r: Vec<u8>)
    requires
        s@.len() <= len,
    ensures
        r@ == padded(s@, len as int),
{
    let mut out: Vec<u8> = Vec::new();
    let mut i: usize = 0;
    while i < len
        invariant
            i <= len,
            s@.len() <= len,
            out@ == padded(s@, len as int).take(i as int),
        decreases len - i,
    {
        let ghost before = out@;
        if i < s.len() {
            out.push(s[i]);
        } else {
            out.push(0);
        }
        assert(out@ =~= padded(s@, len as int).take(i + 1));
        i = i + 1;
    }
    assert(padded(s@, len as int).take(len as int) =~= padded(s@, len as int));
    out
}

/// Whether the key that was given is the one expected. Both are brought to one
/// length before their bytes are compared, so that the comparison is the same
/// work whatever was given.
pub fn api_key_matches(expected: &str, provided: &str) -> (r: bool)
    ensures
        r == (expected@ == provided@),
{
    let e = expected.as_bytes();
    let p = provided.as_bytes();
    let len: usize = if e.len() > p.len() {
        e.len()
    } else {
        p.len()
    };
    let expected_buf = pad(e, len);
    let provided_buf = pad(p, len);
    let contents_equal = ct_eq(expected_buf.as_slice(), provided_buf.as_slice());
    proof {
        if contents_equal && e@.len() == p@.len() {
            assert forall|i: int| 0 <= i < e@.len() implies e@[i] == p@[i] by {
                assert(padded(e@, len as int)[i] == padded(p@, len as int)[i]);
            }
            assert(e@ =~= p@);
            vstd::utf8::encode_utf8_decode_utf8(expected@);
            vstd::utf8::encode_utf8_decode_utf8(provided@);
        }
    }
    contents_equal && e.len() == p.len()
}

/// A caller may use the API: there is a key, and the caller has it.
pub open spec fn may_call(api_key: Option<Seq<char>>, header: Option<Seq<char>>) -> bool {
    api_key matches Some(k) && k.len() > 0 && header == Some(k)
}

/// Whether a caller may use the API.
pub fn authorized(api_key: &Option<String>, header: &Option<String>) -> (r: bool)
    ensures
        r == may_call(opt_view(*api_key), opt_view(*header)),
{
    match (api_key, header) {
        (Some(expected), Some(provided)) => {
            !expected.as_str().is_empty() && api_key_matches(expected.as_str(), provided.as_str())
        },
        _ => false,
    }
}

/// Without a key, or with an empty one, nobody may call.
pub proof fn law_no_key_no_call(header: Option<Seq<char>>)
    ensures
        !may_call(None, header),
        !may_call(Some(Seq::empty()), header),
{
}

/// An answer tells a failure: its status is one of the client's or the
/// server's errors.
pub proof fn law_errors_answer_as_errors(e: ActionErrorView)
    ensures
        400 <= answered(e).status < 600,
        answered(e).sent is Some <==> e is TelegramFailed,
        answered(e).numbers is Some <==> e is NeedDefaultNumber,
{
}

} // verus!
