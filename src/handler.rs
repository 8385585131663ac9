//! What each endpoint answers: a fixed health reply, the decision whether a
//! lookup goes to the store at all, and the reply to a store outcome.
use vstd::prelude::*;
use crate::model::UserModel;
use crate::query::{build_info_query, info_plan, info_statement};
use crate::schema::{InfoQuery, QueryError, SearchQuery};
use crate::search::search_statement;
use crate::sql::{SqlQuery, Statement};

verus! {

/// A failure of the store, as sqlx reports it. It is carried, never read:
/// the reply to it does not depend on its cause.
#[verifier::external_type_specification]
#[verifier::external_body]
pub struct ExSqlxError(sqlx::Error);

pub const OK: u16 = 200;

pub const BAD_REQUEST: u16 = 400;

pub const INTERNAL_SERVER_ERROR: u16 = 500;

/// Banner of the health reply.
pub const HEALTH_MESSAGE: &'static str = "Jungle Challenge";

/// Reply to a failed lookup; the cause is not echoed.
pub const INFO_FAILURE: &'static str = "Something bad happened while fetching user info";

/// Reply to a failed search; the cause is not echoed.
pub const SEARCH_FAILURE: &'static str = "Something bad happened while fetching all user items";

/// The body of a reply: a status envelope, or the records themselves.
#[derive(Debug)]
pub enum ResponseBody {
    Status { status: String, message: String },
    Users(Vec<UserModel>),
}

/// A reply: its HTTP status code and its body.
#[derive(Debug)]
pub struct Response {
    pub status: u16,
    pub body: ResponseBody,
}

pub enum BodyView {
    Status { status: Seq<char>, message: Seq<char> },
    Users(Seq<UserModel>),
}

pub struct ResponseView {
    pub status: u16,
    pub body: BodyView,
}

impl View for Response {
    type V = ResponseView;

    open spec fn view(&self) -> ResponseView {
        ResponseView {
            status: self.status,
            body: match self.body {
                ResponseBody::Status { status, message } => BodyView::Status {
                    status: status@,
                    message: message@,
                },
                ResponseBody::Users(rows) => BodyView::Users(rows@),
            },
        }
    }
}

/// What the lookup endpoint does with a request: reply at once, or run a
/// statement and reply to its outcome.
#[derive(Debug)]
pub enum InfoAction {
    Reply(Response),
    Fetch(SqlQuery),
}

pub enum ActionView {
    Reply(ResponseView),
    Fetch(Statement),
}

impl View for InfoAction {
    type V = ActionView;

    open spec fn view(&self) -> ActionView {
        match self {
            InfoAction::Reply(r) => ActionView::Reply(r@),
            InfoAction::Fetch(s) => ActionView::Fetch(s@),
        }
    }
}

pub open spec fn status_reply(code: u16, status: Seq<char>, message: Seq<char>) -> ResponseView {
    ResponseView { status: code, body: BodyView::Status { status, message } }
}

pub open spec fn error_message(e: QueryError) -> Seq<char> {
    match e {
        QueryError::MissingFilter => "Please provide at least one query parameter"@,
        QueryError::InvalidPage => "The page must be at least 1"@,
        QueryError::PaginationOutOfRange => "The page and limit are too large"@,
    }
}

/// A refused request is the client's error.
pub open spec fn refusal(e: QueryError) -> ResponseView {
    status_reply(BAD_REQUEST, "error"@, error_message(e))
}

/// A failed store access is the server's error, with a fixed message.
pub open spec fn failure(message: Seq<char>) -> ResponseView {
    status_reply(INTERNAL_SERVER_ERROR, "error"@, message)
}

/// Records found: the bare list of them.
pub open spec fn found(rows: Seq<UserModel>) -> ResponseView {
    ResponseView { status: OK, body: BodyView::Users(rows) }
}

pub open spec fn info_action_of(q: InfoQuery) -> ActionView {
    match info_plan(q) {
        Ok(p) => ActionView::Fetch(info_statement(p)),
        Err(e) => ActionView::Reply(refusal(e)),
    }
}

pub open spec fn reply_to(outcome: Result<Vec<UserModel>, sqlx::Error>, message: Seq<char>) -> ResponseView {
    match outcome {
        Ok(rows) => found(rows@),
        Err(_) => failure(message),
    }
}

impl QueryError {
    /// The message sent back with a refused request.
    pub fn message(&self) -> (r: String)
        ensures
            r@ == error_message(*self),
    {
        match self {
            QueryError::MissingFilter => String::from_str("Please provide at least one query parameter"),
            QueryError::InvalidPage => String::from_str("The page must be at least 1"),
            QueryError::PaginationOutOfRange => String::from_str("The page and limit are too large"),
        }
    }
}

fn status_response(code: u16, status: &str, message: String) -> (r: Response)
    ensures
        r@ == status_reply(code, status@, message@),
{
    Response { status: code, body: ResponseBody::Status { status: String::from_str(status), message } }
}

/// The health reply: always success, with the service banner.
pub fn health_checker_handler() -> (r: Response)
    ensures
        r@ == status_reply(OK, "success"@, HEALTH_MESSAGE@),
{
    status_response(OK, "success", String::from_str(HEALTH_MESSAGE))
}

/// The reply to a refused lookup request.
pub fn error_response(e: QueryError) -> (r: Response)
    ensures
        r@ == refusal(e),
{
    status_response(BAD_REQUEST, "error", e.message())
}

/// Whether a lookup request goes to the store: a refused request gets its
/// client-error reply and no statement; any other gets its statement.
pub fn info_action(q: &InfoQuery) -> (r: InfoAction)
    ensures
        r@ == info_action_of(*q),
{
    match build_info_query(q) {
        Ok(stmt) => InfoAction::Fetch(stmt),
        Err(e) => InfoAction::Reply(error_response(e)),
    }
}

fn outcome_response(outcome: Result<Vec<UserModel>, sqlx::Error>, message: &str) -> (r: Response)
    ensures
        r@ == reply_to(outcome, message@),
{
    match outcome {
        Ok(rows) => Response { status: OK, body: ResponseBody::Users(rows) },
        Err(_) => status_response(INTERNAL_SERVER_ERROR, "error", String::from_str(message)),
    }
}

/// The reply to the store's outcome of a lookup statement.
pub fn info_response(outcome: Result<Vec<UserModel>, sqlx::Error>) -> (r: Response)
    ensures
        r@ == reply_to(outcome, INFO_FAILURE@),
{
    outcome_response(outcome, INFO_FAILURE)
}

/// The reply to the store's outcome of a search statement.
pub fn search_response(outcome: Result<Vec<UserModel>, sqlx::Error>) -> (r: Response)
    ensures
        r@ == reply_to(outcome, SEARCH_FAILURE@),
{
    outcome_response(outcome, SEARCH_FAILURE)
}

pub open spec fn text_of(o: Option<String>) -> Option<Seq<char>> {
    match o {
        Some(s) => Some(s@),
        None => None,
    }
}

/// Two lookup requests that carry the same parameters.
pub open spec fn same_info_query(a: InfoQuery, b: InfoQuery) -> bool {
    &&& text_of(a.uid) == text_of(b.uid)
    &&& text_of(a.upper_date) == text_of(b.upper_date)
    &&& text_of(a.lower_date) == text_of(b.lower_date)
    &&& a.page == b.page
    &&& a.limit == b.limit
}

/// A lookup request without any filter is answered at once with a client
/// error, and no statement goes to the store.
pub proof fn lemma_no_filter_is_refused(q: InfoQuery)
    requires
        q.uid is None,
        q.upper_date is None,
        q.lower_date is None,
    ensures
        info_action_of(q) == ActionView::Reply(refusal(QueryError::MissingFilter)),
        refusal(QueryError::MissingFilter).status == BAD_REQUEST,
{
    assert(crate::query::filters_of(q) =~= seq![]);
}

/// Repeating a request gives the same answer: the same lookup or search
/// parameters give the same action or statement, and the same rows from the
/// store give the same reply.
pub proof fn lemma_requests_repeatable(
    q1: InfoQuery,
    q2: InfoQuery,
    s1: SearchQuery,
    s2: SearchQuery,
    rows1: Vec<UserModel>,
    rows2: Vec<UserModel>,
)
    requires
        same_info_query(q1, q2),
        s1.name@ == s2.name@,
        rows1@ == rows2@,
    ensures
        info_action_of(q1) == info_action_of(q2),
        search_statement(s1) == search_statement(s2),
        reply_to(Ok(rows1), INFO_FAILURE@) == reply_to(Ok(rows2), INFO_FAILURE@),
        reply_to(Ok(rows1), SEARCH_FAILURE@) == reply_to(Ok(rows2), SEARCH_FAILURE@),
{
    assert(crate::query::filters_of(q1) =~= crate::query::filters_of(q2));
}

} // verus!
