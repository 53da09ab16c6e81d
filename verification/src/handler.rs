//! The five HTTP operations, from decoded request to status and body.
//!
//! | Method | Path          | Success                  | Failure                  |
//! |--------|---------------|--------------------------|--------------------------|
//! | POST   | `/todos`      | 201, the created record  | 500                      |
//! | GET    | `/todos`      | 200, every record        | 500                      |
//! | GET    | `/todos/{id}` | 200, the record          | 404 if absent; 500       |
//! | PUT    | `/todos/{id}` | 200, the replaced record | 404 if absent; 500       |
//! | DELETE | `/todos/{id}` | 204, no body             | 404 if absent; 500       |
//!
//! Each operation is one operation of the service. The handler adds nothing to
//! what the service decides: it passes the service's queries on and turns the
//! service's result into a [`Response`].

use crate::entity::{Model, ModelView, TodoPayload};
use crate::operation::{ends_as_owed, owed, runs, Operation};
use crate::service::{
    next_step, Answer, AnswerView, Ending, Outcome, OutcomeView, Pending, PendingView, Query,
    QueryView, ServiceError, ServiceErrorView, Step, StepView,
};
use crate::table::{well_formed, Table};
use vstd::prelude::*;

verus! {

/// 200 OK.
pub const OK: u16 = 200;

/// 201 Created.
pub const CREATED: u16 = 201;

/// 204 No Content.
pub const NO_CONTENT: u16 = 204;

/// 404 Not Found.
pub const NOT_FOUND: u16 = 404;

/// 500 Internal Server Error.
pub const INTERNAL_SERVER_ERROR: u16 = 500;

/// Why a request is answered with an error.
#[derive(Debug, PartialEq, Eq)]
pub enum AppError {
    /// The service reported an error.
    ServiceError(ServiceError),
    /// The request named a todo that does not exist.
    NotFound,
}

/// The mathematical value of an [`AppError`].
pub enum AppErrorView {
    ServiceError(ServiceErrorView),
    NotFound,
}

impl View for AppError {
    type V = AppErrorView;

    open spec fn view(&self) -> AppErrorView {
        match self {
            AppError::ServiceError(error) => AppErrorView::ServiceError(error@),
            AppError::NotFound => AppErrorView::NotFound,
        }
    }
}

/// The body of a response. Each variant but `Empty` is sent as JSON.
#[derive(Debug, PartialEq, Eq)]
pub enum Body {
    /// No body at all.
    Empty,
    /// One record: an object with the fields `id`, `title` and `completed`.
    Todo(Model),
    /// An array of records.
    Todos(Vec<Model>),
    /// An object with the single field `error`, which holds this text.
    Error(String),
}

/// The mathematical value of a [`Body`].
pub enum BodyView {
    Empty,
    Todo(ModelView),
    Todos(Seq<ModelView>),
    Error(Seq<char>),
}

impl View for Body {
    type V = BodyView;

    open spec fn view(&self) -> BodyView {
        match self {
            Body::Empty => BodyView::Empty,
            Body::Todo(row) => BodyView::Todo(row@),
            Body::Todos(rows) => BodyView::Todos(rows.deep_view()),
            Body::Error(text) => BodyView::Error(text@),
        }
    }
}

/// What goes back to the client.
#[derive(Debug, PartialEq, Eq)]
pub struct Response {
    pub status: u16,
    pub body: Body,
}

/// The mathematical value of a [`Response`].
pub struct ResponseView {
    pub status: int,
    pub body: BodyView,
}

impl View for Response {
    type V = ResponseView;

    open spec fn view(&self) -> ResponseView {
        ResponseView { status: self.status as int, body: self.body@ }
    }
}

impl AppErrorView {
    /// The response that reports this error: 404 without a body for a todo
    /// that does not exist, whoever noticed; 500 with the error's text for a
    /// failure of the table.
    pub open spec fn response(self) -> ResponseView {
        match self {
            AppErrorView::NotFound => ResponseView { status: 404, body: BodyView::Empty },
            AppErrorView::ServiceError(ServiceErrorView::NotFound) => ResponseView {
                status: 404,
                body: BodyView::Empty,
            },
            AppErrorView::ServiceError(error) => ResponseView {
                status: 500,
                body: BodyView::Error(error.message()),
            },
        }
    }
}

/// The response to an operation that ended with `ending`.
///
/// A created record is sent with 201, a fetched or replaced record and the
/// list with 200, a removal is acknowledged with 204 and no body. A lookup
/// that found nothing is answered as an error is: 404, no body.
pub open spec fn response_to(ending: Ending) -> ResponseView {
    match ending {
        Ok(OutcomeView::Created(row)) => ResponseView { status: 201, body: BodyView::Todo(row) },
        Ok(OutcomeView::Fetched(Some(row))) => ResponseView {
            status: 200,
            body: BodyView::Todo(row),
        },
        Ok(OutcomeView::Fetched(None)) => AppErrorView::NotFound.response(),
        Ok(OutcomeView::Listed(rows)) => ResponseView { status: 200, body: BodyView::Todos(rows) },
        Ok(OutcomeView::Updated(row)) => ResponseView { status: 200, body: BodyView::Todo(row) },
        Ok(OutcomeView::Deleted) => ResponseView { status: 204, body: BodyView::Empty },
        Err(error) => AppErrorView::ServiceError(error).response(),
    }
}

impl From<ServiceError> for AppError {
    fn from(error: ServiceError) -> (wrapped: AppError) {
        AppError::ServiceError(error)
    }
}

impl vstd::std_specs::convert::FromSpecImpl<ServiceError> for AppError {
    open spec fn obeys_from_spec() -> bool {
        true
    }

    open spec fn from_spec(error: ServiceError) -> AppError {
        AppError::ServiceError(error)
    }
}

impl AppError {
    /// Turns the error into the response that reports it.
    pub fn into_response(self) -> (response: Response)
        ensures
            response@ == self@.response(),
    {
        match self {
            AppError::NotFound => Response { status: NOT_FOUND, body: Body::Empty },
            AppError::ServiceError(ServiceError::NotFound) => Response {
                status: NOT_FOUND,
                body: Body::Empty,
            },
            AppError::ServiceError(error) => Response {
                status: INTERNAL_SERVER_ERROR,
                body: Body::Error(error.message()),
            },
        }
    }
}

/// Turns the result of an operation into the response to the request.
pub fn respond(result: Result<Outcome, ServiceError>) -> (response: Response)
    ensures
        response@ == response_to(crate::service::ending(result)),
{
    match result {
        Ok(Outcome::Created(row)) => Response { status: CREATED, body: Body::Todo(row) },
        Ok(Outcome::Fetched(Some(row))) => Response { status: OK, body: Body::Todo(row) },
        Ok(Outcome::Fetched(None)) => AppError::NotFound.into_response(),
        Ok(Outcome::Listed(rows)) => Response { status: OK, body: Body::Todos(rows) },
        Ok(Outcome::Updated(row)) => Response { status: OK, body: Body::Todo(row) },
        Ok(Outcome::Deleted) => Response { status: NO_CONTENT, body: Body::Empty },
        Err(error) => AppError::from(error).into_response(),
    }
}

/// Where the handling of a request stands.
#[derive(Debug, PartialEq, Eq)]
pub enum Exchange {
    /// The query is to be put to the table, and its answer handed to
    /// [`resume`] together with the [`Pending`].
    Ask(Query, Pending),
    /// The response is ready to be sent.
    Reply(Response),
}

/// The mathematical value of an [`Exchange`].
pub enum ExchangeView {
    Ask(QueryView, PendingView),
    Reply(ResponseView),
}

impl View for Exchange {
    type V = ExchangeView;

    open spec fn view(&self) -> ExchangeView {
        match self {
            Exchange::Ask(query, pending) => ExchangeView::Ask(query@, pending@),
            Exchange::Reply(response) => ExchangeView::Reply(response@),
        }
    }
}

/// The exchange that stands for a step of the service: its query is passed
/// on, its result is answered.
pub open spec fn exchange_of(step: StepView) -> ExchangeView {
    match step {
        StepView::Ask(query, pending) => ExchangeView::Ask(query, pending),
        StepView::Done(ending) => ExchangeView::Reply(response_to(ending)),
    }
}

/// The handling that stands at `exchange` can end with `response` when the
/// table holds `before`, gives `replies` to the queries on the way, and holds
/// `after` when the response is ready.
pub open spec fn completes(
    exchange: ExchangeView,
    before: Table,
    replies: Seq<AnswerView>,
    response: ResponseView,
    after: Table,
) -> bool {
    match exchange {
        ExchangeView::Reply(ready) => replies.len() == 0 && response == ready && after == before,
        ExchangeView::Ask(query, pending) => exists|ending: Ending| #[trigger]
            runs(StepView::Ask(query, pending), before, replies, ending, after) && response
                == response_to(ending),
    }
}

/// Whenever the handling that stands at `exchange` ends on a well-formed
/// table, its response is the response to an ending that `operation` may
/// have there.
pub open spec fn responds_to(exchange: ExchangeView, operation: Operation) -> bool {
    forall|before: Table, replies: Seq<AnswerView>, response: ResponseView, after: Table|
        well_formed(before) && #[trigger] completes(exchange, before, replies, response, after)
            ==> exists|ending: Ending| #[trigger]
            owed(operation, before, replies, ending, after) && response == response_to(ending)
}

/// The exchange that takes an operation up responds to it.
pub proof fn first_exchange_responds(operation: Operation)
    ensures
        responds_to(exchange_of(operation.first_step()), operation),
{
    let exchange = exchange_of(operation.first_step());
    assert forall|before: Table, replies: Seq<AnswerView>, response: ResponseView, after: Table|
        well_formed(before) && #[trigger] completes(
            exchange,
            before,
            replies,
            response,
            after,
        ) implies exists|ending: Ending| #[trigger]
        owed(operation, before, replies, ending, after) && response == response_to(ending) by {
        let ending = choose|ending: Ending| #[trigger]
            runs(operation.first_step(), before, replies, ending, after) && response
                == response_to(ending);
        ends_as_owed(operation, before, replies, ending, after);
    }
}

fn exchange(step: Step) -> (exchange: Exchange)
    ensures
        exchange@ == exchange_of(step@),
{
    match step {
        Step::Ask(query, pending) => Exchange::Ask(query, pending),
        Step::Done(result) => Exchange::Reply(respond(result)),
    }
}

/// `POST /todos` with `data` as its body.
pub fn create_todo(data: TodoPayload) -> (exchange: Exchange)
    ensures
        exchange@ == exchange_of(Operation::Create(data@).first_step()),
        responds_to(exchange@, Operation::Create(data@)),
{
    proof {
        first_exchange_responds(Operation::Create(data@));
    }
    exchange(crate::service::create_todo(data))
}

/// `GET /todos/{id}`.
pub fn get_todo_by_id(id: i32) -> (exchange: Exchange)
    ensures
        exchange@ == exchange_of(Operation::Get(id as int).first_step()),
        responds_to(exchange@, Operation::Get(id as int)),
{
    proof {
        first_exchange_responds(Operation::Get(id as int));
    }
    exchange(crate::service::get_todo_by_id(id))
}

/// `GET /todos`.
pub fn get_all_todos() -> (exchange: Exchange)
    ensures
        exchange@ == exchange_of(Operation::List.first_step()),
        responds_to(exchange@, Operation::List),
{
    proof {
        first_exchange_responds(Operation::List);
    }
    exchange(crate::service::get_all_todos())
}

/// `PUT /todos/{id}` with `data` as its body.
pub fn update_todo(id: i32, data: TodoPayload) -> (exchange: Exchange)
    ensures
        exchange@ == exchange_of(Operation::Update(id as int, data@).first_step()),
        responds_to(exchange@, Operation::Update(id as int, data@)),
{
    proof {
        first_exchange_responds(Operation::Update(id as int, data@));
    }
    exchange(crate::service::update_todo(id, data))
}

/// `DELETE /todos/{id}`.
pub fn delete_todo(id: i32) -> (exchange: Exchange)
    ensures
        exchange@ == exchange_of(Operation::Delete(id as int).first_step()),
        responds_to(exchange@, Operation::Delete(id as int)),
{
    proof {
        first_exchange_responds(Operation::Delete(id as int));
    }
    exchange(crate::service::delete_todo(id))
}

/// Takes the handling of a request one step further with the table's answer.
pub fn resume(pending: Pending, answer: Answer) -> (exchange: Exchange)
    ensures
        exchange@ == exchange_of(next_step(pending@, answer@)),
{
    exchange(crate::service::resume(pending, answer))
}

} // verus!
