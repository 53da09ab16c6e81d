//! The five operations on todos, each as a short conversation with the table.
//!
//! An operation starts with one of [`create_todo`], [`get_todo_by_id`],
//! [`get_all_todos`], [`update_todo`] and [`delete_todo`]. Each returns a
//! [`Step`]: either a [`Query`] to put to the table together with what the
//! service is waiting for, or the result of the operation. The caller puts the
//! query to the table and hands the table's [`Answer`] to [`resume`], until the
//! step is [`Step::Done`].
//!
//! Update and delete look the row up before they touch it, so that a missing
//! row is reported as [`ServiceError::NotFound`] and never as a failure of the
//! table. The lookup and the write are two queries: when another client
//! removes the row between them the table's own failure is passed on.

use crate::entity::{Model, ModelView, TodoPayload, TodoPayloadView};
use crate::operation::{carries_out, first_step_carries_out, Operation};
use vstd::prelude::*;
use vstd::string::StringExecFns;

verus! {

/// Why an operation did not succeed.
#[derive(Debug, PartialEq, Eq)]
pub enum ServiceError {
    /// The operation was aimed at an id that the table does not hold.
    NotFound,
    /// The table failed; the text is the table's own description.
    DbErr(String),
}

/// The mathematical value of a [`ServiceError`].
pub enum ServiceErrorView {
    NotFound,
    DbErr(Seq<char>),
}

impl View for ServiceError {
    type V = ServiceErrorView;

    open spec fn view(&self) -> ServiceErrorView {
        match self {
            ServiceError::NotFound => ServiceErrorView::NotFound,
            ServiceError::DbErr(detail) => ServiceErrorView::DbErr(detail@),
        }
    }
}

impl ServiceErrorView {
    /// The text shown for this error.
    pub open spec fn message(self) -> Seq<char> {
        match self {
            ServiceErrorView::NotFound => "Todo not found"@,
            ServiceErrorView::DbErr(detail) => "Database error: "@ + detail,
        }
    }
}

impl ServiceError {
    /// The text shown for this error: a failure of the table is introduced by
    /// `Database error: `.
    pub fn message(&self) -> (text: String)
        ensures
            text@ == self@.message(),
    {
        match self {
            ServiceError::NotFound => String::from_str("Todo not found"),
            ServiceError::DbErr(detail) => String::from_str("Database error: ").concat(
                detail.as_str(),
            ),
        }
    }
}

/// What the service asks of the table.
#[derive(Debug, PartialEq, Eq)]
pub enum Query {
    /// Store a new row with these fields under an id of the table's choosing.
    Insert(TodoPayload),
    /// Look for the row with this id.
    FindById(i32),
    /// Hand out every row.
    FindAll,
    /// Overwrite the row that has this row's id with this row.
    Update(Model),
    /// Remove the row with this id.
    Delete(i32),
}

/// The mathematical value of a [`Query`].
pub enum QueryView {
    Insert(TodoPayloadView),
    FindById(int),
    FindAll,
    Update(ModelView),
    Delete(int),
}

impl View for Query {
    type V = QueryView;

    open spec fn view(&self) -> QueryView {
        match self {
            Query::Insert(data) => QueryView::Insert(data@),
            Query::FindById(id) => QueryView::FindById(*id as int),
            Query::FindAll => QueryView::FindAll,
            Query::Update(row) => QueryView::Update(row@),
            Query::Delete(id) => QueryView::Delete(*id as int),
        }
    }
}

/// What the table answers.
#[derive(Debug, PartialEq, Eq)]
pub enum Answer {
    /// To [`Query::Insert`]: the row as stored, with its new id.
    Inserted(Model),
    /// To [`Query::FindById`]: the row, or `None` where the table holds none
    /// with that id.
    Found(Option<Model>),
    /// To [`Query::FindAll`]: the rows, in the table's order.
    FoundAll(Vec<Model>),
    /// To [`Query::Update`]: the row as stored.
    Updated(Model),
    /// To [`Query::Delete`]: the table went through with it.
    Deleted,
    /// To any query: the table failed, and says how.
    Failed(String),
}

/// The mathematical value of an [`Answer`].
pub enum AnswerView {
    Inserted(ModelView),
    Found(Option<ModelView>),
    FoundAll(Seq<ModelView>),
    Updated(ModelView),
    Deleted,
    Failed(Seq<char>),
}

impl View for Answer {
    type V = AnswerView;

    open spec fn view(&self) -> AnswerView {
        match self {
            Answer::Inserted(row) => AnswerView::Inserted(row@),
            Answer::Found(row) => AnswerView::Found(row.deep_view()),
            Answer::FoundAll(rows) => AnswerView::FoundAll(rows.deep_view()),
            Answer::Updated(row) => AnswerView::Updated(row@),
            Answer::Deleted => AnswerView::Deleted,
            Answer::Failed(detail) => AnswerView::Failed(detail@),
        }
    }
}

/// What an operation is waiting for while its query is with the table.
#[derive(Debug, PartialEq, Eq)]
pub enum Pending {
    /// Create: the inserted row.
    Create,
    /// Get by id: the row, if any.
    Get,
    /// List: the rows.
    List,
    /// Update, first query: the row to be replaced. The payload is kept for
    /// the write.
    UpdateLookup(TodoPayload),
    /// Update, second query: the row as written.
    UpdateWrite,
    /// Delete, first query: the row to be removed.
    DeleteLookup,
    /// Delete, second query: the removal.
    DeleteRemoval,
}

/// The mathematical value of a [`Pending`].
pub enum PendingView {
    Create,
    Get,
    List,
    UpdateLookup(TodoPayloadView),
    UpdateWrite,
    DeleteLookup,
    DeleteRemoval,
}

impl View for Pending {
    type V = PendingView;

    open spec fn view(&self) -> PendingView {
        match self {
            Pending::Create => PendingView::Create,
            Pending::Get => PendingView::Get,
            Pending::List => PendingView::List,
            Pending::UpdateLookup(data) => PendingView::UpdateLookup(data@),
            Pending::UpdateWrite => PendingView::UpdateWrite,
            Pending::DeleteLookup => PendingView::DeleteLookup,
            Pending::DeleteRemoval => PendingView::DeleteRemoval,
        }
    }
}

/// What an operation that succeeded hands back.
#[derive(Debug, PartialEq, Eq)]
pub enum Outcome {
    /// Create: the stored row, with the id that the table gave it.
    Created(Model),
    /// Get by id: the row, or `None` where there is none. An absent row is an
    /// outcome, not an error.
    Fetched(Option<Model>),
    /// List: every row.
    Listed(Vec<Model>),
    /// Update: the row as it now stands.
    Updated(Model),
    /// Delete: the row is gone.
    Deleted,
}

/// The mathematical value of an [`Outcome`].
pub enum OutcomeView {
    Created(ModelView),
    Fetched(Option<ModelView>),
    Listed(Seq<ModelView>),
    Updated(ModelView),
    Deleted,
}

impl View for Outcome {
    type V = OutcomeView;

    open spec fn view(&self) -> OutcomeView {
        match self {
            Outcome::Created(row) => OutcomeView::Created(row@),
            Outcome::Fetched(row) => OutcomeView::Fetched(row.deep_view()),
            Outcome::Listed(rows) => OutcomeView::Listed(rows.deep_view()),
            Outcome::Updated(row) => OutcomeView::Updated(row@),
            Outcome::Deleted => OutcomeView::Deleted,
        }
    }
}

/// How an operation ended, as a mathematical value.
pub type Ending = Result<OutcomeView, ServiceErrorView>;

/// The mathematical value of an operation's result.
pub open spec fn ending(result: Result<Outcome, ServiceError>) -> Ending {
    match result {
        Ok(outcome) => Ok(outcome@),
        Err(error) => Err(error@),
    }
}

/// Where an operation stands.
#[derive(Debug, PartialEq, Eq)]
pub enum Step {
    /// The query is to be put to the table, and its answer handed to
    /// [`resume`] together with the [`Pending`].
    Ask(Query, Pending),
    /// The operation is over.
    Done(Result<Outcome, ServiceError>),
}

/// The mathematical value of a [`Step`].
pub enum StepView {
    Ask(QueryView, PendingView),
    Done(Ending),
}

impl View for Step {
    type V = StepView;

    open spec fn view(&self) -> StepView {
        match self {
            Step::Ask(query, pending) => StepView::Ask(query@, pending@),
            Step::Done(result) => StepView::Done(ending(*result)),
        }
    }
}

/// The text of the failure reported when the table's answer is of a kind that
/// the query put to it cannot have.
pub open spec fn unexpected_answer() -> Seq<char> {
    "unexpected answer from the table"@
}

/// The step that follows when the table gives `answer` to the query that
/// `pending` was waiting on.
///
/// A failure of the table ends every operation with that failure. A lookup
/// that finds nothing ends update and delete with `NotFound`; one that finds
/// the row is followed by the write, aimed at the id of the row that was
/// found, with both fields taken from the payload. Every other answer of the
/// right kind ends the operation with what the table handed back.
pub open spec fn next_step(pending: PendingView, answer: AnswerView) -> StepView {
    match (pending, answer) {
        (_, AnswerView::Failed(detail)) => StepView::Done(Err(ServiceErrorView::DbErr(detail))),
        (PendingView::Create, AnswerView::Inserted(row)) => StepView::Done(
            Ok(OutcomeView::Created(row)),
        ),
        (PendingView::Get, AnswerView::Found(row)) => StepView::Done(
            Ok(OutcomeView::Fetched(row)),
        ),
        (PendingView::List, AnswerView::FoundAll(rows)) => StepView::Done(
            Ok(OutcomeView::Listed(rows)),
        ),
        (PendingView::UpdateLookup(data), AnswerView::Found(Some(row))) => StepView::Ask(
            QueryView::Update(data.stored_as(row.id)),
            PendingView::UpdateWrite,
        ),
        (PendingView::UpdateLookup(_), AnswerView::Found(None)) => StepView::Done(
            Err(ServiceErrorView::NotFound),
        ),
        (PendingView::UpdateWrite, AnswerView::Updated(row)) => StepView::Done(
            Ok(OutcomeView::Updated(row)),
        ),
        (PendingView::DeleteLookup, AnswerView::Found(Some(row))) => StepView::Ask(
            QueryView::Delete(row.id),
            PendingView::DeleteRemoval,
        ),
        (PendingView::DeleteLookup, AnswerView::Found(None)) => StepView::Done(
            Err(ServiceErrorView::NotFound),
        ),
        (PendingView::DeleteRemoval, AnswerView::Deleted) => StepView::Done(
            Ok(OutcomeView::Deleted),
        ),
        _ => StepView::Done(Err(ServiceErrorView::DbErr(unexpected_answer()))),
    }
}

/// Starts the creation of a todo: the table is asked to insert the payload.
pub fn create_todo(data: TodoPayload) -> (step: Step)
    ensures
        step@ == Operation::Create(data@).first_step(),
        carries_out(step@, Operation::Create(data@)),
{
    proof {
        first_step_carries_out(Operation::Create(data@));
    }
    Step::Ask(Query::Insert(data), Pending::Create)
}

/// Starts the lookup of one todo.
pub fn get_todo_by_id(id: i32) -> (step: Step)
    ensures
        step@ == Operation::Get(id as int).first_step(),
        carries_out(step@, Operation::Get(id as int)),
{
    proof {
        first_step_carries_out(Operation::Get(id as int));
    }
    Step::Ask(Query::FindById(id), Pending::Get)
}

/// Starts the listing of all todos.
pub fn get_all_todos() -> (step: Step)
    ensures
        step@ == Operation::List.first_step(),
        carries_out(step@, Operation::List),
{
    proof {
        first_step_carries_out(Operation::List);
    }
    Step::Ask(Query::FindAll, Pending::List)
}

/// Starts the replacement of a todo's fields: the row is looked up first.
pub fn update_todo(id: i32, data: TodoPayload) -> (step: Step)
    ensures
        step@ == Operation::Update(id as int, data@).first_step(),
        carries_out(step@, Operation::Update(id as int, data@)),
{
    proof {
        first_step_carries_out(Operation::Update(id as int, data@));
    }
    Step::Ask(Query::FindById(id), Pending::UpdateLookup(data))
}

/// Starts the removal of a todo: the row is looked up first.
pub fn delete_todo(id: i32) -> (step: Step)
    ensures
        step@ == Operation::Delete(id as int).first_step(),
        carries_out(step@, Operation::Delete(id as int)),
{
    proof {
        first_step_carries_out(Operation::Delete(id as int));
    }
    Step::Ask(Query::FindById(id), Pending::DeleteLookup)
}

/// The failure that ends an operation when the table's answer does not fit
/// the query.
fn unexpected() -> (step: Step)
    ensures
        step@ == StepView::Done(Err(ServiceErrorView::DbErr(unexpected_answer()))),
{
    Step::Done(Err(ServiceError::DbErr(String::from_str("unexpected answer from the table"))))
}

/// Takes an operation one step further with the table's answer to its query.
pub fn resume(pending: Pending, answer: Answer) -> (step: Step)
    ensures
        step@ == next_step(pending@, answer@),
{
    match answer {
        Answer::Failed(detail) => Step::Done(Err(ServiceError::DbErr(detail))),
        Answer::Inserted(row) => match pending {
            Pending::Create => Step::Done(Ok(Outcome::Created(row))),
            _ => unexpected(),
        },
        Answer::Found(found) => match pending {
            Pending::Get => Step::Done(Ok(Outcome::Fetched(found))),
            Pending::UpdateLookup(data) => match found {
                Some(row) => Step::Ask(Query::Update(Model::new(row.id, data)), Pending::UpdateWrite),
                None => Step::Done(Err(ServiceError::NotFound)),
            },
            Pending::DeleteLookup => match found {
                Some(row) => Step::Ask(Query::Delete(row.id), Pending::DeleteRemoval),
                None => Step::Done(Err(ServiceError::NotFound)),
            },
            _ => unexpected(),
        },
        Answer::FoundAll(rows) => match pending {
            Pending::List => Step::Done(Ok(Outcome::Listed(rows))),
            _ => unexpected(),
        },
        Answer::Updated(row) => match pending {
            Pending::UpdateWrite => Step::Done(Ok(Outcome::Updated(row))),
            _ => unexpected(),
        },
        Answer::Deleted => match pending {
            Pending::DeleteRemoval => Step::Done(Ok(Outcome::Deleted)),
            _ => unexpected(),
        },
    }
}

} // verus!
