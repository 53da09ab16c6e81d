//! What each operation of the service comes to on a table.
//!
//! The service never touches the table: it says what to ask of it. Here the
//! two are put together. [`runs`] follows an operation through the answers of
//! a table; [`owed`] says how each operation has to end and what the table
//! has to hold afterwards; [`ends_as_owed`] proves that every run ends so,
//! and [`every_operation_has_a_run`] that there are runs to speak of.
//!
//! The queries of one operation are taken to reach the table one after the
//! other with nothing in between. When two clients are served at once their
//! queries may interleave; what then still holds of the second query of an
//! update or a delete is proved in [`write_on_a_changed_table`] and
//! [`removal_on_a_changed_table`].

use crate::entity::{ModelView, TodoPayloadView};
use crate::service::{
    next_step, AnswerView, Ending, OutcomeView, PendingView, QueryView, ServiceErrorView, StepView,
};
use crate::table::{answers, every_query_has_an_answer, lists, lookup, well_formed, Table};
use vstd::prelude::*;

verus! {

/// One of the five operations, with what it is given.
pub enum Operation {
    /// Store a new todo with the fields of the payload.
    Create(TodoPayloadView),
    /// Look the todo with this id up.
    Get(int),
    /// Hand out every todo.
    List,
    /// Replace both fields of the todo with this id by those of the payload.
    Update(int, TodoPayloadView),
    /// Remove the todo with this id.
    Delete(int),
}

impl Operation {
    /// The step with which the service takes the operation up. Create asks
    /// for the insert, get and list for what they return; update and delete
    /// ask for the row first.
    pub open spec fn first_step(self) -> StepView {
        match self {
            Operation::Create(data) => StepView::Ask(QueryView::Insert(data), PendingView::Create),
            Operation::Get(id) => StepView::Ask(QueryView::FindById(id), PendingView::Get),
            Operation::List => StepView::Ask(QueryView::FindAll, PendingView::List),
            Operation::Update(id, data) => StepView::Ask(
                QueryView::FindById(id),
                PendingView::UpdateLookup(data),
            ),
            Operation::Delete(id) => StepView::Ask(
                QueryView::FindById(id),
                PendingView::DeleteLookup,
            ),
        }
    }
}

/// The operation that stands at `step` can end with `ending` when the table
/// holds `before`, gives `replies` to the queries of the operation, one after
/// the other, and holds `after` when the operation is over.
pub open spec fn runs(
    step: StepView,
    before: Table,
    replies: Seq<AnswerView>,
    ending: Ending,
    after: Table,
) -> bool
    decreases replies.len(),
{
    match step {
        StepView::Done(result) => replies.len() == 0 && ending == result && after == before,
        StepView::Ask(query, pending) => {
            &&& replies.len() > 0
            &&& exists|between: Table|
                {
                    &&& #[trigger] answers(before, query, replies[0], between)
                    &&& runs(
                        next_step(pending, replies[0]),
                        between,
                        replies.drop_first(),
                        ending,
                        after,
                    )
                }
        },
    }
}

/// The table failed at one of its replies.
pub open spec fn failed(replies: Seq<AnswerView>) -> bool {
    exists|i: int| 0 <= i < replies.len() && #[trigger] replies[i] is Failed
}

/// How `operation` has to end on a table that holds `before` and gives
/// `replies`, and what the table has to hold afterwards.
///
/// - If the table failed, the operation ends with the table's failure and
///   nothing has changed.
/// - Otherwise create ends with a record that has the fields of the payload
///   and an id that was not in use, and the table holds that record besides
///   what it held.
/// - Get ends with the row of that id, or with `None` where there is none;
///   list ends with every row. Neither changes anything.
/// - Update and delete of an id that the table does not hold end with
///   `NotFound` and change nothing.
/// - Update of an id that the table holds ends with the record that has this
///   id and both fields of the payload, and the table holds that record in
///   place of the old one.
/// - Delete of an id that the table holds ends without a value, and the
///   table holds every other row and not this one.
pub open spec fn owed(
    operation: Operation,
    before: Table,
    replies: Seq<AnswerView>,
    ending: Ending,
    after: Table,
) -> bool {
    if failed(replies) {
        &&& replies.last() matches AnswerView::Failed(detail)
        &&& ending == Err::<OutcomeView, ServiceErrorView>(ServiceErrorView::DbErr(detail))
        &&& after == before
    } else {
        match operation {
            Operation::Create(data) => {
                &&& ending matches Ok(OutcomeView::Created(row))
                &&& !before.contains_key(row.id)
                &&& row == data.stored_as(row.id)
                &&& after == before.insert(row.id, row)
            },
            Operation::Get(id) => {
                &&& ending == Ok::<OutcomeView, ServiceErrorView>(
                    OutcomeView::Fetched(lookup(before, id)),
                )
                &&& after == before
            },
            Operation::List => {
                &&& ending matches Ok(OutcomeView::Listed(rows))
                &&& lists(before, rows)
                &&& after == before
            },
            Operation::Update(id, data) => if before.contains_key(id) {
                &&& ending == Ok::<OutcomeView, ServiceErrorView>(
                    OutcomeView::Updated(data.stored_as(id)),
                )
                &&& after == before.insert(id, data.stored_as(id))
            } else {
                &&& ending == Err::<OutcomeView, ServiceErrorView>(ServiceErrorView::NotFound)
                &&& after == before
            },
            Operation::Delete(id) => if before.contains_key(id) {
                &&& ending == Ok::<OutcomeView, ServiceErrorView>(OutcomeView::Deleted)
                &&& after == before.remove(id)
            } else {
                &&& ending == Err::<OutcomeView, ServiceErrorView>(ServiceErrorView::NotFound)
                &&& after == before
            },
        }
    }
}

/// Every run of `step` on a well-formed table ends as `operation` has to.
pub open spec fn carries_out(step: StepView, operation: Operation) -> bool {
    forall|before: Table, replies: Seq<AnswerView>, ending: Ending, after: Table|
        well_formed(before) && #[trigger] runs(step, before, replies, ending, after) ==> owed(
            operation,
            before,
            replies,
            ending,
            after,
        )
}

/// An operation that the service took up ends as it has to, and leaves the
/// table well formed.
pub proof fn ends_as_owed(
    operation: Operation,
    before: Table,
    replies: Seq<AnswerView>,
    ending: Ending,
    after: Table,
)
    requires
        well_formed(before),
        runs(operation.first_step(), before, replies, ending, after),
    ensures
        owed(operation, before, replies, ending, after),
        well_formed(after),
        replies.len() == 1 || replies.len() == 2,
{
    reveal_with_fuel(runs, 3);
    if ending is Err && ending->Err_0 is DbErr {
        assert(replies.last() is Failed);
    } else {
        assert(!failed(replies));
    }
}

/// The first step of an operation carries the operation out.
pub proof fn first_step_carries_out(operation: Operation)
    ensures
        carries_out(operation.first_step(), operation),
{
    assert forall|before: Table, replies: Seq<AnswerView>, ending: Ending, after: Table|
        well_formed(before) && #[trigger] runs(
            operation.first_step(),
            before,
            replies,
            ending,
            after,
        ) implies owed(operation, before, replies, ending, after) by {
        ends_as_owed(operation, before, replies, ending, after);
    }
}

/// Every operation is over after one answer of the table, or after two,
/// whatever the table answers.
pub proof fn every_operation_ends(operation: Operation, first: AnswerView, second: AnswerView)
    ensures
        operation.first_step() matches StepView::Ask(_, pending) && match next_step(
            pending,
            first,
        ) {
            StepView::Done(_) => true,
            StepView::Ask(_, then) => {
                &&& operation is Update || operation is Delete
                &&& first matches AnswerView::Found(Some(_))
                &&& next_step(then, second) is Done
            },
        },
{
}

/// A table that answers as a table may takes every operation to its end:
/// with its first answer, or with its second.
pub proof fn answers_take_an_operation_to_its_end(
    operation: Operation,
    before: Table,
    first: AnswerView,
    between: Table,
    second: AnswerView,
    after: Table,
)
    requires
        operation.first_step() matches StepView::Ask(query, pending) && {
            &&& answers(before, query, first, between)
            &&& next_step(pending, first) matches StepView::Ask(then, _) ==> answers(
                between,
                then,
                second,
                after,
            )
        },
    ensures
        operation.first_step() matches StepView::Ask(_, pending) && match next_step(
            pending,
            first,
        ) {
            StepView::Done(ending) => runs(
                operation.first_step(),
                before,
                seq![first],
                ending,
                between,
            ),
            StepView::Ask(_, waiting) => {
                &&& next_step(waiting, second) matches StepView::Done(ending)
                &&& runs(operation.first_step(), before, seq![first, second], ending, after)
            },
        },
{
    reveal_with_fuel(runs, 3);
    let pending = operation.first_step()->Ask_1;
    match next_step(pending, first) {
        StepView::Done(ending) => {
            assert(seq![first].drop_first() =~= Seq::<AnswerView>::empty());
            assert(runs(StepView::Done(ending), between, seq![first].drop_first(), ending, between));
        },
        StepView::Ask(then, waiting) => {
            let ending = next_step(waiting, second)->Done_0;
            assert(seq![first, second].drop_first() =~= seq![second]);
            assert(seq![second].drop_first() =~= Seq::<AnswerView>::empty());
            assert(runs(StepView::Done(ending), after, seq![second].drop_first(), ending, after));
            assert(runs(StepView::Ask(then, waiting), between, seq![second], ending, after));
        },
    }
}

/// On every table every operation has a run at which the table does not
/// fail.
pub proof fn every_operation_has_a_run(operation: Operation, before: Table) -> (run: (
    Seq<AnswerView>,
    Ending,
    Table,
))
    requires
        well_formed(before),
    ensures
        runs(operation.first_step(), before, run.0, run.1, run.2),
        !failed(run.0),
{
    let query = operation.first_step()->Ask_0;
    let pending = operation.first_step()->Ask_1;
    let (first, between) = every_query_has_an_answer(before, query);
    match next_step(pending, first) {
        StepView::Done(ending) => {
            answers_take_an_operation_to_its_end(operation, before, first, between, first, between);
            let replies = seq![first];
            assert(!failed(replies)) by {
                assert(replies[0] == first);
            }
            (replies, ending, between)
        },
        StepView::Ask(then, waiting) => {
            let (second, after) = every_query_has_an_answer(between, then);
            answers_take_an_operation_to_its_end(operation, before, first, between, second, after);
            let replies = seq![first, second];
            assert(!failed(replies)) by {
                assert(replies[0] == first);
                assert(replies[1] == second);
            }
            (replies, next_step(waiting, second)->Done_0, after)
        },
    }
}

/// The write of an update, on a table that may have changed since the lookup
/// found `row`: the update ends with the record as written, or with the
/// table's failure. Where the row is gone the table fails, and the update
/// ends with that failure: the row's absence is neither passed over nor
/// reported as `NotFound`.
pub proof fn write_on_a_changed_table(
    row: ModelView,
    data: TodoPayloadView,
    now: Table,
    reply: AnswerView,
    ending: Ending,
    after: Table,
)
    requires
        runs(
            next_step(PendingView::UpdateLookup(data), AnswerView::Found(Some(row))),
            now,
            seq![reply],
            ending,
            after,
        ),
    ensures
        reply is Failed <==> ending is Err,
        ending matches Err(error) ==> error == ServiceErrorView::DbErr(reply->Failed_0) && after
            == now,
        ending matches Ok(outcome) ==> {
            &&& now.contains_key(row.id)
            &&& outcome == OutcomeView::Updated(data.stored_as(row.id))
            &&& after == now.insert(row.id, data.stored_as(row.id))
        },
        !now.contains_key(row.id) ==> ending is Err,
{
    reveal_with_fuel(runs, 3);
}

/// The removal of a delete, on a table that may have changed since the lookup
/// found `row`: the delete ends without a value and the row is not in the
/// table, whether this delete removed it or another did; or it ends with the
/// table's failure.
pub proof fn removal_on_a_changed_table(
    row: ModelView,
    now: Table,
    reply: AnswerView,
    ending: Ending,
    after: Table,
)
    requires
        runs(
            next_step(PendingView::DeleteLookup, AnswerView::Found(Some(row))),
            now,
            seq![reply],
            ending,
            after,
        ),
    ensures
        reply is Failed <==> ending is Err,
        ending matches Err(error) ==> error == ServiceErrorView::DbErr(reply->Failed_0) && after
            == now,
        ending matches Ok(outcome) ==> outcome == OutcomeView::Deleted && after == now.remove(
            row.id,
        ),
{
    reveal_with_fuel(runs, 3);
}

} // verus!
