//! What a client may count on, for every table that behaves as
//! [`answers`](crate::table::answers) says.
//!
//! [`serves`] says which responses a request can get from a given table and
//! what the table holds afterwards. The proofs below say what follows for
//! each of the five requests, alone and in sequence.
//!
//! A table may fail at any query. A request at which it fails is answered
//! with 500 and changes nothing, see [`failure_is_answered_with_500`]. Every
//! other proof speaks of the requests at which the table did not fail.
//!
//! Requests are taken one after the other: the table that one request leaves
//! is the table that the next one finds.

use crate::entity::{ModelView, TodoPayloadView};
use crate::handler::{completes, exchange_of, response_to, BodyView, ResponseView};
use crate::operation::{ends_as_owed, failed, owed, runs, Operation};
use crate::service::{AnswerView, Ending};
use crate::table::{empty, listing_has_every_row_once, lists, well_formed, Table};
use vstd::prelude::*;

verus! {

/// A table that holds `before` can serve the request for `operation` with
/// `response`, giving `replies` to the queries that the request leads to, and
/// then holds `after`.
pub open spec fn serves(
    before: Table,
    operation: Operation,
    replies: Seq<AnswerView>,
    response: ResponseView,
    after: Table,
) -> bool {
    completes(exchange_of(operation.first_step()), before, replies, response, after)
}

/// The response to a request for a todo that does not exist.
pub open spec fn not_found() -> ResponseView {
    ResponseView { status: 404, body: BodyView::Empty }
}

/// The response with which a record is sent.
pub open spec fn record(status: int, row: ModelView) -> ResponseView {
    ResponseView { status, body: BodyView::Todo(row) }
}

/// The response that acknowledges a removal.
pub open spec fn no_content() -> ResponseView {
    ResponseView { status: 204, body: BodyView::Empty }
}

/// The ending behind a response: the request was served as the operation
/// has to end.
proof fn served_as_owed(
    before: Table,
    operation: Operation,
    replies: Seq<AnswerView>,
    response: ResponseView,
    after: Table,
) -> (ending: Ending)
    requires
        well_formed(before),
        serves(before, operation, replies, response, after),
    ensures
        owed(operation, before, replies, ending, after),
        response == response_to(ending),
        well_formed(after),
{
    let ending = choose|ending: Ending| #[trigger]
        runs(operation.first_step(), before, replies, ending, after) && response == response_to(
            ending,
        );
    ends_as_owed(operation, before, replies, ending, after);
    ending
}

/// Serving a request leaves the table well formed.
pub proof fn serving_keeps_well_formed(
    before: Table,
    operation: Operation,
    replies: Seq<AnswerView>,
    response: ResponseView,
    after: Table,
)
    requires
        well_formed(before),
        serves(before, operation, replies, response, after),
    ensures
        well_formed(after),
{
    reveal_with_fuel(runs, 3);
}

/// A request is answered with 500 if the table failed at one of its queries,
/// and only then. The body then holds the table's words after
/// `Database error: `, and the table is left as it was.
pub proof fn failure_is_answered_with_500(
    before: Table,
    operation: Operation,
    replies: Seq<AnswerView>,
    response: ResponseView,
    after: Table,
)
    requires
        serves(before, operation, replies, response, after),
    ensures
        response.status == 500 <==> failed(replies),
        response.status == 500 ==> {
            &&& replies.last() matches AnswerView::Failed(detail)
            &&& response.body == BodyView::Error("Database error: "@ + detail)
            &&& after == before
        },
{
    reveal_with_fuel(runs, 3);
    if response.status == 500 {
        assert(replies.last() is Failed);
    } else {
        assert(!failed(replies));
    }
}

/// A request that is answered with 404 has changed nothing.
pub proof fn not_found_changes_nothing(
    before: Table,
    operation: Operation,
    replies: Seq<AnswerView>,
    response: ResponseView,
    after: Table,
)
    requires
        serves(before, operation, replies, response, after),
        response.status == 404,
    ensures
        response == not_found(),
        after == before,
{
    reveal_with_fuel(runs, 3);
}

/// Looking up and listing change nothing.
pub proof fn reading_changes_nothing(
    before: Table,
    operation: Operation,
    replies: Seq<AnswerView>,
    response: ResponseView,
    after: Table,
)
    requires
        serves(before, operation, replies, response, after),
        operation is Get || operation is List,
    ensures
        after == before,
{
    reveal_with_fuel(runs, 3);
}

/// Creating a todo is answered with 201 and a record that has the fields of
/// the payload and an id that the table did not hold; afterwards the table
/// holds that record besides what it held.
pub proof fn create_stores_the_payload_under_a_new_id(
    before: Table,
    data: TodoPayloadView,
    replies: Seq<AnswerView>,
    response: ResponseView,
    after: Table,
)
    requires
        serves(before, Operation::Create(data), replies, response, after),
        !failed(replies),
    ensures
        response.status == 201,
        response.body matches BodyView::Todo(row) && {
            &&& !before.contains_key(row.id)
            &&& row == data.stored_as(row.id)
            &&& after == before.insert(row.id, row)
        },
{
    reveal_with_fuel(runs, 3);
    assert(!(replies[0] is Failed));
}

/// A lookup of an id that the table does not hold is answered with 404 and no
/// body.
pub proof fn get_of_an_absent_id_is_not_found(
    before: Table,
    id: int,
    replies: Seq<AnswerView>,
    response: ResponseView,
    after: Table,
)
    requires
        !before.contains_key(id),
        serves(before, Operation::Get(id), replies, response, after),
        !failed(replies),
    ensures
        response == not_found(),
{
    reveal_with_fuel(runs, 3);
    assert(!(replies[0] is Failed));
}

/// A lookup of an id that the table holds is answered with 200 and the row.
pub proof fn get_of_a_stored_id_returns_the_row(
    before: Table,
    id: int,
    replies: Seq<AnswerView>,
    response: ResponseView,
    after: Table,
)
    requires
        before.contains_key(id),
        serves(before, Operation::Get(id), replies, response, after),
        !failed(replies),
    ensures
        response == record(200, before[id]),
{
    reveal_with_fuel(runs, 3);
    assert(!(replies[0] is Failed));
}

/// The list of a table is answered with 200 and every row of the table, each
/// once: as many records as the table has rows.
pub proof fn list_returns_every_row(
    before: Table,
    replies: Seq<AnswerView>,
    response: ResponseView,
    after: Table,
)
    requires
        well_formed(before),
        serves(before, Operation::List, replies, response, after),
        !failed(replies),
    ensures
        response.status == 200,
        response.body matches BodyView::Todos(rows) && {
            &&& lists(before, rows)
            &&& rows.len() == before.dom().len()
            &&& rows.no_duplicates()
        },
{
    reveal_with_fuel(runs, 3);
    assert(!(replies[0] is Failed));
    let rows = response.body->Todos_0;
    listing_has_every_row_once(before, rows);
}

/// The list of the empty table is answered with 200 and an empty array.
pub proof fn list_of_the_empty_table_is_empty(
    replies: Seq<AnswerView>,
    response: ResponseView,
    after: Table,
)
    requires
        serves(empty(), Operation::List, replies, response, after),
        !failed(replies),
    ensures
        response == (ResponseView { status: 200, body: BodyView::Todos(Seq::empty()) }),
{
    list_returns_every_row(empty(), replies, response, after);
    let rows = response.body->Todos_0;
    assert(rows =~= Seq::empty());
}

/// Replacing a todo that the table holds is answered with 200 and the record
/// that has the id of the request and both fields of the payload; the table
/// then holds that record in place of the old one, whatever the old one held.
pub proof fn update_replaces_both_fields(
    before: Table,
    id: int,
    data: TodoPayloadView,
    replies: Seq<AnswerView>,
    response: ResponseView,
    after: Table,
)
    requires
        well_formed(before),
        before.contains_key(id),
        serves(before, Operation::Update(id, data), replies, response, after),
        !failed(replies),
    ensures
        response == record(200, data.stored_as(id)),
        after == before.insert(id, data.stored_as(id)),
{
    served_as_owed(before, Operation::Update(id, data), replies, response, after);
}

/// Replacing a todo that the table does not hold is answered with 404, and
/// the table is left as it was: no row is created on the way.
pub proof fn update_of_an_absent_id_is_not_found(
    before: Table,
    id: int,
    data: TodoPayloadView,
    replies: Seq<AnswerView>,
    response: ResponseView,
    after: Table,
)
    requires
        well_formed(before),
        !before.contains_key(id),
        serves(before, Operation::Update(id, data), replies, response, after),
        !failed(replies),
    ensures
        response == not_found(),
        after == before,
{
    served_as_owed(before, Operation::Update(id, data), replies, response, after);
}

/// Removing a todo that the table holds is answered with 204 and no body, and
/// the table then holds every other row and not this one.
pub proof fn delete_removes_the_row(
    before: Table,
    id: int,
    replies: Seq<AnswerView>,
    response: ResponseView,
    after: Table,
)
    requires
        well_formed(before),
        before.contains_key(id),
        serves(before, Operation::Delete(id), replies, response, after),
        !failed(replies),
    ensures
        response == no_content(),
        after == before.remove(id),
{
    served_as_owed(before, Operation::Delete(id), replies, response, after);
}

/// Removing a todo that the table does not hold is answered with 404, and the
/// table is left as it was.
pub proof fn delete_of_an_absent_id_is_not_found(
    before: Table,
    id: int,
    replies: Seq<AnswerView>,
    response: ResponseView,
    after: Table,
)
    requires
        well_formed(before),
        !before.contains_key(id),
        serves(before, Operation::Delete(id), replies, response, after),
        !failed(replies),
    ensures
        response == not_found(),
        after == before,
{
    served_as_owed(before, Operation::Delete(id), replies, response, after);
}

/// After a todo was replaced, a lookup returns the new fields and nothing of
/// the old ones, whether one field changed or both.
pub proof fn get_after_update_returns_the_new_fields(
    before: Table,
    id: int,
    data: TodoPayloadView,
    update_replies: Seq<AnswerView>,
    updated: ResponseView,
    between: Table,
    get_replies: Seq<AnswerView>,
    fetched: ResponseView,
    after: Table,
)
    requires
        well_formed(before),
        serves(before, Operation::Update(id, data), update_replies, updated, between),
        updated.status == 200,
        serves(between, Operation::Get(id), get_replies, fetched, after),
        !failed(get_replies),
    ensures
        updated == record(200, data.stored_as(id)),
        fetched == updated,
{
    served_as_owed(before, Operation::Update(id, data), update_replies, updated, between);
    get_of_a_stored_id_returns_the_row(between, id, get_replies, fetched, after);
}

/// After a todo was removed, a lookup of its id is answered with 404.
pub proof fn get_after_delete_is_not_found(
    before: Table,
    id: int,
    delete_replies: Seq<AnswerView>,
    deleted: ResponseView,
    between: Table,
    get_replies: Seq<AnswerView>,
    fetched: ResponseView,
    after: Table,
)
    requires
        well_formed(before),
        serves(before, Operation::Delete(id), delete_replies, deleted, between),
        deleted.status == 204,
        serves(between, Operation::Get(id), get_replies, fetched, after),
        !failed(get_replies),
    ensures
        fetched == not_found(),
{
    served_as_owed(before, Operation::Delete(id), delete_replies, deleted, between);
    get_of_an_absent_id_is_not_found(between, id, get_replies, fetched, after);
}

/// Removing a todo a second time is answered with 404: the status tells the
/// two removals apart, the table after them is the same.
pub proof fn delete_after_delete_is_not_found(
    before: Table,
    id: int,
    first_replies: Seq<AnswerView>,
    first: ResponseView,
    between: Table,
    second_replies: Seq<AnswerView>,
    second: ResponseView,
    after: Table,
)
    requires
        well_formed(before),
        serves(before, Operation::Delete(id), first_replies, first, between),
        first.status == 204,
        serves(between, Operation::Delete(id), second_replies, second, after),
        !failed(second_replies),
    ensures
        second == not_found(),
        after == between,
{
    served_as_owed(before, Operation::Delete(id), first_replies, first, between);
    delete_of_an_absent_id_is_not_found(between, id, second_replies, second, after);
}

/// A lookup of the id that a creation returned is answered with the very
/// record that the creation was answered with, under 200 in place of 201.
pub proof fn get_after_create_returns_the_created_record(
    before: Table,
    data: TodoPayloadView,
    create_replies: Seq<AnswerView>,
    created: ResponseView,
    between: Table,
    get_replies: Seq<AnswerView>,
    fetched: ResponseView,
    after: Table,
)
    requires
        serves(before, Operation::Create(data), create_replies, created, between),
        created.status == 201,
        serves(between, Operation::Get(created.body->Todo_0.id), get_replies, fetched, after),
        !failed(get_replies),
    ensures
        fetched.status == 200,
        fetched.body == created.body,
{
    failure_is_answered_with_500(before, Operation::Create(data), create_replies, created, between);
    create_stores_the_payload_under_a_new_id(before, data, create_replies, created, between);
    get_of_a_stored_id_returns_the_row(
        between,
        created.body->Todo_0.id,
        get_replies,
        fetched,
        after,
    );
}

/// One request as it was served.
pub struct Served {
    pub operation: Operation,
    pub replies: Seq<AnswerView>,
    pub response: ResponseView,
}

impl Served {
    /// The request created a todo.
    pub open spec fn created_a_todo(self) -> bool {
        self.operation is Create && self.response.status == 201
    }

    /// The request created the todo with this id.
    pub open spec fn created(self, id: int) -> bool {
        &&& self.created_a_todo()
        &&& self.response.body matches BodyView::Todo(row)
        &&& row.id == id
    }
}

/// `served` is everything that was asked of a table since it was empty, in
/// order: the table held `tables[i]` when `served[i]` came in, and it holds
/// the last of `tables` now.
pub open spec fn history(served: Seq<Served>, tables: Seq<Table>) -> bool {
    &&& tables.len() == served.len() + 1
    &&& tables[0] == empty()
    &&& forall|i: int|
        0 <= i < served.len() ==> serves(
            tables[i],
            (#[trigger] served[i]).operation,
            served[i].replies,
            served[i].response,
            tables[i + 1],
        )
}

/// Every row that a table holds was returned by a creation, and the table is
/// well formed.
pub proof fn every_row_was_created(served: Seq<Served>, tables: Seq<Table>)
    requires
        history(served, tables),
    ensures
        well_formed(tables.last()),
        forall|id: int| #[trigger]
            tables.last().contains_key(id) ==> exists|i: int|
                0 <= i < served.len() && (#[trigger] served[i]).created(id),
    decreases served.len(),
{
    if served.len() > 0 {
        let earlier = served.drop_last();
        let held = tables.drop_last();
        assert forall|i: int| 0 <= i < earlier.len() implies serves(
            held[i],
            (#[trigger] earlier[i]).operation,
            earlier[i].replies,
            earlier[i].response,
            held[i + 1],
        ) by {
            assert(earlier[i] == served[i]);
        }
        every_row_was_created(earlier, held);
        let last = served.last();
        let before = held.last();
        let after = tables.last();
        assert(before == tables[served.len() - 1]);
        assert(last == served[served.len() - 1]);
        assert(serves(before, last.operation, last.replies, last.response, after));
        reveal_with_fuel(runs, 3);
        assert forall|id: int| #[trigger] after.contains_key(id) implies exists|i: int|
            0 <= i < served.len() && (#[trigger] served[i]).created(id) by {
            if before.contains_key(id) {
                let i = choose|i: int| 0 <= i < earlier.len() && (#[trigger] earlier[i]).created(id);
                assert(served[i].created(id));
            } else {
                assert(last.created(id));
            }
        }
    }
}

/// A lookup of an id that no creation has returned so far is answered with
/// 404.
pub proof fn get_of_an_id_never_created_is_not_found(
    served: Seq<Served>,
    tables: Seq<Table>,
    id: int,
    replies: Seq<AnswerView>,
    response: ResponseView,
    after: Table,
)
    requires
        history(served, tables),
        forall|i: int| 0 <= i < served.len() ==> !(#[trigger] served[i]).created(id),
        serves(tables.last(), Operation::Get(id), replies, response, after),
        !failed(replies),
    ensures
        response == not_found(),
{
    every_row_was_created(served, tables);
    get_of_an_absent_id_is_not_found(tables.last(), id, replies, response, after);
}

/// When every request so far created a todo, the table holds the records
/// that these requests were answered with and no others, and no two of them
/// have the same id.
proof fn creations_fill_the_table(served: Seq<Served>, tables: Seq<Table>)
    requires
        history(served, tables),
        forall|i: int| 0 <= i < served.len() ==> (#[trigger] served[i]).created_a_todo(),
    ensures
        well_formed(tables.last()),
        tables.last().dom().len() == served.len(),
        forall|i: int|
            0 <= i < served.len() ==> {
                &&& (#[trigger] served[i]).response.body matches BodyView::Todo(row)
                &&& tables.last().contains_key(row.id)
                &&& tables.last()[row.id] == row
            },
    decreases served.len(),
{
    if served.len() > 0 {
        let earlier = served.drop_last();
        let held = tables.drop_last();
        assert forall|i: int| 0 <= i < earlier.len() implies serves(
            held[i],
            (#[trigger] earlier[i]).operation,
            earlier[i].replies,
            earlier[i].response,
            held[i + 1],
        ) && earlier[i].created_a_todo() by {
            assert(earlier[i] == served[i]);
        }
        creations_fill_the_table(earlier, held);
        let last = served.last();
        let before = held.last();
        let after = tables.last();
        assert(before == tables[served.len() - 1]);
        assert(last == served[served.len() - 1]);
        assert(serves(before, last.operation, last.replies, last.response, after));
        reveal_with_fuel(runs, 3);
        let row = last.response.body->Todo_0;
        assert(after == before.insert(row.id, row));
        assert forall|i: int| 0 <= i < served.len() implies {
            &&& (#[trigger] served[i]).response.body matches BodyView::Todo(row)
            &&& after.contains_key(row.id)
            &&& after[row.id] == row
        } by {
            if i < earlier.len() {
                assert(earlier[i] == served[i]);
            }
        }
    }
}

/// The records with which `served` were answered, in order, where each of
/// them created a todo.
pub open spec fn created_records(served: Seq<Served>) -> Seq<ModelView> {
    served.map_values(|one: Served| one.response.body->Todo_0)
}

/// After `n` todos were created in an empty table and nothing else was asked
/// of it, the list is answered with an array of length `n` that holds the
/// records with which the creations were answered: each of them, each once,
/// and nothing else. Their order is the table's choice.
pub proof fn list_after_creations_returns_the_created_records(
    served: Seq<Served>,
    tables: Seq<Table>,
    replies: Seq<AnswerView>,
    response: ResponseView,
    after: Table,
)
    requires
        history(served, tables),
        forall|i: int| 0 <= i < served.len() ==> (#[trigger] served[i]).created_a_todo(),
        serves(tables.last(), Operation::List, replies, response, after),
        !failed(replies),
    ensures
        response.status == 200,
        response.body matches BodyView::Todos(rows) && {
            &&& rows.len() == served.len()
            &&& rows.no_duplicates()
            &&& forall|row: ModelView|
                rows.contains(row) <==> created_records(served).contains(row)
        },
{
    let table = tables.last();
    let created = created_records(served);
    creations_fill_the_table(served, tables);
    every_row_was_created(served, tables);
    list_returns_every_row(table, replies, response, after);
    let rows = response.body->Todos_0;
    listing_has_every_row_once(table, rows);
    assert forall|row: ModelView| rows.contains(row) implies created.contains(row) by {
        let j = choose|j: int| 0 <= j < rows.len() && rows[j] == row;
        assert(table.contains_key(rows[j].id));
        let i = choose|i: int| 0 <= i < served.len() && (#[trigger] served[i]).created(row.id);
        assert(created[i] == row);
    }
    assert forall|row: ModelView| created.contains(row) implies rows.contains(row) by {
        let i = choose|i: int| 0 <= i < created.len() && created[i] == row;
        assert(served[i].created_a_todo());
        assert(rows.contains(table[row.id]));
    }
}

} // verus!
