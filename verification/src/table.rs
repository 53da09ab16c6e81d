//! The table of todos, as far as the service relies on it.
//!
//! The table itself is kept by a database outside this library. What is
//! written down here is the behaviour that the service counts on: which
//! answers a table may give to a query, and what it holds afterwards. The
//! guarantees of this library are stated for every table that behaves so.

use crate::entity::ModelView;
use crate::service::{AnswerView, QueryView};
use vstd::prelude::*;

verus! {

/// What a table holds: each row under its id.
pub type Table = Map<int, ModelView>;

/// The table without rows.
pub open spec fn empty() -> Table {
    Map::<int, ModelView>::empty()
}

/// A table holds finitely many rows, and each row under its own id.
pub open spec fn well_formed(table: Table) -> bool {
    &&& table.dom().finite()
    &&& forall|id: int| #[trigger] table.contains_key(id) ==> table[id].id == id
}

/// The row with this id, if the table holds one.
pub open spec fn lookup(table: Table, id: int) -> Option<ModelView> {
    if table.contains_key(id) {
        Some(table[id])
    } else {
        None
    }
}

/// The ids of `rows`, in their order.
pub open spec fn ids(rows: Seq<ModelView>) -> Seq<int> {
    rows.map_values(|row: ModelView| row.id)
}

/// `rows` is a listing of `table`: every row of the table, each once, in any
/// order.
pub open spec fn lists(table: Table, rows: Seq<ModelView>) -> bool {
    &&& ids(rows).no_duplicates()
    &&& ids(rows).to_set() == table.dom()
    &&& forall|i: int| 0 <= i < rows.len() ==> table[(#[trigger] rows[i]).id] == rows[i]
}

/// A table that holds `before` may give `answer` to `query`, and then holds
/// `after`.
///
/// - Any query may fail, and a query that fails changes nothing.
/// - An insert stores the payload under an id that was not in use, and
///   answers with the stored row.
/// - A lookup answers with the row of that id, or with `None`.
/// - A listing answers with every row.
/// - An update overwrites the row that has the id of the row handed in, and
///   answers with the stored row; where there is no such row it fails.
/// - A delete removes the row of that id, if there is one.
pub open spec fn answers(before: Table, query: QueryView, answer: AnswerView, after: Table) -> bool {
    match answer {
        AnswerView::Failed(_) => after == before,
        AnswerView::Inserted(row) => {
            &&& query matches QueryView::Insert(data)
            &&& !before.contains_key(row.id)
            &&& row == data.stored_as(row.id)
            &&& after == before.insert(row.id, row)
        },
        AnswerView::Found(found) => {
            &&& query matches QueryView::FindById(id)
            &&& found == lookup(before, id)
            &&& after == before
        },
        AnswerView::FoundAll(rows) => {
            &&& query is FindAll
            &&& lists(before, rows)
            &&& after == before
        },
        AnswerView::Updated(row) => {
            &&& query matches QueryView::Update(wanted)
            &&& before.contains_key(wanted.id)
            &&& row == wanted
            &&& after == before.insert(row.id, row)
        },
        AnswerView::Deleted => {
            &&& query matches QueryView::Delete(id)
            &&& after == before.remove(id)
        },
    }
}

/// Whatever a table answers, it stays well formed.
pub proof fn answers_keeps_well_formed(
    before: Table,
    query: QueryView,
    answer: AnswerView,
    after: Table,
)
    requires
        well_formed(before),
        answers(before, query, answer, after),
    ensures
        well_formed(after),
{
}

/// A listing of a table has as many rows as the table.
pub proof fn listing_has_every_row_once(table: Table, rows: Seq<ModelView>)
    requires
        well_formed(table),
        lists(table, rows),
    ensures
        rows.len() == table.dom().len(),
        rows.no_duplicates(),
        forall|id: int| table.contains_key(id) ==> rows.contains(#[trigger] table[id]),
        forall|i: int| 0 <= i < rows.len() ==> table.contains_key(#[trigger] rows[i].id),
{
    ids(rows).unique_seq_to_set();
    assert forall|id: int| table.contains_key(id) implies rows.contains(#[trigger] table[id]) by {
        assert(ids(rows).to_set().contains(id));
        let i = choose|i: int| 0 <= i < ids(rows).len() && ids(rows)[i] == id;
        assert(rows[i].id == id);
        assert(rows[i] == table[id]);
    }
    assert forall|i: int| 0 <= i < rows.len() implies table.contains_key(#[trigger] rows[i].id) by {
        assert(ids(rows)[i] == rows[i].id);
        assert(ids(rows).to_set().contains(rows[i].id));
    }
    assert forall|i: int, j: int| 0 <= i < rows.len() && 0 <= j < rows.len() && i != j implies rows[i]
        != rows[j] by {
        assert(ids(rows)[i] == rows[i].id);
        assert(ids(rows)[j] == rows[j].id);
    }
}

/// A set of ids listed in some order has as many entries as the set has
/// elements.
proof fn listed_ids_are_as_many(held: Set<int>)
    requires
        held.finite(),
    ensures
        held.to_seq().len() == held.len(),
    decreases held.len(),
{
    if held.len() > 0 {
        let id = held.choose();
        listed_ids_are_as_many(held.remove(id));
    }
}

/// Every table has a listing.
pub proof fn every_table_has_a_listing(table: Table) -> (rows: Seq<ModelView>)
    requires
        well_formed(table),
    ensures
        lists(table, rows),
{
    let held = table.dom();
    let order = held.to_seq();
    let rows = order.map_values(|id: int| table[id]);
    held.lemma_to_seq_to_set_id();
    listed_ids_are_as_many(held);
    order.lemma_no_dup_set_cardinality();
    assert forall|i: int| 0 <= i < order.len() implies table.contains_key(#[trigger] order[i]) by {
        assert(order.to_set().contains(order[i]));
    }
    assert(ids(rows) =~= order);
    rows
}

/// Every table has an id to spare.
pub proof fn every_table_has_a_free_id(table: Table) -> (id: int)
    requires
        well_formed(table),
    ensures
        !table.contains_key(id),
{
    let held = table.dom();
    let above = held.len() as int + 1;
    let candidates = vstd::set_lib::set_int_range(0, above);
    vstd::set_lib::lemma_int_range(0, above);
    if candidates.subset_of(held) {
        vstd::set_lib::lemma_len_subset(candidates, held);
    }
    choose|id: int| candidates.contains(id) && !held.contains(id)
}

/// A table can see every query through: to each query it has an answer that
/// is no failure, but to an update of a row that it does not hold.
pub proof fn every_query_has_an_answer(before: Table, query: QueryView) -> (seen_through: (
    AnswerView,
    Table,
))
    requires
        well_formed(before),
        query matches QueryView::Update(wanted) ==> before.contains_key(wanted.id),
    ensures
        answers(before, query, seen_through.0, seen_through.1),
        !(seen_through.0 is Failed),
{
    match query {
        QueryView::Insert(data) => {
            let id = every_table_has_a_free_id(before);
            let row = data.stored_as(id);
            (AnswerView::Inserted(row), before.insert(id, row))
        },
        QueryView::FindById(id) => (AnswerView::Found(lookup(before, id)), before),
        QueryView::FindAll => {
            let rows = every_table_has_a_listing(before);
            (AnswerView::FoundAll(rows), before)
        },
        QueryView::Update(wanted) => (AnswerView::Updated(wanted), before.insert(wanted.id, wanted)),
        QueryView::Delete(id) => (AnswerView::Deleted, before.remove(id)),
    }
}

} // verus!
