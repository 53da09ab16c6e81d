use example_todos::entity::{Model, TodoPayload};
use example_todos::service::{
    create_todo, delete_todo, get_all_todos, get_todo_by_id, resume, update_todo, Answer, Outcome,
    Pending, Query, ServiceError, Step,
};

fn payload(title: &str, completed: bool) -> TodoPayload {
    TodoPayload { title: title.to_string(), completed }
}

fn row(id: i32, title: &str, completed: bool) -> Model {
    Model { id, title: title.to_string(), completed }
}

fn unexpected() -> Step {
    Step::Done(Err(ServiceError::DbErr("unexpected answer from the table".to_string())))
}

#[test]
fn create_asks_for_an_insert_of_the_payload() {
    assert_eq!(
        create_todo(payload("Buy milk", false)),
        Step::Ask(Query::Insert(payload("Buy milk", false)), Pending::Create)
    );
}

#[test]
fn create_ends_with_the_row_that_the_table_stored() {
    assert_eq!(
        resume(Pending::Create, Answer::Inserted(row(1, "Buy milk", false))),
        Step::Done(Ok(Outcome::Created(row(1, "Buy milk", false))))
    );
}

#[test]
fn get_asks_for_the_row_with_the_id() {
    assert_eq!(get_todo_by_id(7), Step::Ask(Query::FindById(7), Pending::Get));
    assert_eq!(get_todo_by_id(-3), Step::Ask(Query::FindById(-3), Pending::Get));
}

#[test]
fn get_ends_with_the_row_or_with_none() {
    assert_eq!(
        resume(Pending::Get, Answer::Found(Some(row(7, "Walk the dog", true)))),
        Step::Done(Ok(Outcome::Fetched(Some(row(7, "Walk the dog", true)))))
    );
    assert_eq!(
        resume(Pending::Get, Answer::Found(None)),
        Step::Done(Ok(Outcome::Fetched(None)))
    );
}

#[test]
fn list_asks_for_every_row() {
    assert_eq!(get_all_todos(), Step::Ask(Query::FindAll, Pending::List));
}

#[test]
fn list_ends_with_the_rows_in_the_order_of_the_table() {
    let rows = vec![row(2, "b", true), row(1, "a", false)];
    assert_eq!(
        resume(Pending::List, Answer::FoundAll(rows)),
        Step::Done(Ok(Outcome::Listed(vec![row(2, "b", true), row(1, "a", false)])))
    );
    assert_eq!(
        resume(Pending::List, Answer::FoundAll(Vec::new())),
        Step::Done(Ok(Outcome::Listed(Vec::new())))
    );
}

#[test]
fn update_looks_the_row_up_first() {
    assert_eq!(
        update_todo(4, payload("Buy oat milk", true)),
        Step::Ask(Query::FindById(4), Pending::UpdateLookup(payload("Buy oat milk", true)))
    );
}

#[test]
fn update_writes_both_fields_of_the_payload_over_the_row_that_was_found() {
    assert_eq!(
        resume(
            Pending::UpdateLookup(payload("Buy oat milk", true)),
            Answer::Found(Some(row(4, "Buy milk", false)))
        ),
        Step::Ask(Query::Update(row(4, "Buy oat milk", true)), Pending::UpdateWrite)
    );
}

#[test]
fn update_writes_a_field_that_did_not_change_too() {
    assert_eq!(
        resume(
            Pending::UpdateLookup(payload("Buy milk", true)),
            Answer::Found(Some(row(4, "Buy milk", false)))
        ),
        Step::Ask(Query::Update(row(4, "Buy milk", true)), Pending::UpdateWrite)
    );
}

#[test]
fn update_of_a_missing_row_is_not_found() {
    assert_eq!(
        resume(Pending::UpdateLookup(payload("Buy oat milk", true)), Answer::Found(None)),
        Step::Done(Err(ServiceError::NotFound))
    );
}

#[test]
fn update_ends_with_the_row_as_written() {
    assert_eq!(
        resume(Pending::UpdateWrite, Answer::Updated(row(4, "Buy oat milk", true))),
        Step::Done(Ok(Outcome::Updated(row(4, "Buy oat milk", true))))
    );
}

#[test]
fn delete_looks_the_row_up_first() {
    assert_eq!(delete_todo(9), Step::Ask(Query::FindById(9), Pending::DeleteLookup));
}

#[test]
fn delete_removes_the_row_that_was_found() {
    assert_eq!(
        resume(Pending::DeleteLookup, Answer::Found(Some(row(9, "Call mum", false)))),
        Step::Ask(Query::Delete(9), Pending::DeleteRemoval)
    );
}

#[test]
fn delete_of_a_missing_row_is_not_found() {
    assert_eq!(
        resume(Pending::DeleteLookup, Answer::Found(None)),
        Step::Done(Err(ServiceError::NotFound))
    );
}

#[test]
fn delete_ends_without_a_value() {
    assert_eq!(
        resume(Pending::DeleteRemoval, Answer::Deleted),
        Step::Done(Ok(Outcome::Deleted))
    );
}

#[test]
fn a_failure_of_the_table_ends_every_operation() {
    let failed = || Answer::Failed("connection lost".to_string());
    let error = || Step::Done(Err(ServiceError::DbErr("connection lost".to_string())));
    assert_eq!(resume(Pending::Create, failed()), error());
    assert_eq!(resume(Pending::Get, failed()), error());
    assert_eq!(resume(Pending::List, failed()), error());
    assert_eq!(resume(Pending::UpdateLookup(payload("x", true)), failed()), error());
    assert_eq!(resume(Pending::UpdateWrite, failed()), error());
    assert_eq!(resume(Pending::DeleteLookup, failed()), error());
    assert_eq!(resume(Pending::DeleteRemoval, failed()), error());
}

#[test]
fn a_row_that_vanished_before_the_write_is_a_failure_of_the_table() {
    assert_eq!(
        resume(Pending::UpdateWrite, Answer::Failed("None of the records are updated".to_string())),
        Step::Done(Err(ServiceError::DbErr("None of the records are updated".to_string())))
    );
}

#[test]
fn an_answer_of_the_wrong_kind_is_a_failure() {
    assert_eq!(resume(Pending::Create, Answer::Found(None)), unexpected());
    assert_eq!(resume(Pending::Create, Answer::Updated(row(1, "a", false))), unexpected());
    assert_eq!(resume(Pending::Get, Answer::Inserted(row(1, "a", false))), unexpected());
    assert_eq!(resume(Pending::Get, Answer::Deleted), unexpected());
    assert_eq!(resume(Pending::List, Answer::Found(None)), unexpected());
    assert_eq!(resume(Pending::UpdateLookup(payload("a", true)), Answer::Deleted), unexpected());
    assert_eq!(resume(Pending::UpdateWrite, Answer::Inserted(row(1, "a", false))), unexpected());
    assert_eq!(resume(Pending::UpdateWrite, Answer::Found(None)), unexpected());
    assert_eq!(resume(Pending::DeleteLookup, Answer::FoundAll(Vec::new())), unexpected());
    assert_eq!(resume(Pending::DeleteRemoval, Answer::Found(None)), unexpected());
    assert_eq!(resume(Pending::DeleteRemoval, Answer::Updated(row(1, "a", false))), unexpected());
}

#[test]
fn the_text_of_a_failure_says_database_error() {
    assert_eq!(
        ServiceError::DbErr("connection lost".to_string()).message(),
        "Database error: connection lost"
    );
    assert_eq!(ServiceError::DbErr(String::new()).message(), "Database error: ");
}

#[test]
fn the_text_of_not_found() {
    assert_eq!(ServiceError::NotFound.message(), "Todo not found");
}

#[test]
fn a_record_is_built_from_an_id_and_a_payload() {
    assert_eq!(Model::new(12, payload("Buy milk", false)), row(12, "Buy milk", false));
    assert_eq!(Model::new(-1, payload("", true)), row(-1, "", true));
}

#[test]
fn a_clone_has_the_same_fields() {
    let kept = row(i32::MAX, "Buy milk", true);
    assert_eq!(kept.clone(), kept);
    let data = payload("", false);
    assert_eq!(data.clone(), data);
}
