use example_todos::entity::{Model, TodoPayload};
use example_todos::handler::{
    create_todo, delete_todo, get_all_todos, get_todo_by_id, respond, resume, update_todo,
    AppError, Body, Exchange, Response, CREATED, INTERNAL_SERVER_ERROR, NOT_FOUND, NO_CONTENT, OK,
};
use example_todos::service::{Answer, Outcome, Pending, Query, ServiceError};

/// A table in memory that answers as a database would. `fail_at` counts down
/// with every query; the query that finds it at one fails.
struct Rows {
    rows: Vec<Model>,
    next_id: i32,
    fail_at: u32,
    queries: Vec<Query>,
}

impl Rows {
    fn new() -> Rows {
        Rows { rows: Vec::new(), next_id: 1, fail_at: 0, queries: Vec::new() }
    }

    fn snapshot(&self) -> Vec<Model> {
        self.rows.clone()
    }

    fn answer(&mut self, query: &Query) -> Answer {
        if self.fail_at > 0 {
            self.fail_at -= 1;
            if self.fail_at == 0 {
                return Answer::Failed("connection lost".to_string());
            }
        }
        match query {
            Query::Insert(data) => {
                let row = Model { id: self.next_id, title: data.title.clone(), completed: data.completed };
                self.next_id += 1;
                self.rows.push(row.clone());
                Answer::Inserted(row)
            }
            Query::FindById(id) => Answer::Found(self.rows.iter().find(|row| row.id == *id).cloned()),
            Query::FindAll => Answer::FoundAll(self.rows.clone()),
            Query::Update(wanted) => match self.rows.iter_mut().find(|row| row.id == wanted.id) {
                Some(row) => {
                    *row = wanted.clone();
                    Answer::Updated(wanted.clone())
                }
                None => Answer::Failed("None of the records are updated".to_string()),
            },
            Query::Delete(id) => {
                self.rows.retain(|row| row.id != *id);
                Answer::Deleted
            }
        }
    }

    fn serve(&mut self, exchange: Exchange) -> Response {
        let mut exchange = exchange;
        loop {
            match exchange {
                Exchange::Ask(query, pending) => {
                    let answer = self.answer(&query);
                    self.queries.push(query);
                    exchange = resume(pending, answer);
                }
                Exchange::Reply(response) => return response,
            }
        }
    }
}

fn payload(title: &str, completed: bool) -> TodoPayload {
    TodoPayload { title: title.to_string(), completed }
}

fn row(id: i32, title: &str, completed: bool) -> Model {
    Model { id, title: title.to_string(), completed }
}

fn not_found() -> Response {
    Response { status: 404, body: Body::Empty }
}

fn failure(text: &str) -> Response {
    Response { status: 500, body: Body::Error(text.to_string()) }
}

#[test]
fn the_status_codes() {
    assert_eq!(OK, 200);
    assert_eq!(CREATED, 201);
    assert_eq!(NO_CONTENT, 204);
    assert_eq!(NOT_FOUND, 404);
    assert_eq!(INTERNAL_SERVER_ERROR, 500);
}

#[test]
fn post_passes_the_insert_on() {
    assert_eq!(
        create_todo(payload("Buy milk", false)),
        Exchange::Ask(Query::Insert(payload("Buy milk", false)), Pending::Create)
    );
}

#[test]
fn get_passes_the_lookup_on() {
    assert_eq!(get_todo_by_id(3), Exchange::Ask(Query::FindById(3), Pending::Get));
}

#[test]
fn get_all_passes_the_listing_on() {
    assert_eq!(get_all_todos(), Exchange::Ask(Query::FindAll, Pending::List));
}

#[test]
fn put_passes_the_lookup_on_and_keeps_the_payload() {
    assert_eq!(
        update_todo(3, payload("Buy milk", true)),
        Exchange::Ask(Query::FindById(3), Pending::UpdateLookup(payload("Buy milk", true)))
    );
}

#[test]
fn delete_passes_the_lookup_on() {
    assert_eq!(delete_todo(3), Exchange::Ask(Query::FindById(3), Pending::DeleteLookup));
}

#[test]
fn resume_passes_the_second_query_on() {
    assert_eq!(
        resume(Pending::UpdateLookup(payload("b", true)), Answer::Found(Some(row(3, "a", false)))),
        Exchange::Ask(Query::Update(row(3, "b", true)), Pending::UpdateWrite)
    );
    assert_eq!(
        resume(Pending::DeleteLookup, Answer::Found(Some(row(3, "a", false)))),
        Exchange::Ask(Query::Delete(3), Pending::DeleteRemoval)
    );
}

#[test]
fn resume_answers_when_the_service_is_done() {
    assert_eq!(
        resume(Pending::Create, Answer::Inserted(row(1, "a", false))),
        Exchange::Reply(Response { status: 201, body: Body::Todo(row(1, "a", false)) })
    );
    assert_eq!(resume(Pending::DeleteLookup, Answer::Found(None)), Exchange::Reply(not_found()));
    assert_eq!(
        resume(Pending::Get, Answer::Failed("disk full".to_string())),
        Exchange::Reply(failure("Database error: disk full"))
    );
}

#[test]
fn respond_maps_each_outcome_to_its_status_and_body() {
    assert_eq!(
        respond(Ok(Outcome::Created(row(1, "a", false)))),
        Response { status: 201, body: Body::Todo(row(1, "a", false)) }
    );
    assert_eq!(
        respond(Ok(Outcome::Fetched(Some(row(1, "a", false))))),
        Response { status: 200, body: Body::Todo(row(1, "a", false)) }
    );
    assert_eq!(respond(Ok(Outcome::Fetched(None))), not_found());
    assert_eq!(
        respond(Ok(Outcome::Listed(vec![row(1, "a", false), row(2, "b", true)]))),
        Response { status: 200, body: Body::Todos(vec![row(1, "a", false), row(2, "b", true)]) }
    );
    assert_eq!(
        respond(Ok(Outcome::Listed(Vec::new()))),
        Response { status: 200, body: Body::Todos(Vec::new()) }
    );
    assert_eq!(
        respond(Ok(Outcome::Updated(row(1, "c", true)))),
        Response { status: 200, body: Body::Todo(row(1, "c", true)) }
    );
    assert_eq!(respond(Ok(Outcome::Deleted)), Response { status: 204, body: Body::Empty });
}

#[test]
fn respond_maps_each_error_to_its_status_and_body() {
    assert_eq!(respond(Err(ServiceError::NotFound)), not_found());
    assert_eq!(
        respond(Err(ServiceError::DbErr("connection lost".to_string()))),
        failure("Database error: connection lost")
    );
}

#[test]
fn an_error_of_the_service_is_wrapped() {
    assert_eq!(
        AppError::from(ServiceError::DbErr("x".to_string())),
        AppError::ServiceError(ServiceError::DbErr("x".to_string()))
    );
    assert_eq!(AppError::from(ServiceError::NotFound), AppError::ServiceError(ServiceError::NotFound));
}

#[test]
fn not_found_is_answered_with_404_and_no_body() {
    assert_eq!(AppError::NotFound.into_response(), not_found());
    assert_eq!(AppError::ServiceError(ServiceError::NotFound).into_response(), not_found());
}

#[test]
fn a_failure_of_the_table_is_answered_with_500_and_its_text() {
    assert_eq!(
        AppError::ServiceError(ServiceError::DbErr("connection lost".to_string())).into_response(),
        failure("Database error: connection lost")
    );
}

#[test]
fn creating_returns_201_and_the_record_with_a_new_id() {
    let mut table = Rows::new();
    let first = table.serve(create_todo(payload("Buy milk", false)));
    assert_eq!(first, Response { status: 201, body: Body::Todo(row(1, "Buy milk", false)) });
    let second = table.serve(create_todo(payload("Buy milk", false)));
    assert_eq!(second, Response { status: 201, body: Body::Todo(row(2, "Buy milk", false)) });
    assert_eq!(table.snapshot(), vec![row(1, "Buy milk", false), row(2, "Buy milk", false)]);
}

#[test]
fn an_id_that_was_never_created_is_not_found_until_it_is_created() {
    let mut table = Rows::new();
    assert_eq!(table.serve(get_todo_by_id(1)), not_found());
    assert_eq!(
        table.serve(create_todo(payload("Walk the dog", true))),
        Response { status: 201, body: Body::Todo(row(1, "Walk the dog", true)) }
    );
    assert_eq!(
        table.serve(get_todo_by_id(1)),
        Response { status: 200, body: Body::Todo(row(1, "Walk the dog", true)) }
    );
    assert_eq!(table.serve(get_todo_by_id(2)), not_found());
    assert_eq!(table.serve(get_todo_by_id(0)), not_found());
    assert_eq!(table.serve(get_todo_by_id(-1)), not_found());
    assert_eq!(table.serve(get_todo_by_id(i32::MAX)), not_found());
    assert_eq!(table.serve(get_todo_by_id(i32::MIN)), not_found());
}

#[test]
fn the_list_of_an_empty_table_is_an_empty_array() {
    let mut table = Rows::new();
    assert_eq!(table.serve(get_all_todos()), Response { status: 200, body: Body::Todos(Vec::new()) });
}

#[test]
fn the_list_holds_every_created_record() {
    let mut table = Rows::new();
    let titles = ["a", "b", "c", "d", "e"];
    let mut created = Vec::new();
    for (i, title) in titles.iter().enumerate() {
        match table.serve(create_todo(payload(title, i % 2 == 0))) {
            Response { status: 201, body: Body::Todo(row) } => created.push(row),
            other => panic!("not created: {:?}", other),
        }
    }
    match table.serve(get_all_todos()) {
        Response { status: 200, body: Body::Todos(rows) } => {
            assert_eq!(rows.len(), 5);
            for row in &created {
                assert_eq!(rows.iter().filter(|listed| *listed == row).count(), 1);
            }
        }
        other => panic!("not listed: {:?}", other),
    }
}

#[test]
fn put_replaces_both_fields_and_get_shows_the_new_ones() {
    let mut table = Rows::new();
    table.serve(create_todo(payload("Buy milk", false)));
    assert_eq!(
        table.serve(update_todo(1, payload("Buy milk", true))),
        Response { status: 200, body: Body::Todo(row(1, "Buy milk", true)) }
    );
    assert_eq!(
        table.serve(get_todo_by_id(1)),
        Response { status: 200, body: Body::Todo(row(1, "Buy milk", true)) }
    );
    assert_eq!(
        table.serve(update_todo(1, payload("Buy oat milk", false))),
        Response { status: 200, body: Body::Todo(row(1, "Buy oat milk", false)) }
    );
    assert_eq!(
        table.serve(get_todo_by_id(1)),
        Response { status: 200, body: Body::Todo(row(1, "Buy oat milk", false)) }
    );
    assert_eq!(table.snapshot(), vec![row(1, "Buy oat milk", false)]);
}

#[test]
fn put_leaves_the_other_records_alone() {
    let mut table = Rows::new();
    table.serve(create_todo(payload("a", false)));
    table.serve(create_todo(payload("b", false)));
    table.serve(update_todo(2, payload("c", true)));
    assert_eq!(table.snapshot(), vec![row(1, "a", false), row(2, "c", true)]);
}

#[test]
fn put_on_a_missing_id_is_not_found_and_creates_nothing() {
    let mut table = Rows::new();
    table.serve(create_todo(payload("a", false)));
    let before = table.snapshot();
    assert_eq!(table.serve(update_todo(2, payload("b", true))), not_found());
    assert_eq!(table.snapshot(), before);
    assert_eq!(table.queries.last(), Some(&Query::FindById(2)));
}

#[test]
fn delete_on_a_missing_id_is_not_found_and_removes_nothing() {
    let mut table = Rows::new();
    table.serve(create_todo(payload("a", false)));
    let before = table.snapshot();
    assert_eq!(table.serve(delete_todo(2)), not_found());
    assert_eq!(table.snapshot(), before);
    assert_eq!(table.queries.last(), Some(&Query::FindById(2)));
}

#[test]
fn delete_returns_204_then_the_record_is_gone_and_a_second_delete_is_not_found() {
    let mut table = Rows::new();
    table.serve(create_todo(payload("a", false)));
    table.serve(create_todo(payload("b", true)));
    assert_eq!(table.serve(delete_todo(1)), Response { status: 204, body: Body::Empty });
    assert_eq!(table.snapshot(), vec![row(2, "b", true)]);
    assert_eq!(table.serve(get_todo_by_id(1)), not_found());
    assert_eq!(table.serve(delete_todo(1)), not_found());
    assert_eq!(table.snapshot(), vec![row(2, "b", true)]);
}

#[test]
fn a_created_record_is_fetched_as_it_was_returned() {
    let mut table = Rows::new();
    table.serve(create_todo(payload("filler", true)));
    let created = match table.serve(create_todo(payload("Say \"hi\" \u{1F44B}", false))) {
        Response { status: 201, body: Body::Todo(row) } => row,
        other => panic!("not created: {:?}", other),
    };
    assert_eq!(created, row(2, "Say \"hi\" \u{1F44B}", false));
    assert_eq!(
        table.serve(get_todo_by_id(created.id)),
        Response { status: 200, body: Body::Todo(created) }
    );
}

#[test]
fn every_request_is_answered_with_500_when_the_table_fails() {
    let requests: Vec<fn() -> Exchange> = vec![
        || create_todo(TodoPayload { title: "x".to_string(), completed: false }),
        || get_todo_by_id(1),
        || get_all_todos(),
        || update_todo(1, TodoPayload { title: "x".to_string(), completed: false }),
        || delete_todo(1),
    ];
    for request in requests {
        let mut table = Rows::new();
        table.serve(create_todo(payload("a", false)));
        let before = table.snapshot();
        table.fail_at = 1;
        assert_eq!(table.serve(request()), failure("Database error: connection lost"));
        assert_eq!(table.snapshot(), before);
    }
}

#[test]
fn a_failure_at_the_write_is_answered_with_500() {
    let mut table = Rows::new();
    table.serve(create_todo(payload("a", false)));
    table.fail_at = 2;
    assert_eq!(
        table.serve(update_todo(1, payload("b", true))),
        failure("Database error: connection lost")
    );
    assert_eq!(table.snapshot(), vec![row(1, "a", false)]);
    table.fail_at = 2;
    assert_eq!(table.serve(delete_todo(1)), failure("Database error: connection lost"));
    assert_eq!(table.snapshot(), vec![row(1, "a", false)]);
}

#[test]
fn a_row_removed_between_lookup_and_write_is_answered_with_500() {
    let mut table = Rows::new();
    table.serve(create_todo(payload("a", false)));
    let exchange = update_todo(1, payload("b", true));
    let (query, pending) = match exchange {
        Exchange::Ask(query, pending) => (query, pending),
        other => panic!("no query: {:?}", other),
    };
    let found = table.answer(&query);
    table.serve(delete_todo(1));
    assert_eq!(
        table.serve(resume(pending, found)),
        failure("Database error: None of the records are updated")
    );
    assert_eq!(table.snapshot(), Vec::new());
}

#[test]
fn no_request_puts_more_than_two_queries() {
    let mut table = Rows::new();
    table.serve(create_todo(payload("a", false)));
    assert_eq!(table.queries.len(), 1);
    table.serve(get_todo_by_id(1));
    assert_eq!(table.queries.len(), 2);
    table.serve(get_all_todos());
    assert_eq!(table.queries.len(), 3);
    table.serve(update_todo(1, payload("b", true)));
    assert_eq!(table.queries.len(), 5);
    table.serve(delete_todo(1));
    assert_eq!(table.queries.len(), 7);
    table.serve(delete_todo(1));
    assert_eq!(table.queries.len(), 8);
}
