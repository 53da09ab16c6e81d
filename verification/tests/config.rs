use example_todos::config::{database_url, listen_address};

#[test]
fn the_database_defaults_to_sqlite_in_memory() {
    assert_eq!(database_url(None), "sqlite::memory:");
}

#[test]
fn a_configured_database_is_used_as_given() {
    assert_eq!(
        database_url(Some("postgres://todos@localhost/todos".to_string())),
        "postgres://todos@localhost/todos"
    );
    assert_eq!(database_url(Some(String::new())), "");
}

#[test]
fn the_listener_defaults_to_port_8080_on_every_interface() {
    assert_eq!(listen_address(None), "0.0.0.0:8080");
}

#[test]
fn a_configured_listen_address_is_used_as_given() {
    assert_eq!(listen_address(Some("127.0.0.1:3000".to_string())), "127.0.0.1:3000");
}
