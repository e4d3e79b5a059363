use session_service::error::SessionError;
use session_service::setup_db::{setup_database, CREATE_SESSION_TABLE};

#[test]
fn the_statement_creates_the_relation_only_where_it_is_absent() {
    assert!(CREATE_SESSION_TABLE.starts_with("CREATE TABLE IF NOT EXISTS session_data "));
}

#[test]
fn the_statement_declares_the_four_columns() {
    assert_eq!(
        CREATE_SESSION_TABLE,
        "CREATE TABLE IF NOT EXISTS session_data (id SERIAL PRIMARY KEY, fail_code TEXT, launch_url TEXT NOT NULL, client_token TEXT NOT NULL)"
    );
}

#[test]
fn a_set_up_relation_is_ready() {
    assert_eq!(setup_database(Ok(())), Ok(()));
}

#[test]
fn a_failed_set_up_is_a_store_init_error() {
    assert_eq!(
        setup_database(Err(String::from("permission denied for schema public"))),
        Err(SessionError::StoreInit(String::from("permission denied for schema public")))
    );
}
