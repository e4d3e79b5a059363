use session_service::config::ConfigKey;
use session_service::error::SessionError;
use session_service::listener::{
    create_session_handler, HttpReply, ADDRESS, ERROR_BODY, PORT, ROUTE,
    STATUS_INTERNAL_SERVER_ERROR, STATUS_OK,
};

fn failure() -> HttpReply {
    HttpReply { status: 500, body: String::from("Error creating session") }
}

#[test]
fn the_listener_binds_the_local_host() {
    assert_eq!(ADDRESS, [127, 0, 0, 1]);
    assert_eq!(PORT, 8000);
    assert_eq!(ROUTE, "create_session");
}

#[test]
fn the_two_statuses() {
    assert_eq!(STATUS_OK, 200);
    assert_eq!(STATUS_INTERNAL_SERVER_ERROR, 500);
    assert_eq!(ERROR_BODY, "Error creating session");
}

#[test]
fn a_served_request_gets_the_launch_url() {
    assert_eq!(
        create_session_handler(Ok(String::from("https://example.com/launch/s1"))),
        HttpReply { status: 200, body: String::from("https://example.com/launch/s1") }
    );
}

#[test]
fn an_empty_launch_url_is_still_an_answer() {
    assert_eq!(
        create_session_handler(Ok(String::new())),
        HttpReply { status: 200, body: String::new() }
    );
}

#[test]
fn every_failure_gets_the_same_answer() {
    assert_eq!(
        create_session_handler(Err(SessionError::Configuration(ConfigKey::DbPassword))),
        failure()
    );
    assert_eq!(
        create_session_handler(Err(SessionError::Network(String::from("connection refused")))),
        failure()
    );
    assert_eq!(
        create_session_handler(Err(SessionError::ResponseParse(String::from("eof")))),
        failure()
    );
    assert_eq!(
        create_session_handler(Err(SessionError::StoreInit(String::from("no route to host")))),
        failure()
    );
    assert_eq!(
        create_session_handler(Err(SessionError::StoreWrite(String::from("null value")))),
        failure()
    );
    assert_eq!(
        create_session_handler(Err(SessionError::StoreRead(String::from("closed")))),
        failure()
    );
    assert_eq!(create_session_handler(Err(SessionError::NoLaunchUrl)), failure());
}

#[test]
fn the_cause_of_a_failure_is_not_in_the_answer() {
    let reply = create_session_handler(Err(SessionError::Network(String::from("secret detail"))));
    assert!(!reply.body.contains("secret detail"));
}
