use session_service::create_session::{CreateSessionResponse, ProviderReply, Session};
use session_service::handle_session::{handle_session, Action, Event, SessionData, Stage};
use session_service::listener::{create_session_handler, HttpReply};
use session_service::session_storage::{INSERT_SESSION, SELECT_LATEST_LAUNCH_URL};
use session_service::session_table::{SessionRecord, SessionTable};
use session_service::setup_db::CREATE_SESSION_TABLE;

/// The outside of the service in a test: what the environment holds, how
/// the provider answers, whether the database can be reached, and the
/// relation. `calls` collects what was asked of the provider and the
/// database.
struct Outside {
    auth_token: Option<String>,
    api_endpoint: Option<String>,
    db_host: Option<String>,
    db_user: Option<String>,
    db_password: Option<String>,
    db_name: Option<String>,
    provider: Option<ProviderReply>,
    connect: Result<(), String>,
    table: SessionTable,
    calls: Vec<String>,
}

fn configured(provider: ProviderReply) -> Outside {
    Outside {
        auth_token: Some(String::from("secret-token")),
        api_endpoint: Some(String::from("https://provider.example/sessions")),
        db_host: Some(String::from("localhost")),
        db_user: Some(String::from("app")),
        db_password: Some(String::from("hunter2")),
        db_name: Some(String::from("sessions")),
        provider: Some(provider),
        connect: Ok(()),
        table: SessionTable::new(),
        calls: Vec::new(),
    }
}

fn session(launch_url: Option<&str>, client_token: Option<&str>) -> ProviderReply {
    ProviderReply::Session(CreateSessionResponse {
        session: Session {
            id: String::from("s1"),
            state: String::from("created"),
            fail_code: None,
        },
        launch_url: launch_url.map(String::from),
        client_token: client_token.map(String::from),
    })
}

fn serve(outside: &mut Outside) -> HttpReply {
    let (mut stage, mut action) = handle_session(Stage::Start, Event::Begin);
    loop {
        let event = match action {
            Action::LoadApiSettings => Event::ApiSettings {
                auth_token: outside.auth_token.take(),
                api_endpoint: outside.api_endpoint.take(),
            },
            Action::Send(request) => {
                outside.calls.push(format!(
                    "POST {} as {} with {}",
                    request.endpoint, request.bearer_token, request.body.launch_provider_directly
                ));
                Event::ProviderReplied(outside.provider.take().unwrap())
            }
            Action::LoadDbSettings => Event::DbSettings {
                host: outside.db_host.take(),
                user: outside.db_user.take(),
                password: outside.db_password.take(),
                name: outside.db_name.take(),
            },
            Action::Connect { connection } => {
                outside.calls.push(format!("connect {}", connection));
                Event::Connected(outside.connect.clone())
            }
            Action::SetupTable { statement } => {
                assert_eq!(statement, CREATE_SESSION_TABLE);
                outside.calls.push(String::from("set up"));
                Event::TableReady(outside.table.create_if_absent())
            }
            Action::Insert { statement, record } => {
                assert_eq!(statement, INSERT_SESSION);
                outside.calls.push(format!("insert {:?}", record.launch_url));
                Event::Inserted(outside.table.insert(record))
            }
            Action::QueryLatest { statement } => {
                assert_eq!(statement, SELECT_LATEST_LAUNCH_URL);
                outside.calls.push(String::from("query"));
                Event::Queried(outside.table.latest_launch_url())
            }
            Action::Finish(served) => return create_session_handler(served),
            Action::Idle => panic!("the request stopped before it was answered"),
        };
        let next = handle_session(stage, event);
        stage = next.0;
        action = next.1;
    }
}

fn failure_reply() -> HttpReply {
    HttpReply { status: 500, body: String::from("Error creating session") }
}

#[test]
fn a_created_session_is_stored_and_its_launch_url_returned() {
    let mut outside = configured(session(Some("https://example.com/launch/s1"), Some("tok123")));
    let reply = serve(&mut outside);
    assert_eq!(
        reply,
        HttpReply { status: 200, body: String::from("https://example.com/launch/s1") }
    );
    assert_eq!(outside.table.len(), 1);
    assert_eq!(
        outside.table.get(0),
        Some(&SessionRecord {
            id: 1,
            fail_code: None,
            launch_url: String::from("https://example.com/launch/s1"),
            client_token: String::from("tok123"),
        })
    );
    assert_eq!(
        outside.calls,
        vec![
            String::from("POST https://provider.example/sessions as secret-token with false"),
            String::from("connect host=localhost user=app password=hunter2 dbname=sessions"),
            String::from("set up"),
            String::from("insert Some(\"https://example.com/launch/s1\")"),
            String::from("query"),
        ]
    );
}

#[test]
fn the_launch_url_of_the_new_session_wins_over_older_rows() {
    let mut outside = configured(session(Some("https://example.com/launch/new"), Some("tok")));
    outside.table.create_if_absent().unwrap();
    for old in ["https://example.com/launch/a", "https://example.com/launch/b"] {
        let record = SessionData {
            fail_code: None,
            launch_url: Some(String::from(old)),
            client_token: Some(String::from("old")),
        };
        outside.table.insert(record).unwrap();
    }
    let reply = serve(&mut outside);
    assert_eq!(
        reply,
        HttpReply { status: 200, body: String::from("https://example.com/launch/new") }
    );
    assert_eq!(outside.table.len(), 3);
    assert_eq!(outside.table.get(2).unwrap().id, 3);
    assert_eq!(outside.table.get(0).unwrap().launch_url, "https://example.com/launch/a");
    assert_eq!(outside.table.get(1).unwrap().launch_url, "https://example.com/launch/b");
}

#[test]
fn a_session_with_a_fail_code_keeps_it() {
    let mut outside = configured(ProviderReply::Session(CreateSessionResponse {
        session: Session {
            id: String::from("s4"),
            state: String::from("created"),
            fail_code: Some(String::from("retry_later")),
        },
        launch_url: Some(String::from("https://example.com/launch/s4")),
        client_token: Some(String::from("tok4")),
    }));
    let reply = serve(&mut outside);
    assert_eq!(reply.status, 200);
    assert_eq!(outside.table.get(0).unwrap().fail_code, Some(String::from("retry_later")));
}

#[test]
fn an_answer_without_a_launch_url_is_inserted_and_refused() {
    let mut outside = configured(session(None, Some("tok123")));
    let reply = serve(&mut outside);
    assert_eq!(reply, failure_reply());
    assert_eq!(outside.table.len(), 0);
    assert!(outside.calls.contains(&String::from("insert None")));
    assert!(!outside.calls.contains(&String::from("query")));
}

#[test]
fn an_answer_without_a_client_token_is_refused_too() {
    let mut outside = configured(session(Some("https://example.com/launch/s1"), None));
    let reply = serve(&mut outside);
    assert_eq!(reply, failure_reply());
    assert_eq!(outside.table.len(), 0);
    assert!(!outside.calls.contains(&String::from("query")));
}

#[test]
fn an_unreachable_provider_fails_the_request_and_stores_nothing() {
    let mut outside = configured(ProviderReply::Unreachable(String::from("connection refused")));
    let reply = serve(&mut outside);
    assert_eq!(reply, failure_reply());
    assert_eq!(outside.table, SessionTable::new());
    assert_eq!(
        outside.calls,
        vec![String::from("POST https://provider.example/sessions as secret-token with false")]
    );
}

#[test]
fn a_malformed_answer_fails_the_request_and_stores_nothing() {
    let mut outside = configured(ProviderReply::Malformed(String::from("expected value")));
    let reply = serve(&mut outside);
    assert_eq!(reply, failure_reply());
    assert_eq!(outside.table, SessionTable::new());
    assert_eq!(outside.calls.len(), 1);
}

#[test]
fn a_missing_token_stops_the_request_before_any_call() {
    let mut outside = configured(session(Some("https://example.com/launch/s1"), Some("tok123")));
    outside.auth_token = None;
    let reply = serve(&mut outside);
    assert_eq!(reply, failure_reply());
    assert!(outside.calls.is_empty());
    assert_eq!(outside.table, SessionTable::new());
}

#[test]
fn a_missing_endpoint_stops_the_request_before_any_call() {
    let mut outside = configured(session(Some("https://example.com/launch/s1"), Some("tok123")));
    outside.api_endpoint = None;
    let reply = serve(&mut outside);
    assert_eq!(reply, failure_reply());
    assert!(outside.calls.is_empty());
}

#[test]
fn a_missing_database_password_stops_the_request_before_the_database() {
    let mut outside = configured(session(Some("https://example.com/launch/s1"), Some("tok123")));
    outside.db_password = None;
    let reply = serve(&mut outside);
    assert_eq!(reply, failure_reply());
    assert_eq!(
        outside.calls,
        vec![String::from("POST https://provider.example/sessions as secret-token with false")]
    );
    assert_eq!(outside.table, SessionTable::new());
}

#[test]
fn any_missing_database_setting_stops_the_request_before_the_database() {
    for missing in 0..4 {
        let mut outside =
            configured(session(Some("https://example.com/launch/s1"), Some("tok123")));
        match missing {
            0 => outside.db_host = None,
            1 => outside.db_user = None,
            2 => outside.db_password = None,
            _ => outside.db_name = None,
        }
        let reply = serve(&mut outside);
        assert_eq!(reply, failure_reply());
        assert_eq!(outside.calls.len(), 1);
        assert_eq!(outside.table, SessionTable::new());
    }
}

#[test]
fn a_database_that_cannot_be_reached_fails_the_request() {
    let mut outside = configured(session(Some("https://example.com/launch/s1"), Some("tok123")));
    outside.connect = Err(String::from("connection refused"));
    let reply = serve(&mut outside);
    assert_eq!(reply, failure_reply());
    assert_eq!(outside.calls.len(), 2);
    assert_eq!(outside.table, SessionTable::new());
}

#[test]
fn two_requests_in_a_row_store_two_rows() {
    let mut outside = configured(session(Some("https://example.com/launch/first"), Some("t1")));
    assert_eq!(serve(&mut outside).body, "https://example.com/launch/first");
    let table = outside.table;
    let mut outside = configured(session(Some("https://example.com/launch/second"), Some("t2")));
    outside.table = table;
    assert_eq!(serve(&mut outside).body, "https://example.com/launch/second");
    assert_eq!(outside.table.len(), 2);
    assert_eq!(outside.table.get(0).unwrap().launch_url, "https://example.com/launch/first");
    assert_eq!(outside.table.get(1).unwrap().id, 2);
}
