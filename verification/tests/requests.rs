use mbr::app_state::{initial_status, ConnectionStatus, Fetch};
use mbr::cli::{
    after_first_run, after_relogin, run_offset, run_page_size, run_parameters, session_token_for, AfterRun,
};
use mbr::error::{ApiError, AppError, AuthError};
use mbr::session::Session;
use mbr::requests::{
    base_url_of, credentials_from, nonempty_value, question_query_endpoint, questions_endpoint,
    request_url, schemas_endpoint, status_error, tables_endpoint, DEFAULT_TIMEOUT_SECS,
};

#[test]
fn test_base_url_trailing_slash_removed() {
    assert_eq!(base_url_of("http://example.test/"), "http://example.test");
}

#[test]
fn base_url_keeps_inner_slashes_and_drops_all_trailing_ones() {
    assert_eq!(base_url_of("http://example.test/metabase//"), "http://example.test/metabase");
    assert_eq!(base_url_of("http://example.test"), "http://example.test");
    assert_eq!(base_url_of("///"), "");
}

#[test]
fn request_urls_join_base_and_path() {
    assert_eq!(request_url("http://h", "/api/session"), "http://h/api/session");
    assert_eq!(questions_endpoint(None), "/api/card?f=all");
    assert_eq!(questions_endpoint(Some("")), "/api/card?f=all");
    assert_eq!(questions_endpoint(Some("7")), "/api/card?f=all&collection=7");
    assert_eq!(question_query_endpoint(42), "/api/card/42/query");
    assert_eq!(schemas_endpoint(3), "/api/database/3/schemas");
    assert_eq!(tables_endpoint(3, "public"), "/api/database/3/schema/public");
}

#[test]
fn failed_statuses_map_to_errors() {
    match status_error(401, "/api/x", "nope".to_string()) {
        ApiError::Unauthorized { status, endpoint, server_message } => {
            assert_eq!((status, endpoint.as_str(), server_message.as_str()), (401, "/api/x", "nope"));
        }
        _ => panic!("expected unauthorized"),
    }
    for code in [408u16, 504] {
        match status_error(code, "/api/x", String::new()) {
            ApiError::Timeout { timeout_secs, endpoint } => {
                assert_eq!(timeout_secs, DEFAULT_TIMEOUT_SECS);
                assert_eq!(endpoint, "/api/x");
            }
            _ => panic!("expected a timeout"),
        }
    }
    match status_error(500, "/api/y", "boom".to_string()) {
        ApiError::Http { status, endpoint, message } => {
            assert_eq!((status, endpoint.as_str(), message.as_str()), (500, "/api/y", "boom"));
        }
        _ => panic!("expected an HTTP error"),
    }
}

#[test]
fn credentials_need_both_values() {
    assert_eq!(
        credentials_from(Some("u".to_string()), Some("p".to_string())),
        Some(("u".to_string(), "p".to_string()))
    );
    assert_eq!(credentials_from(Some("u".to_string()), None), None);
    assert_eq!(credentials_from(Some(String::new()), Some("p".to_string())), None);
    assert_eq!(nonempty_value(Some(String::new())), None);
    assert_eq!(nonempty_value(Some("x".to_string())), Some("x".to_string()));
}

#[test]
fn run_decisions() {
    assert_eq!(run_offset(Some(0)), None);
    assert_eq!(run_offset(Some(5)), Some(5));
    assert_eq!(run_offset(None), None);
    assert_eq!(run_page_size(true, true, 20), None);
    assert_eq!(run_page_size(false, false, 20), None);
    assert_eq!(run_page_size(false, true, 20), Some(20));
    assert_eq!(run_parameters(vec![]), None);
    assert_eq!(
        run_parameters(vec![("a".to_string(), "1".to_string())]),
        Some(vec![("a".to_string(), "1".to_string())])
    );
}

#[test]
fn stored_session_is_used_only_for_its_url() {
    let session = Some(Session {
        session_token: "tok".to_string(),
        url: "http://h".to_string(),
        username: "u".to_string(),
        created_at: "2024-01-01T00:00:00Z".to_string(),
    });
    assert_eq!(session_token_for(&session, "http://h"), Some("tok".to_string()));
    assert_eq!(session_token_for(&session, "http://other"), None);
    assert_eq!(session_token_for(&None, "http://h"), None);
}

#[test]
fn refused_sessions_lead_to_a_new_login() {
    let refused: Result<(), AppError> = Err(AppError::Api(ApiError::Unauthorized {
        status: 401,
        endpoint: "/x".to_string(),
        server_message: String::new(),
    }));
    assert!(matches!(after_first_run(refused), AfterRun::Relogin));
    assert!(matches!(after_first_run(Ok(())), AfterRun::Finish(Ok(()))));
    assert!(matches!(after_relogin(Some(Ok(()))), Ok(())));
    assert!(matches!(after_relogin(None), Err(AppError::Auth(AuthError::SessionInvalid))));
}

#[test]
fn fetch_limits_and_initial_status() {
    assert_eq!(Fetch::Questions { search: None }.list_limit(), Some(50));
    assert_eq!(Fetch::CollectionQuestions { collection_id: 1 }.list_limit(), Some(100));
    assert_eq!(Fetch::TablePreview { database_id: 1, table_id: 2 }.list_limit(), Some(100));
    assert_eq!(Fetch::Databases.list_limit(), None);
    assert_eq!(initial_status(&Ok(true)), ConnectionStatus::Connecting);
    assert_eq!(initial_status(&Ok(false)), ConnectionStatus::Disconnected);
    assert_eq!(initial_status(&Err("x".to_string())), ConnectionStatus::Error("x".to_string()));
}
