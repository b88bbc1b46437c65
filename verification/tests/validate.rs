use mbr::cli::OutputFormat;
use mbr::error::{ApiError, AppError, CliError};
use mbr::models::CurrentUser;
use mbr::validate::{validate_outcome, validate_precheck};

fn user() -> CurrentUser {
    CurrentUser {
        id: 7,
        email: "a@b.c".to_string(),
        first_name: Some("Ann".to_string()),
        last_name: None,
        common_name: None,
        is_superuser: Some(true),
    }
}

#[test]
fn validate_asks_the_server_only_with_a_session_and_token() {
    assert!(validate_precheck(true, true, OutputFormat::Table).is_none());
    let rep = validate_precheck(false, true, OutputFormat::Json).unwrap();
    let json = rep.json.unwrap();
    assert!(!json.valid);
    assert_eq!(json.error, Some("Not logged in".to_string()));
    assert!(rep.result.is_ok());
    let rep = validate_precheck(false, false, OutputFormat::Table).unwrap();
    assert_eq!(rep.lines[0], "Not logged in.");
    assert_eq!(rep.lines.len(), 8);
    match rep.result {
        Err(AppError::Cli(CliError::AuthRequired { message, hint, .. })) => {
            assert_eq!(message, "Not logged in");
            assert_eq!(hint, "Run 'mbr-cli login' to authenticate");
        }
        _ => panic!("expected an authentication error"),
    }
    let rep = validate_precheck(true, false, OutputFormat::Csv).unwrap();
    assert_eq!(rep.lines, vec!["Session token is not configured properly.".to_string()]);
}

#[test]
fn validate_reports_the_user() {
    let rep = validate_outcome(Ok(user()), OutputFormat::Table);
    assert!(rep.result.is_ok());
    assert_eq!(rep.lines[6], "  ID: 7");
    assert_eq!(rep.lines[7], "  Email: a@b.c");
    assert_eq!(rep.lines[8], "  Name: Ann");
    assert_eq!(rep.lines[9], "  Admin: Yes");
    let rep = validate_outcome(Ok(user()), OutputFormat::Json);
    let json = rep.json.unwrap();
    assert!(json.valid);
    assert_eq!(json.user.unwrap().name, Some("Ann".to_string()));
}

#[test]
fn validate_reports_a_failure() {
    let err = AppError::Api(ApiError::Http { status: 500, endpoint: "/x".to_string(), message: "boom".to_string() });
    let rep = validate_outcome(Err(err), OutputFormat::Table);
    assert_eq!(rep.lines[1], "Failed to validate session: ApiError: HTTP error: 500 boom");
    assert!(rep.result.is_err());
    let err = AppError::Api(ApiError::Http { status: 500, endpoint: "/x".to_string(), message: "boom".to_string() });
    let rep = validate_outcome(Err(err), OutputFormat::Json);
    assert!(rep.result.is_ok());
    assert!(!rep.json.unwrap().valid);
}
