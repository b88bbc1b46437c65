//! The `config validate` command's decisions: when it stops before asking
//! the server, and what it prints and returns for the server's answer.
use vstd::prelude::*;
use crate::cli::{invalid_output, validated_output, ConfigValidateOutput, OutputFormat};
use crate::error::{app_error_text, AppError, CliError};
use crate::models::CurrentUser;
use crate::strings::{append_str, decimal, push_decimal};

verus! {

/// What `config validate` prints and ends with.
pub struct ValidateReport {
    /// The JSON record, printed in JSON mode.
    pub json: Option<ConfigValidateOutput>,
    /// The lines printed otherwise.
    pub lines: Vec<String>,
    /// How the command ends.
    pub result: Result<(), AppError>,
}

/// The texts of lines.
pub open spec fn texts(v: Seq<String>) -> Seq<Seq<char>> {
    v.map_values(|s: String| s@)
}

/// The lines printed when nobody is logged in.
pub open spec fn not_logged_in_lines() -> Seq<Seq<char>> {
    seq![
        "Not logged in."@,
        Seq::empty(),
        "To authenticate, run:"@,
        "  mbr-cli login"@,
        Seq::empty(),
        "Or set environment variables:"@,
        "  export MBR_USERNAME=\"your_username\""@,
        "  export MBR_PASSWORD=\"your_password\""@,
    ]
}

/// The lines printed for a validated user: the status, the id and email,
/// the name when there is one and whether the user is an administrator
/// when that is known.
pub open spec fn user_lines(user: CurrentUser) -> Seq<Seq<char>> {
    let name: Option<String> = match user.common_name {
        Some(n) => Some(n),
        None => user.first_name,
    };
    seq![
        Seq::empty(),
        "Authentication Status:"@,
        "====================="@,
        "Connected to Metabase"@,
        Seq::empty(),
        "User Information:"@,
        "  ID: "@ + decimal(user.id as nat),
        "  Email: "@ + user.email@,
    ] + match name {
        Some(n) => seq!["  Name: "@ + n@],
        None => Seq::empty(),
    } + match user.is_superuser {
        Some(a) => seq!["  Admin: "@ + if a { "Yes"@ } else { "No"@ }],
        None => Seq::empty(),
    }
}

/// The lines printed when the server refused the session.
pub open spec fn failure_lines(message: Seq<char>) -> Seq<Seq<char>> {
    seq![
        Seq::empty(),
        "Failed to validate session: "@ + message,
        Seq::empty(),
        "Possible causes:"@,
        "  - Session has expired"@,
        "  - Metabase server is unreachable"@,
        Seq::empty(),
        "Try running 'mbr-cli login' to re-authenticate."@,
    ]
}

/// The result is the authentication error with this message and hint.
pub open spec fn auth_required(r: Result<(), AppError>, message: Seq<char>, hint: Seq<char>) -> bool {
    r matches Err(AppError::Cli(CliError::AuthRequired { message: m, hint: h, available_profiles: p }))
        && m@ == message && h@ == hint && p@.len() == 0
}

/// The message of a record.
pub open spec fn message_string(j: ConfigValidateOutput) -> String {
    j.error->0
}

/// The record's user is `u`, named by the common name, else the first name.
pub open spec fn user_matches(j: ConfigValidateOutput, u: CurrentUser) -> bool {
    match j.user {
        Some(i) => i.id == u.id && i.email == u.email && i.is_superuser == u.is_superuser && i.name
            == match u.common_name {
            Some(n) => Some(n),
            None => u.first_name,
        },
        None => false,
    }
}

/// A JSON report of an invalid session with this message, ending well.
pub open spec fn invalid_report(rep: ValidateReport, message: Seq<char>) -> bool {
    &&& rep.json matches Some(j) && !j.valid && j.user is None && j.error == Some(
        message_string(j),
    ) && message_string(j)@ == message
    &&& rep.lines@.len() == 0
    &&& rep.result is Ok
}

/// A JSON report of a validated user, ending well.
pub open spec fn valid_report(rep: ValidateReport, u: CurrentUser) -> bool {
    &&& rep.json matches Some(j) && j.valid && j.error is None && user_matches(j, u)
    &&& rep.lines@.len() == 0
    &&& rep.result is Ok
}

/// A text report with these lines.
pub open spec fn text_report(rep: ValidateReport, lines: Seq<Seq<char>>) -> bool {
    rep.json is None && texts(rep.lines@) == lines
}

fn push_line(lines: &mut Vec<String>, text: String)
    ensures
        texts(final(lines)@) == texts(old(lines)@).push(text@),
{
    lines.push(text);
    assert(texts(lines@) =~= texts(old(lines)@).push(text@));
}

fn auth_error(message: &str, hint: &str) -> (r: Result<(), AppError>)
    ensures
        auth_required(r, message@, hint@),
{
    Err(
        AppError::Cli(
            CliError::AuthRequired {
                message: message.to_string(),
                hint: hint.to_string(),
                available_profiles: Vec::new(),
            },
        ),
    )
}

/// Whether `config validate` stops before asking the server: without a
/// session it reports that nobody is logged in, and without a session
/// token that the client is not authenticated (in JSON as an invalid
/// record, ending well; otherwise as text, ending with an authentication
/// error). `None` when the server is to be asked.
pub fn validate_precheck(has_session: bool, authenticated: bool, format: OutputFormat) -> (r:
    Option<ValidateReport>)
    ensures
        has_session && authenticated <==> r is None,
        r matches Some(rep) ==> if !has_session {
            if format == OutputFormat::Json {
                invalid_report(rep, "Not logged in"@)
            } else {
                text_report(rep, not_logged_in_lines()) && auth_required(
                    rep.result,
                    "Not logged in"@,
                    "Run 'mbr-cli login' to authenticate"@,
                )
            }
        } else if format == OutputFormat::Json {
            invalid_report(rep, "Client is not authenticated"@)
        } else {
            text_report(rep, seq!["Session token is not configured properly."@]) && auth_required(
                rep.result,
                "Client is not authenticated"@,
                "Run 'mbr-cli login' to re-authenticate"@,
            )
        },
{
    let json = matches!(format, OutputFormat::Json);
    if !has_session {
        if json {
            return Some(
                ValidateReport {
                    json: Some(invalid_output("Not logged in".to_string())),
                    lines: Vec::new(),
                    result: Ok(()),
                },
            );
        }
        let mut lines: Vec<String> = Vec::new();
        push_line(&mut lines, "Not logged in.".to_string());
        push_line(&mut lines, String::new());
        push_line(&mut lines, "To authenticate, run:".to_string());
        push_line(&mut lines, "  mbr-cli login".to_string());
        push_line(&mut lines, String::new());
        push_line(&mut lines, "Or set environment variables:".to_string());
        push_line(&mut lines, "  export MBR_USERNAME=\"your_username\"".to_string());
        push_line(&mut lines, "  export MBR_PASSWORD=\"your_password\"".to_string());
        proof {
            reveal_strlit("");
        }
        assert(texts(lines@) =~= not_logged_in_lines());
        return Some(
            ValidateReport {
                json: None,
                lines,
                result: auth_error("Not logged in", "Run 'mbr-cli login' to authenticate"),
            },
        );
    }
    if !authenticated {
        if json {
            return Some(
                ValidateReport {
                    json: Some(invalid_output("Client is not authenticated".to_string())),
                    lines: Vec::new(),
                    result: Ok(()),
                },
            );
        }
        let mut lines: Vec<String> = Vec::new();
        push_line(&mut lines, "Session token is not configured properly.".to_string());
        assert(texts(lines@) =~= seq!["Session token is not configured properly."@]);
        return Some(
            ValidateReport {
                json: None,
                lines,
                result: auth_error(
                    "Client is not authenticated",
                    "Run 'mbr-cli login' to re-authenticate",
                ),
            },
        );
    }
    None
}

/// What `config validate` prints and ends with for the server's answer: for
/// a user, the validated record (JSON) or the user's lines, ending well;
/// for an error, an invalid record with its message, ending well (JSON), or
/// the failure lines, ending with the error.
pub fn validate_outcome(user: Result<CurrentUser, AppError>, format: OutputFormat) -> (r:
    ValidateReport)
    ensures
        match user {
            Ok(u) => if format == OutputFormat::Json {
                valid_report(r, u)
            } else {
                text_report(r, user_lines(u)) && r.result is Ok
            },
            Err(e) => if format == OutputFormat::Json {
                invalid_report(r, app_error_text(e))
            } else {
                text_report(r, failure_lines(app_error_text(e))) && r.result == Err::<(), AppError>(e)
            },
        },
{
    let json = matches!(format, OutputFormat::Json);
    match user {
        Ok(u) => {
            if json {
                return ValidateReport {
                    json: Some(validated_output(&u)),
                    lines: Vec::new(),
                    result: Ok(()),
                };
            }
            proof {
                reveal_strlit("");
            }
            let mut lines: Vec<String> = Vec::new();
            push_line(&mut lines, String::new());
            push_line(&mut lines, "Authentication Status:".to_string());
            push_line(&mut lines, "=====================".to_string());
            push_line(&mut lines, "Connected to Metabase".to_string());
            push_line(&mut lines, String::new());
            push_line(&mut lines, "User Information:".to_string());
            let mut id = String::new();
            append_str(&mut id, "  ID: ");
            push_decimal(&mut id, u.id as u64);
            push_line(&mut lines, id);
            let mut email = String::new();
            append_str(&mut email, "  Email: ");
            append_str(&mut email, u.email.as_str());
            push_line(&mut lines, email);
            let ghost head = texts(lines@);
            let name: Option<&String> = match &u.common_name {
                Some(n) => Some(n),
                None => match &u.first_name {
                    Some(n) => Some(n),
                    None => None,
                },
            };
            if let Some(n) = name {
                let mut t = String::new();
                append_str(&mut t, "  Name: ");
                append_str(&mut t, n.as_str());
                push_line(&mut lines, t);
            }
            let ghost mid = texts(lines@);
            if let Some(a) = u.is_superuser {
                let mut t = String::new();
                append_str(&mut t, "  Admin: ");
                append_str(&mut t, if a { "Yes" } else { "No" });
                push_line(&mut lines, t);
            }
            assert(Seq::<char>::empty() + "  ID: "@ =~= "  ID: "@);
            assert(Seq::<char>::empty() + "  Email: "@ =~= "  Email: "@);
            assert(Seq::<char>::empty() + "  Name: "@ =~= "  Name: "@);
            assert(Seq::<char>::empty() + "  Admin: "@ =~= "  Admin: "@);
            assert(texts(lines@) =~= user_lines(u));
            ValidateReport { json: None, lines, result: Ok(()) }
        },
        Err(e) => {
            let text = e.to_display_string();
            if json {
                return ValidateReport {
                    json: Some(invalid_output(text)),
                    lines: Vec::new(),
                    result: Ok(()),
                };
            }
            proof {
                reveal_strlit("");
            }
            let mut lines: Vec<String> = Vec::new();
            push_line(&mut lines, String::new());
            let mut t = String::new();
            append_str(&mut t, "Failed to validate session: ");
            append_str(&mut t, text.as_str());
            push_line(&mut lines, t);
            push_line(&mut lines, String::new());
            push_line(&mut lines, "Possible causes:".to_string());
            push_line(&mut lines, "  - Session has expired".to_string());
            push_line(&mut lines, "  - Metabase server is unreachable".to_string());
            push_line(&mut lines, String::new());
            push_line(&mut lines, "Try running 'mbr-cli login' to re-authenticate.".to_string());
            assert(Seq::<char>::empty() + "Failed to validate session: "@ =~= "Failed to validate session: "@);
            assert(texts(lines@) =~= failure_lines(app_error_text(e)));
            ValidateReport { json: None, lines, result: Err(e) }
        },
    }
}

} // verus!
