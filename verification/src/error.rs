//! The error hierarchy, with severities, user-facing messages and hints.
use vstd::prelude::*;
use crate::strings::{append_str, decimal, push_decimal};

verus! {

/// Errors in command-line usage.
#[derive(Debug)]
pub enum CliError {
    AuthRequired { message: String, hint: String, available_profiles: Vec<String> },
    InvalidArguments(String),
    NotImplemented { command: String },
}

/// The message of a [`CliError`].
pub open spec fn cli_error_text(e: CliError) -> Seq<char> {
    match e {
        CliError::AuthRequired { message: _, hint: _, available_profiles: _ } => "Authentication required"@,
        CliError::InvalidArguments(f0) => "Invalid arguments: "@ + f0@,
        CliError::NotImplemented { command } => "Command not implemented: "@ + command@,
    }
}

impl CliError {
    /// The message of this error.
    pub fn to_display_string(&self) -> (r: String)
        ensures
            r@ == cli_error_text(*self),
    {
        match self {
            CliError::AuthRequired { message: _, hint: _, available_profiles: _ } => {
                let mut r = String::new();
                append_str(&mut r, "Authentication required");
                r
            },
            CliError::InvalidArguments(f0) => {
                let mut r = String::new();
                append_str(&mut r, "Invalid arguments: ");
                append_str(&mut r, f0.as_str());
                r
            },
            CliError::NotImplemented { command } => {
                let mut r = String::new();
                append_str(&mut r, "Command not implemented: ");
                append_str(&mut r, command.as_str());
                r
            },
        }
    }
}

/// Errors reported by the Metabase HTTP API.
#[derive(Debug)]
pub enum ApiError {
    Timeout { timeout_secs: u64, endpoint: String },
    Http { status: u16, endpoint: String, message: String },
    Unauthorized { status: u16, endpoint: String, server_message: String },
}

/// The message of a [`ApiError`].
pub open spec fn api_error_text(e: ApiError) -> Seq<char> {
    match e {
        ApiError::Timeout { timeout_secs, endpoint: _ } => "Request timed out after "@ + decimal(timeout_secs as nat) + "s"@,
        ApiError::Http { status, endpoint: _, message } => "HTTP error: "@ + decimal(status as nat) + " "@ + message@,
        ApiError::Unauthorized { status: _, endpoint: _, server_message: _ } => "Authentication failed"@,
    }
}

impl ApiError {
    /// The message of this error.
    pub fn to_display_string(&self) -> (r: String)
        ensures
            r@ == api_error_text(*self),
    {
        match self {
            ApiError::Timeout { timeout_secs, endpoint: _ } => {
                let mut r = String::new();
                append_str(&mut r, "Request timed out after ");
                push_decimal(&mut r, *timeout_secs as u64);
                append_str(&mut r, "s");
                r
            },
            ApiError::Http { status, endpoint: _, message } => {
                let mut r = String::new();
                append_str(&mut r, "HTTP error: ");
                push_decimal(&mut r, *status as u64);
                append_str(&mut r, " ");
                append_str(&mut r, message.as_str());
                r
            },
            ApiError::Unauthorized { status: _, endpoint: _, server_message: _ } => {
                let mut r = String::new();
                append_str(&mut r, "Authentication failed");
                r
            },
        }
    }
}

/// Authentication errors.
#[derive(Debug)]
pub enum AuthError {
    InvalidCredentials,
    SessionInvalid,
    LoginFailed,
    ApiKeyInvalid,
}

/// The message of a [`AuthError`].
pub open spec fn auth_error_text(e: AuthError) -> Seq<char> {
    match e {
        AuthError::InvalidCredentials => "Login failed: Invalid credentials"@,
        AuthError::SessionInvalid => "Session expired or invalid"@,
        AuthError::LoginFailed => "Login failed"@,
        AuthError::ApiKeyInvalid => "API key authentication failed"@,
    }
}

impl AuthError {
    /// The message of this error.
    pub fn to_display_string(&self) -> (r: String)
        ensures
            r@ == auth_error_text(*self),
    {
        match self {
            AuthError::InvalidCredentials => {
                let mut r = String::new();
                append_str(&mut r, "Login failed: Invalid credentials");
                r
            },
            AuthError::SessionInvalid => {
                let mut r = String::new();
                append_str(&mut r, "Session expired or invalid");
                r
            },
            AuthError::LoginFailed => {
                let mut r = String::new();
                append_str(&mut r, "Login failed");
                r
            },
            AuthError::ApiKeyInvalid => {
                let mut r = String::new();
                append_str(&mut r, "API key authentication failed");
                r
            },
        }
    }
}

/// Errors of the local configuration and session storage.
#[derive(Debug)]
pub enum StorageError {
    KeyringError(String),
    FileIo { path: String, source: String },
    ConfigParseError { message: String },
    ConfigDirNotFound,
}

/// The message of a [`StorageError`].
pub open spec fn storage_error_text(e: StorageError) -> Seq<char> {
    match e {
        StorageError::KeyringError(f0) => "Keyring error: "@ + f0@,
        StorageError::FileIo { path, source } => "File I/O error at "@ + path@ + ": "@ + source@,
        StorageError::ConfigParseError { message } => "Configuration parse error: "@ + message@,
        StorageError::ConfigDirNotFound => "Configuration directory not found"@,
    }
}

impl StorageError {
    /// The message of this error.
    pub fn to_display_string(&self) -> (r: String)
        ensures
            r@ == storage_error_text(*self),
    {
        match self {
            StorageError::KeyringError(f0) => {
                let mut r = String::new();
                append_str(&mut r, "Keyring error: ");
                append_str(&mut r, f0.as_str());
                r
            },
            StorageError::FileIo { path, source } => {
                let mut r = String::new();
                append_str(&mut r, "File I/O error at ");
                append_str(&mut r, path.as_str());
                append_str(&mut r, ": ");
                append_str(&mut r, source.as_str());
                r
            },
            StorageError::ConfigParseError { message } => {
                let mut r = String::new();
                append_str(&mut r, "Configuration parse error: ");
                append_str(&mut r, message.as_str());
                r
            },
            StorageError::ConfigDirNotFound => {
                let mut r = String::new();
                append_str(&mut r, "Configuration directory not found");
                r
            },
        }
    }
}

/// Errors while formatting output.
#[derive(Debug)]
pub enum DisplayError {
    TableFormat(String),
    TerminalOutput(String),
    Pagination(String),
}

/// The message of a [`DisplayError`].
pub open spec fn display_error_text(e: DisplayError) -> Seq<char> {
    match e {
        DisplayError::TableFormat(f0) => "Table formatting failed: "@ + f0@,
        DisplayError::TerminalOutput(f0) => "Terminal output error: "@ + f0@,
        DisplayError::Pagination(f0) => "Pagination error: "@ + f0@,
    }
}

impl DisplayError {
    /// The message of this error.
    pub fn to_display_string(&self) -> (r: String)
        ensures
            r@ == display_error_text(*self),
    {
        match self {
            DisplayError::TableFormat(f0) => {
                let mut r = String::new();
                append_str(&mut r, "Table formatting failed: ");
                append_str(&mut r, f0.as_str());
                r
            },
            DisplayError::TerminalOutput(f0) => {
                let mut r = String::new();
                append_str(&mut r, "Terminal output error: ");
                append_str(&mut r, f0.as_str());
                r
            },
            DisplayError::Pagination(f0) => {
                let mut r = String::new();
                append_str(&mut r, "Pagination error: ");
                append_str(&mut r, f0.as_str());
                r
            },
        }
    }
}

/// Errors about questions.
#[derive(Debug)]
pub enum QuestionError {
    NotFound { id: u32 },
    ExecutionFailed { id: u32, reason: String },
    InvalidParameter { parameter: String },
    ListFailed { status_code: u16 },
}

/// The message of a [`QuestionError`].
pub open spec fn question_error_text(e: QuestionError) -> Seq<char> {
    match e {
        QuestionError::NotFound { id } => "Question "@ + decimal(id as nat) + " not found"@,
        QuestionError::ExecutionFailed { id, reason } => "Question execution failed for ID "@ + decimal(id as nat) + ": "@ + reason@,
        QuestionError::InvalidParameter { parameter } => "Invalid parameter "@ + parameter@,
        QuestionError::ListFailed { status_code } => "Question list retrieval failed with status "@ + decimal(status_code as nat),
    }
}

impl QuestionError {
    /// The message of this error.
    pub fn to_display_string(&self) -> (r: String)
        ensures
            r@ == question_error_text(*self),
    {
        match self {
            QuestionError::NotFound { id } => {
                let mut r = String::new();
                append_str(&mut r, "Question ");
                push_decimal(&mut r, *id as u64);
                append_str(&mut r, " not found");
                r
            },
            QuestionError::ExecutionFailed { id, reason } => {
                let mut r = String::new();
                append_str(&mut r, "Question execution failed for ID ");
                push_decimal(&mut r, *id as u64);
                append_str(&mut r, ": ");
                append_str(&mut r, reason.as_str());
                r
            },
            QuestionError::InvalidParameter { parameter } => {
                let mut r = String::new();
                append_str(&mut r, "Invalid parameter ");
                append_str(&mut r, parameter.as_str());
                r
            },
            QuestionError::ListFailed { status_code } => {
                let mut r = String::new();
                append_str(&mut r, "Question list retrieval failed with status ");
                push_decimal(&mut r, *status_code as u64);
                r
            },
        }
    }
}

/// Configuration errors.
#[derive(Debug)]
pub enum ConfigError {
    FileNotFound { path: String, hint: String },
    MissingField { field: String, field_type: String },
    InvalidValue { field: String, value: String, reason: String },
}

/// The message of a [`ConfigError`].
pub open spec fn config_error_text(e: ConfigError) -> Seq<char> {
    match e {
        ConfigError::FileNotFound { path, hint: _ } => "Configuration file not found: "@ + path@,
        ConfigError::MissingField { field, field_type: _ } => "Configuration field '"@ + field@ + "' is missing"@,
        ConfigError::InvalidValue { field, value, reason: _ } => "Invalid configuration value for '"@ + field@ + "': "@ + value@,
    }
}

impl ConfigError {
    /// The message of this error.
    pub fn to_display_string(&self) -> (r: String)
        ensures
            r@ == config_error_text(*self),
    {
        match self {
            ConfigError::FileNotFound { path, hint: _ } => {
                let mut r = String::new();
                append_str(&mut r, "Configuration file not found: ");
                append_str(&mut r, path.as_str());
                r
            },
            ConfigError::MissingField { field, field_type: _ } => {
                let mut r = String::new();
                append_str(&mut r, "Configuration field '");
                append_str(&mut r, field.as_str());
                append_str(&mut r, "' is missing");
                r
            },
            ConfigError::InvalidValue { field, value, reason: _ } => {
                let mut r = String::new();
                append_str(&mut r, "Invalid configuration value for '");
                append_str(&mut r, field.as_str());
                append_str(&mut r, "': ");
                append_str(&mut r, value.as_str());
                r
            },
        }
    }
}

/// Errors of the service layer.
#[derive(Debug)]
pub enum ServiceError {
    AuthService { message: String },
    ConfigService { message: String },
    QuestionService { message: String },
}

/// The message of a [`ServiceError`].
pub open spec fn service_error_text(e: ServiceError) -> Seq<char> {
    match e {
        ServiceError::AuthService { message } => "Authentication service error: "@ + message@,
        ServiceError::ConfigService { message } => "Configuration service error: "@ + message@,
        ServiceError::QuestionService { message } => "Question service error: "@ + message@,
    }
}

impl ServiceError {
    /// The message of this error.
    pub fn to_display_string(&self) -> (r: String)
        ensures
            r@ == service_error_text(*self),
    {
        match self {
            ServiceError::AuthService { message } => {
                let mut r = String::new();
                append_str(&mut r, "Authentication service error: ");
                append_str(&mut r, message.as_str());
                r
            },
            ServiceError::ConfigService { message } => {
                let mut r = String::new();
                append_str(&mut r, "Configuration service error: ");
                append_str(&mut r, message.as_str());
                r
            },
            ServiceError::QuestionService { message } => {
                let mut r = String::new();
                append_str(&mut r, "Question service error: ");
                append_str(&mut r, message.as_str());
                r
            },
        }
    }
}

/// Errors of the utility helpers.
#[derive(Debug)]
pub enum UtilsError {
    Validation { message: String },
    DataProcessing { message: String },
}

/// The message of a [`UtilsError`].
pub open spec fn utils_error_text(e: UtilsError) -> Seq<char> {
    match e {
        UtilsError::Validation { message } => "Validation error: "@ + message@,
        UtilsError::DataProcessing { message } => "Data processing error: "@ + message@,
    }
}

impl UtilsError {
    /// The message of this error.
    pub fn to_display_string(&self) -> (r: String)
        ensures
            r@ == utils_error_text(*self),
    {
        match self {
            UtilsError::Validation { message } => {
                let mut r = String::new();
                append_str(&mut r, "Validation error: ");
                append_str(&mut r, message.as_str());
                r
            },
            UtilsError::DataProcessing { message } => {
                let mut r = String::new();
                append_str(&mut r, "Data processing error: ");
                append_str(&mut r, message.as_str());
                r
            },
        }
    }
}

/// Every error of the application, by the layer it comes from.
#[derive(Debug)]
pub enum AppError {
    Cli(CliError),
    Api(ApiError),
    Config(ConfigError),
    Auth(AuthError),
    Storage(StorageError),
    Display(DisplayError),
    Question(QuestionError),
    Service(ServiceError),
    Utils(UtilsError),
}

/// The message of an [`AppError`]: the layer's name and the inner message.
pub open spec fn app_error_text(e: AppError) -> Seq<char> {
    match e {
        AppError::Cli(x) => "CliError: "@ + cli_error_text(x),
        AppError::Api(x) => "ApiError: "@ + api_error_text(x),
        AppError::Config(x) => "ConfigError: "@ + config_error_text(x),
        AppError::Auth(x) => "AuthError: "@ + auth_error_text(x),
        AppError::Storage(x) => "StorageError: "@ + storage_error_text(x),
        AppError::Display(x) => "DisplayError: "@ + display_error_text(x),
        AppError::Question(x) => "QuestionError: "@ + question_error_text(x),
        AppError::Service(x) => "ServiceError: "@ + service_error_text(x),
        AppError::Utils(x) => "UtilsError: "@ + utils_error_text(x),
    }
}

impl AppError {
    /// The message of this error.
    pub fn to_display_string(&self) -> (r: String)
        ensures
            r@ == app_error_text(*self),
    {
        let (prefix, inner) = match self {
            AppError::Cli(x) => (copy_lit("CliError: "), x.to_display_string()),
            AppError::Api(x) => (copy_lit("ApiError: "), x.to_display_string()),
            AppError::Config(x) => (copy_lit("ConfigError: "), x.to_display_string()),
            AppError::Auth(x) => (copy_lit("AuthError: "), x.to_display_string()),
            AppError::Storage(x) => (copy_lit("StorageError: "), x.to_display_string()),
            AppError::Display(x) => (copy_lit("DisplayError: "), x.to_display_string()),
            AppError::Question(x) => (copy_lit("QuestionError: "), x.to_display_string()),
            AppError::Service(x) => (copy_lit("ServiceError: "), x.to_display_string()),
            AppError::Utils(x) => (copy_lit("UtilsError: "), x.to_display_string()),
        };
        let mut r = prefix;
        append_str(&mut r, inner.as_str());
        r
    }
}

impl From<CliError> for AppError {
    fn from(e: CliError) -> (r: AppError) {
        AppError::Cli(e)
    }
}

impl vstd::std_specs::convert::FromSpecImpl<CliError> for AppError {
    open spec fn obeys_from_spec() -> bool {
        true
    }

    open spec fn from_spec(e: CliError) -> AppError {
        AppError::Cli(e)
    }
}

impl From<ApiError> for AppError {
    fn from(e: ApiError) -> (r: AppError) {
        AppError::Api(e)
    }
}

impl vstd::std_specs::convert::FromSpecImpl<ApiError> for AppError {
    open spec fn obeys_from_spec() -> bool {
        true
    }

    open spec fn from_spec(e: ApiError) -> AppError {
        AppError::Api(e)
    }
}

impl From<ConfigError> for AppError {
    fn from(e: ConfigError) -> (r: AppError) {
        AppError::Config(e)
    }
}

impl vstd::std_specs::convert::FromSpecImpl<ConfigError> for AppError {
    open spec fn obeys_from_spec() -> bool {
        true
    }

    open spec fn from_spec(e: ConfigError) -> AppError {
        AppError::Config(e)
    }
}

impl From<AuthError> for AppError {
    fn from(e: AuthError) -> (r: AppError) {
        AppError::Auth(e)
    }
}

impl vstd::std_specs::convert::FromSpecImpl<AuthError> for AppError {
    open spec fn obeys_from_spec() -> bool {
        true
    }

    open spec fn from_spec(e: AuthError) -> AppError {
        AppError::Auth(e)
    }
}

impl From<StorageError> for AppError {
    fn from(e: StorageError) -> (r: AppError) {
        AppError::Storage(e)
    }
}

impl vstd::std_specs::convert::FromSpecImpl<StorageError> for AppError {
    open spec fn obeys_from_spec() -> bool {
        true
    }

    open spec fn from_spec(e: StorageError) -> AppError {
        AppError::Storage(e)
    }
}

impl From<DisplayError> for AppError {
    fn from(e: DisplayError) -> (r: AppError) {
        AppError::Display(e)
    }
}

impl vstd::std_specs::convert::FromSpecImpl<DisplayError> for AppError {
    open spec fn obeys_from_spec() -> bool {
        true
    }

    open spec fn from_spec(e: DisplayError) -> AppError {
        AppError::Display(e)
    }
}

impl From<QuestionError> for AppError {
    fn from(e: QuestionError) -> (r: AppError) {
        AppError::Question(e)
    }
}

impl vstd::std_specs::convert::FromSpecImpl<QuestionError> for AppError {
    open spec fn obeys_from_spec() -> bool {
        true
    }

    open spec fn from_spec(e: QuestionError) -> AppError {
        AppError::Question(e)
    }
}

impl From<ServiceError> for AppError {
    fn from(e: ServiceError) -> (r: AppError) {
        AppError::Service(e)
    }
}

impl vstd::std_specs::convert::FromSpecImpl<ServiceError> for AppError {
    open spec fn obeys_from_spec() -> bool {
        true
    }

    open spec fn from_spec(e: ServiceError) -> AppError {
        AppError::Service(e)
    }
}

impl From<UtilsError> for AppError {
    fn from(e: UtilsError) -> (r: AppError) {
        AppError::Utils(e)
    }
}

impl vstd::std_specs::convert::FromSpecImpl<UtilsError> for AppError {
    open spec fn obeys_from_spec() -> bool {
        true
    }

    open spec fn from_spec(e: UtilsError) -> AppError {
        AppError::Utils(e)
    }
}

fn copy_lit(s: &str) -> (r: String)
    ensures
        r@ == s@,
{
    let mut r = String::new();
    append_str(&mut r, s);
    r
}

/// How serious an error is.
#[derive(Debug, Clone, Copy, PartialEq, Eq, Structural)]
pub enum ErrorSeverity {
    Critical,
    High,
    Medium,
    Low,
}

impl ErrorSeverity {
    /// The icon shown next to an error of this severity.
    pub fn emoji(&self) -> (r: &'static str)
        ensures
            r@ == match *self {
                ErrorSeverity::Critical => "🚨"@,
                ErrorSeverity::High => "❌"@,
                ErrorSeverity::Medium => "⚠️"@,
                ErrorSeverity::Low => "ℹ️"@,
            },
    {
        match self {
            ErrorSeverity::Critical => "🚨",
            ErrorSeverity::High => "❌",
            ErrorSeverity::Medium => "⚠️",
            ErrorSeverity::Low => "ℹ️",
        }
    }
}

/// The severity of an error: authentication, configuration and server
/// failures (status 500 and above) are high, presentation and utility
/// errors low, the rest medium.
pub open spec fn severity_of(e: AppError) -> ErrorSeverity {
    match e {
        AppError::Cli(_) => ErrorSeverity::Medium,
        AppError::Api(api) => match api {
            ApiError::Unauthorized { .. } => ErrorSeverity::High,
            ApiError::Timeout { .. } => ErrorSeverity::Medium,
            ApiError::Http { status, .. } => if status >= 500 {
                ErrorSeverity::High
            } else {
                ErrorSeverity::Medium
            },
        },
        AppError::Config(_) => ErrorSeverity::High,
        AppError::Auth(_) => ErrorSeverity::High,
        AppError::Storage(_) => ErrorSeverity::Medium,
        AppError::Display(_) => ErrorSeverity::Low,
        AppError::Question(_) => ErrorSeverity::Medium,
        AppError::Service(se) => match se {
            ServiceError::AuthService { .. } => ErrorSeverity::High,
            ServiceError::ConfigService { .. } => ErrorSeverity::Medium,
            ServiceError::QuestionService { .. } => ErrorSeverity::Medium,
        },
        AppError::Utils(_) => ErrorSeverity::Low,
    }
}

/// The short message shown to users.
pub open spec fn friendly_text(e: AppError) -> Seq<char> {
    match e {
        AppError::Auth(AuthError::InvalidCredentials) => "Invalid credentials"@,
        AppError::Auth(AuthError::SessionInvalid) => "Session expired or invalid"@,
        AppError::Config(ConfigError::FileNotFound { .. }) => "configuration file not found: "@,
        AppError::Question(QuestionError::NotFound { id }) => "Question "@ + decimal(id as nat)
            + " not found"@,
        _ => app_error_text(e),
    }
}

/// The hint on how to recover from an error, where there is one.
pub open spec fn hint_text(e: AppError) -> Option<Seq<char>> {
    match e {
        AppError::Auth(AuthError::InvalidCredentials) => Some("'mbr-cli auth login' try again"@),
        AppError::Auth(AuthError::SessionInvalid) => Some("'mbr-cli auth login' try again"@),
        AppError::Config(ConfigError::FileNotFound { .. }) => Some(
            "'mbr-cli config set --url <url>' to set configuration"@,
        ),
        AppError::Api(ApiError::Timeout { .. }) => Some(
            "Check your internet or Metabase connection and try again"@,
        ),
        AppError::Question(QuestionError::NotFound { .. }) => Some(
            "'mbr-cli query --list' to see a list of available questions"@,
        ),
        _ => None,
    }
}

impl AppError {
    /// How serious this error is.
    pub fn severity(&self) -> (r: ErrorSeverity)
        ensures
            r == severity_of(*self),
    {
        match self {
            AppError::Cli(_) => ErrorSeverity::Medium,
            AppError::Api(api_error) => match api_error {
                ApiError::Unauthorized { .. } => ErrorSeverity::High,
                ApiError::Timeout { .. } => ErrorSeverity::Medium,
                ApiError::Http { status, .. } => if *status >= 500 {
                    ErrorSeverity::High
                } else {
                    ErrorSeverity::Medium
                },
            },
            AppError::Config(_) => ErrorSeverity::High,
            AppError::Auth(_) => ErrorSeverity::High,
            AppError::Storage(_) => ErrorSeverity::Medium,
            AppError::Display(_) => ErrorSeverity::Low,
            AppError::Question(_) => ErrorSeverity::Medium,
            AppError::Service(service_error) => match service_error {
                ServiceError::AuthService { .. } => ErrorSeverity::High,
                ServiceError::ConfigService { .. } => ErrorSeverity::Medium,
                ServiceError::QuestionService { .. } => ErrorSeverity::Medium,
            },
            AppError::Utils(_) => ErrorSeverity::Low,
        }
    }

    /// The short message shown to users.
    pub fn display_friendly(&self) -> (r: String)
        ensures
            r@ == friendly_text(*self),
    {
        match self {
            AppError::Auth(AuthError::InvalidCredentials) => copy_lit("Invalid credentials"),
            AppError::Auth(AuthError::SessionInvalid) => copy_lit("Session expired or invalid"),
            AppError::Config(ConfigError::FileNotFound { .. }) => copy_lit(
                "configuration file not found: ",
            ),
            AppError::Question(QuestionError::NotFound { id }) => {
                let mut r = copy_lit("Question ");
                push_decimal(&mut r, *id as u64);
                append_str(&mut r, " not found");
                r
            },
            _ => self.to_display_string(),
        }
    }

    /// A hint on how to recover from this error, where there is one.
    pub fn troubleshooting_hint(&self) -> (r: Option<String>)
        ensures
            match (r, hint_text(*self)) {
                (Some(h), Some(t)) => h@ == t,
                (None, None) => true,
                _ => false,
            },
    {
        match self {
            AppError::Auth(AuthError::InvalidCredentials) => Some(
                copy_lit("'mbr-cli auth login' try again"),
            ),
            AppError::Auth(AuthError::SessionInvalid) => Some(
                copy_lit("'mbr-cli auth login' try again"),
            ),
            AppError::Config(ConfigError::FileNotFound { .. }) => Some(
                copy_lit("'mbr-cli config set --url <url>' to set configuration"),
            ),
            AppError::Api(ApiError::Timeout { .. }) => Some(
                copy_lit("Check your internet or Metabase connection and try again"),
            ),
            AppError::Question(QuestionError::NotFound { .. }) => Some(
                copy_lit("'mbr-cli query --list' to see a list of available questions"),
            ),
            _ => None,
        }
    }
}

} // verus!
