//! The command line: commands, output formats, exit codes, the structured
//! JSON outputs, and what each command prints.
use vstd::prelude::*;
use crate::config::{url_choice, Config};
use crate::error::{
    friendly_text, hint_text, ApiError, AppError, AuthError, CliError,
};
use crate::models::{CollectionItem, CurrentUser, Database, QueryResult, Question, TableInfo};
use crate::strings::{append_str, decimal, push_decimal, chars_of, string_from_range};

verus! {

broadcast use vstd::std_specs::vec::group_vec_axioms;

/// How command results are printed.
#[derive(Debug, Clone, Copy, PartialEq, Eq, Structural)]
pub enum OutputFormat {
    Table,
    Json,
    Csv,
}

impl OutputFormat {
    /// The format used unless another is asked for.
    pub fn default_format() -> (r: Self)
        ensures
            r == OutputFormat::Table,
    {
        OutputFormat::Table
    }
}

/// The format in effect: the global `--json` flag wins over a command's
/// `--format`.
pub fn resolve_format(json_flag: bool, command_format: OutputFormat) -> (r: OutputFormat)
    ensures
        r == if json_flag {
            OutputFormat::Json
        } else {
            command_format
        },
{
    if json_flag {
        OutputFormat::Json
    } else {
        command_format
    }
}

/// The process exit code of an error's layer.
pub open spec fn exit_code_spec(e: AppError) -> i32 {
    match e {
        AppError::Cli(_) => 1,
        AppError::Api(_) => 2,
        AppError::Auth(_) => 3,
        AppError::Config(_) => 4,
        AppError::Storage(_) => 4,
        AppError::Display(_) => 1,
        AppError::Question(_) => 2,
        AppError::Service(_) => 1,
        AppError::Utils(_) => 1,
    }
}

/// The process exit code for an error.
pub fn exit_code_for(error: &AppError) -> (r: i32)
    ensures
        r == exit_code_spec(*error),
{
    match error {
        AppError::Cli(_) => 1,
        AppError::Api(_) => 2,
        AppError::Auth(_) => 3,
        AppError::Config(_) => 4,
        AppError::Storage(_) => 4,
        AppError::Display(_) => 1,
        AppError::Question(_) => 2,
        AppError::Service(_) => 1,
        AppError::Utils(_) => 1,
    }
}

/// The short code of an error's layer in JSON error output.
pub open spec fn error_code_spec(e: AppError) -> Seq<char> {
    match e {
        AppError::Cli(_) => "cli"@,
        AppError::Api(_) => "api"@,
        AppError::Auth(_) => "auth"@,
        AppError::Config(_) => "config"@,
        AppError::Storage(_) => "storage"@,
        AppError::Display(_) => "display"@,
        AppError::Question(_) => "question"@,
        AppError::Service(_) => "service"@,
        AppError::Utils(_) => "utils"@,
    }
}

/// The short code of an error's layer.
pub fn error_code(error: &AppError) -> (r: &'static str)
    ensures
        r@ == error_code_spec(*error),
{
    match error {
        AppError::Cli(_) => "cli",
        AppError::Api(_) => "api",
        AppError::Auth(_) => "auth",
        AppError::Config(_) => "config",
        AppError::Storage(_) => "storage",
        AppError::Display(_) => "display",
        AppError::Question(_) => "question",
        AppError::Service(_) => "service",
        AppError::Utils(_) => "utils",
    }
}

/// Color output control.
#[derive(Debug, Clone, Copy, PartialEq, Eq, Structural)]
pub enum ColorChoice {
    Auto,
    Always,
    Never,
}

/// Whether standard output is a terminal (`atty::is(Stream::Stdout)`).
/// It depends on how the process was started; nothing is stated of it.
#[verifier::external_body]
pub(crate) fn stdout_is_terminal() -> (r: bool) {
    atty::is(atty::Stream::Stdout)
}

impl ColorChoice {
    /// Colors for `Always`, none for `Never`; for `Auto`, colors when
    /// standard output is a terminal.
    pub fn should_use_colors(self) -> (r: bool)
        ensures
            self == ColorChoice::Always ==> r,
            self == ColorChoice::Never ==> !r,
    {
        match self {
            ColorChoice::Always => true,
            ColorChoice::Never => false,
            ColorChoice::Auto => stdout_is_terminal(),
        }
    }
}

/// The command line.
pub struct Cli {
    pub json: bool,
    pub verbose: bool,
    pub config_dir: Option<String>,
    pub color: ColorChoice,
    pub command: Commands,
}

/// The commands.
pub enum Commands {
    Queries { search: Option<String>, collection: Option<String>, limit: u32, format: OutputFormat },
    Run {
        id: u32,
        param: Vec<String>,
        format: OutputFormat,
        limit: u32,
        full: bool,
        no_fullscreen: bool,
        offset: Option<usize>,
        page_size: usize,
    },
    Collections { format: OutputFormat },
    Databases { format: OutputFormat },
    Tables { database_id: u32, schema: String, format: OutputFormat },
    Status { format: OutputFormat },
    Login,
    Logout,
    Config { command: ConfigCommands },
}

/// The configuration commands.
#[derive(Debug)]
pub enum ConfigCommands {
    SetUrl { url: String, format: OutputFormat },
    Validate { format: OutputFormat },
}

// === Structured output ===

/// The `status` command's JSON.
pub struct StatusOutput {
    pub url: Option<String>,
    pub session: Option<SessionInfo>,
}

/// The session part of `status`.
pub struct SessionInfo {
    pub username: String,
    pub created_at: String,
}

/// The `login` command's JSON.
pub struct LoginOutput {
    pub success: bool,
    pub username: String,
    pub url: String,
}

/// The `logout` command's JSON.
pub struct LogoutOutput {
    pub success: bool,
}

/// The `config set-url` command's JSON.
pub struct ConfigSetOutput {
    pub success: bool,
    pub url: String,
}

/// The `config validate` command's JSON.
pub struct ConfigValidateOutput {
    pub valid: bool,
    pub user: Option<ValidateUserInfo>,
    pub error: Option<String>,
}

/// The user part of `config validate`.
pub struct ValidateUserInfo {
    pub id: u32,
    pub email: String,
    pub name: Option<String>,
    pub is_superuser: Option<bool>,
}

/// A JSON error.
pub struct JsonErrorOutput {
    pub error: JsonErrorDetail,
}

/// Code, message and hint of a JSON error.
pub struct JsonErrorDetail {
    pub code: String,
    pub message: String,
    pub hint: Option<String>,
}

/// The JSON error of an error: its code, friendly message and hint.
pub fn json_error_output(error: &AppError) -> (r: JsonErrorOutput)
    ensures
        r.error.code@ == error_code_spec(*error),
        r.error.message@ == friendly_text(*error),
        match hint_text(*error) {
            Some(h) => (r.error.hint matches Some(t) && t@ == h),
            None => r.error.hint is None,
        },
{
    JsonErrorOutput {
        error: JsonErrorDetail {
            code: error_code(error).to_string(),
            message: error.display_friendly(),
            hint: error.troubleshooting_hint(),
        },
    }
}

/// The name shown for a user: the common name, else the first name.
pub fn user_display_name(user: &CurrentUser) -> (r: Option<String>)
    ensures
        r == match user.common_name {
            Some(n) => Some(n),
            None => user.first_name,
        },
{
    match &user.common_name {
        Some(n) => Some(n.clone()),
        None => user.first_name.clone(),
    }
}

/// The `config validate` JSON for a validated user.
pub fn validated_output(user: &CurrentUser) -> (r: ConfigValidateOutput)
    ensures
        r.valid,
        r.error is None,
        r.user matches Some(u) && u.id == user.id && u.email == user.email && u.is_superuser
            == user.is_superuser && u.name == match user.common_name {
            Some(n) => Some(n),
            None => user.first_name,
        },
{
    ConfigValidateOutput {
        valid: true,
        user: Some(ValidateUserInfo {
            id: user.id,
            email: user.email.clone(),
            name: user_display_name(user),
            is_superuser: user.is_superuser,
        }),
        error: None,
    }
}

/// The `config validate` JSON for a failure with a message.
pub fn invalid_output(message: String) -> (r: ConfigValidateOutput)
    ensures
        !r.valid,
        r.user is None,
        r.error == Some(message),
{
    ConfigValidateOutput { valid: false, user: None, error: Some(message) }
}

// === Run parameters and ranges ===

/// The position of the first `=`, if any.
pub open spec fn first_eq(s: Seq<char>) -> Option<nat>
    decreases s.len(),
{
    if s.len() == 0 {
        None
    } else if s[0] == '=' {
        Some(0)
    } else {
        match first_eq(s.drop_first()) {
            Some(i) => Some(i + 1),
            None => None,
        }
    }
}

/// `key=value` split at the first `=`.
pub open spec fn split_param(s: Seq<char>) -> Option<(Seq<char>, Seq<char>)> {
    match first_eq(s) {
        Some(i) => Some((s.take(i as int), s.skip(i as int + 1))),
        None => None,
    }
}

proof fn lemma_first_eq(s: Seq<char>, i: int)
    requires
        0 <= i <= s.len(),
        forall|j: int| 0 <= j < i ==> s[j] != '=',
    ensures
        i < s.len() && s[i] == '=' ==> first_eq(s) == Some(i as nat),
        i == s.len() ==> first_eq(s) is None,
    decreases i,
{
    if i > 0 {
        lemma_first_eq(s.drop_first(), i - 1);
    }
}

/// The pair of texts of a split parameter.
pub open spec fn pair_texts(p: Option<(String, String)>) -> Option<(Seq<char>, Seq<char>)> {
    match p {
        Some((k, v)) => Some((k@, v@)),
        None => None,
    }
}

/// Split a `key=value` parameter at its first `=`; `None` without `=`.
pub fn split_once_eq(s: &str) -> (r: Option<(String, String)>)
    ensures
        pair_texts(r) == split_param(s@),
{
    let v = chars_of(s);
    let mut i: usize = 0;
    while i < v.len()
        invariant
            v@ == s@,
            0 <= i <= v@.len(),
            forall|j: int| 0 <= j < i ==> v@[j] != '=',
        decreases v@.len() - i,
    {
        if v[i] == '=' {
            proof {
                lemma_first_eq(s@, i as int);
            }
            let k = string_from_range(&v, 0, i);
            let val = string_from_range(&v, i + 1, v.len());
            assert(k@ =~= s@.take(i as int));
            assert(val@ =~= s@.skip(i + 1));
            return Some((k, val));
        }
        i = i + 1;
    }
    proof {
        lemma_first_eq(s@, i as int);
    }
    None
}

/// The `key=value` pairs among run parameters, in order.
pub open spec fn param_pairs(params: Seq<Seq<char>>) -> Seq<(Seq<char>, Seq<char>)>
    decreases params.len(),
{
    if params.len() == 0 {
        Seq::empty()
    } else {
        let rest = param_pairs(params.drop_last());
        match split_param(params.last()) {
            Some(p) => rest.push(p),
            None => rest,
        }
    }
}

/// The run parameters without `=`, in order.
pub open spec fn params_without_eq(params: Seq<Seq<char>>) -> Seq<Seq<char>>
    decreases params.len(),
{
    if params.len() == 0 {
        Seq::empty()
    } else {
        let rest = params_without_eq(params.drop_last());
        match split_param(params.last()) {
            Some(_) => rest,
            None => rest.push(params.last()),
        }
    }
}

/// Texts of strings.
pub open spec fn strings_view(v: Seq<String>) -> Seq<Seq<char>> {
    v.map_values(|s: String| s@)
}

/// Texts of pairs of strings.
pub open spec fn pairs_texts(v: Seq<(String, String)>) -> Seq<(Seq<char>, Seq<char>)> {
    v.map_values(|p: (String, String)| (p.0@, p.1@))
}

/// Run parameters: the `key=value` pairs in order, and the entries without
/// `=` (each warned about).
pub fn parse_run_params(params: &Vec<String>) -> (r: (Vec<(String, String)>, Vec<String>))
    ensures
        pairs_texts(r.0@) == param_pairs(strings_view(params@)),
        strings_view(r.1@) == params_without_eq(strings_view(params@)),
{
    let mut pairs: Vec<(String, String)> = Vec::new();
    let mut invalid: Vec<String> = Vec::new();
    let mut i: usize = 0;
    while i < params.len()
        invariant
            0 <= i <= params@.len(),
            pairs_texts(pairs@) == param_pairs(strings_view(params@).take(i as int)),
            strings_view(invalid@) == params_without_eq(strings_view(params@).take(i as int)),
        decreases params@.len() - i,
    {
        let ghost before = strings_view(params@).take(i as int);
        let ghost now = strings_view(params@).take(i + 1);
        assert(now.drop_last() =~= before);
        assert(now.last() == params@[i as int]@);
        match split_once_eq(params[i].as_str()) {
            Some(p) => {
                pairs.push(p);
                assert(pairs_texts(pairs@) =~= param_pairs(now));
                assert(strings_view(invalid@) =~= params_without_eq(now));
            },
            None => {
                invalid.push(params[i].clone());
                assert(pairs_texts(pairs@) =~= param_pairs(now));
                assert(strings_view(invalid@) =~= params_without_eq(now));
            },
        }
        i = i + 1;
    }
    assert(strings_view(params@).take(params@.len() as int) =~= strings_view(params@));
    (pairs, invalid)
}

/// First and last record numbers shown by `run`: from the offset plus one
/// (or 1), over the rows kept (at most `limit` unless `full`).
pub open spec fn run_range(offset: Option<usize>, full: bool, limit: u32, rows: nat) -> (nat, nat) {
    let start: nat = match offset {
        Some(o) => (o + 1) as nat,
        None => 1,
    };
    let shown: nat = if full || rows <= limit {
        rows
    } else {
        limit as nat
    };
    if shown > 0 {
        (start, (start + shown - 1) as nat)
    } else {
        (start, start)
    }
}

/// The record range of `run`.
pub fn run_display_range(offset: Option<usize>, full: bool, limit: u32, rows: usize) -> (r: (usize, usize))
    requires
        offset matches Some(o) ==> o + rows < usize::MAX,
    ensures
        (r.0 as nat, r.1 as nat) == run_range(offset, full, limit, rows as nat),
{
    let start = match offset {
        Some(o) => o + 1,
        None => 1,
    };
    let shown = if full || rows <= limit as usize {
        rows
    } else {
        limit as usize
    };
    if shown > 0 {
        (start, start + (shown - 1))
    } else {
        (start, start)
    }
}

/// The rows `run` prints: all of them with `--full`, else at most
/// `limit`, the first ones.
pub fn limit_run_rows(result: QueryResult, full: bool, limit: u32) -> (r: QueryResult)
    ensures
        r.data.cols == result.data.cols,
        r.data.rows@ == if full || result.data.rows@.len() <= limit {
            result.data.rows@
        } else {
            result.data.rows@.take(limit as int)
        },
{
    let mut out = result;
    if !full {
        out.data.rows.truncate(limit as usize);
    }
    proof {
        if !full && result.data.rows@.len() > limit {
            assert(result.data.rows@.subrange(0, limit as int) =~= result.data.rows@.take(limit as int));
        }
    }
    out
}

/// The offset `run` applies: a positive one, else none.
pub fn run_offset(offset: Option<usize>) -> (r: Option<usize>)
    ensures
        r == match offset {
            Some(o) => if o > 0 { Some(o) } else { None },
            None => None,
        },
{
    match offset {
        Some(o) => if o > 0 { Some(o) } else { None },
        None => None,
    }
}

/// The page size of `run`'s table: none with `--full` or in full screen,
/// else the page size given.
pub fn run_page_size(full: bool, no_fullscreen: bool, page_size: usize) -> (r: Option<usize>)
    ensures
        r == if full || !no_fullscreen { None } else { Some(page_size) },
{
    if full || !no_fullscreen { None } else { Some(page_size) }
}

/// The parameters `run` sends: none when there are none.
pub fn run_parameters(params: Vec<(String, String)>) -> (r: Option<Vec<(String, String)>>)
    ensures
        params@.len() == 0 ==> r is None,
        params@.len() > 0 ==> r == Some(params),
{
    if params.len() == 0 { None } else { Some(params) }
}

/// The stored session's token, when the session is for `url`.
pub fn session_token_for(session: &Option<crate::session::Session>, url: &str) -> (r: Option<String>)
    ensures
        r == match *session {
            Some(s) => if s.url@ == url@ { Some(s.session_token) } else { None },
            None => None,
        },
{
    match session {
        Some(s) => if crate::strings::str_eq(s.url.as_str(), url) {
            Some(s.session_token.clone())
        } else {
            None
        },
        None => None,
    }
}

/// What follows a command's first run.
pub enum AfterRun {
    /// The result stands.
    Finish(Result<(), AppError>),
    /// The server refused the session: log in again and run once more.
    Relogin,
}

/// What follows a command's first run: a refused session asks for a new
/// login; any other result stands.
pub fn after_first_run(result: Result<(), AppError>) -> (r: AfterRun)
    ensures
        match result {
            Err(AppError::Api(ApiError::Unauthorized { .. })) => r is Relogin,
            _ => r == AfterRun::Finish(result),
        },
{
    match result {
        Err(AppError::Api(ApiError::Unauthorized { .. })) => AfterRun::Relogin,
        other => AfterRun::Finish(other),
    }
}

/// How a command ends after a new login was tried: the second run's result,
/// or the invalid-session error when no new login could be had.
pub fn after_relogin(second: Option<Result<(), AppError>>) -> (r: Result<(), AppError>)
    ensures
        r == match second {
            Some(x) => x,
            None => Err(AppError::Auth(AuthError::SessionInvalid)),
        },
{
    match second {
        Some(x) => x,
        None => Err(AppError::Auth(AuthError::SessionInvalid)),
    }
}

// === Listing lines ===

fn opt_decimal(v: Option<u32>, none: &str) -> (r: String)
    ensures
        r@ == match v {
            Some(n) => decimal(n as nat),
            None => none@,
        },
{
    match v {
        Some(n) => {
            let mut s = String::new();
            push_decimal(&mut s, n as u64);
            s
        },
        None => none.to_string(),
    }
}

fn opt_text(v: &Option<String>, none: &str) -> (r: String)
    ensures
        r@ == match *v {
            Some(s) => s@,
            None => none@,
        },
{
    match v {
        Some(s) => s.clone(),
        None => none.to_string(),
    }
}

/// Text of an optional number, `none` when absent.
pub open spec fn num_or(v: Option<u32>, none: Seq<char>) -> Seq<char> {
    match v {
        Some(n) => decimal(n as nat),
        None => none,
    }
}

/// Text of an optional string, `none` when absent.
pub open spec fn text_or(v: Option<String>, none: Seq<char>) -> Seq<char> {
    match v {
        Some(s) => s@,
        None => none,
    }
}

/// The table row of a collection: id (or `-`), name, description (or
/// `-`), and whether it is personal.
pub open spec fn collection_cells(c: CollectionItem) -> Seq<Seq<char>> {
    seq![
        num_or(c.id, "-"@),
        c.name@,
        text_or(c.description, "-"@),
        if c.personal_owner_id is Some { "Yes"@ } else { "No"@ },
    ]
}

/// The table rows of collections.
pub fn collection_rows(collections: &Vec<CollectionItem>) -> (r: Vec<Vec<String>>)
    ensures
        r@.len() == collections@.len(),
        forall|i: int| 0 <= i < r@.len() ==> (#[trigger] r@[i])@.map_values(|s: String| s@)
            == collection_cells(collections@[i]),
{
    proof {
        reveal_strlit("-");
        reveal_strlit("Yes");
        reveal_strlit("No");
    }
    let mut out: Vec<Vec<String>> = Vec::new();
    let mut i: usize = 0;
    while i < collections.len()
        invariant
            0 <= i <= collections@.len(),
            out@.len() == i,
            forall|k: int| 0 <= k < i ==> (#[trigger] out@[k])@.map_values(|s: String| s@)
                == collection_cells(collections@[k]),
        decreases collections@.len() - i,
    {
        let c = &collections[i];
        let mut row: Vec<String> = Vec::new();
        row.push(opt_decimal(c.id, "-"));
        row.push(c.name.clone());
        row.push(opt_text(&c.description, "-"));
        row.push(if c.personal_owner_id.is_some() { "Yes".to_string() } else { "No".to_string() });
        assert(row@.map_values(|s: String| s@) =~= collection_cells(collections@[i as int]));
        out.push(row);
        i = i + 1;
    }
    out
}

/// The table row of a database: id, name, engine (or `-`), and whether it
/// is the sample database.
pub open spec fn database_cells(d: Database) -> Seq<Seq<char>> {
    seq![decimal(d.id as nat), d.name@, text_or(d.engine, "-"@), if d.is_sample { "Yes"@ } else { "No"@ }]
}

/// The table rows of databases.
pub fn database_rows(databases: &Vec<Database>) -> (r: Vec<Vec<String>>)
    ensures
        r@.len() == databases@.len(),
        forall|i: int| 0 <= i < r@.len() ==> (#[trigger] r@[i])@.map_values(|s: String| s@)
            == database_cells(databases@[i]),
{
    proof {
        reveal_strlit("-");
        reveal_strlit("Yes");
        reveal_strlit("No");
    }
    let mut out: Vec<Vec<String>> = Vec::new();
    let mut i: usize = 0;
    while i < databases.len()
        invariant
            0 <= i <= databases@.len(),
            out@.len() == i,
            forall|k: int| 0 <= k < i ==> (#[trigger] out@[k])@.map_values(|s: String| s@)
                == database_cells(databases@[k]),
        decreases databases@.len() - i,
    {
        let d = &databases[i];
        let mut row: Vec<String> = Vec::new();
        row.push(opt_decimal(Some(d.id), "-"));
        row.push(d.name.clone());
        row.push(opt_text(&d.engine, "-"));
        row.push(if d.is_sample { "Yes".to_string() } else { "No".to_string() });
        assert(row@.map_values(|s: String| s@) =~= database_cells(databases@[i as int]));
        out.push(row);
        i = i + 1;
    }
    out
}

/// The table row of a table: id, name, schema, display name and
/// description (each `-` when absent).
pub open spec fn table_cells(t: TableInfo) -> Seq<Seq<char>> {
    seq![
        decimal(t.id as nat),
        t.name@,
        text_or(t.schema, "-"@),
        text_or(t.display_name, "-"@),
        text_or(t.description, "-"@),
    ]
}

/// The table rows of tables.
pub fn table_rows(tables: &Vec<TableInfo>) -> (r: Vec<Vec<String>>)
    ensures
        r@.len() == tables@.len(),
        forall|i: int| 0 <= i < r@.len() ==> (#[trigger] r@[i])@.map_values(|s: String| s@)
            == table_cells(tables@[i]),
{
    proof {
        reveal_strlit("-");
    }
    let mut out: Vec<Vec<String>> = Vec::new();
    let mut i: usize = 0;
    while i < tables.len()
        invariant
            0 <= i <= tables@.len(),
            out@.len() == i,
            forall|k: int| 0 <= k < i ==> (#[trigger] out@[k])@.map_values(|s: String| s@)
                == table_cells(tables@[k]),
        decreases tables@.len() - i,
    {
        let t = &tables[i];
        let mut row: Vec<String> = Vec::new();
        row.push(opt_decimal(Some(t.id), "-"));
        row.push(t.name.clone());
        row.push(opt_text(&t.schema, "-"));
        row.push(opt_text(&t.display_name, "-"));
        row.push(opt_text(&t.description, "-"));
        assert(row@.map_values(|s: String| s@) =~= table_cells(tables@[i as int]));
        out.push(row);
        i = i + 1;
    }
    out
}

/// The CSV line of a question: id, name, collection id and description,
/// unquoted.
pub open spec fn question_csv(q: Question) -> Seq<char> {
    decimal(q.id as nat) + ","@ + q.name@ + ","@ + num_or(q.collection_id, Seq::empty()) + ","@
        + text_or(q.description, Seq::empty())
}

/// The CSV line of a question.
pub fn question_csv_line(q: &Question) -> (r: String)
    ensures
        r@ == question_csv(*q),
{
    proof {
        reveal_strlit(",");
        reveal_strlit("");
    }
    let mut s = String::new();
    push_decimal(&mut s, q.id as u64);
    append_str(&mut s, ",");
    append_str(&mut s, q.name.as_str());
    append_str(&mut s, ",");
    let cid = opt_decimal(q.collection_id, "");
    append_str(&mut s, cid.as_str());
    append_str(&mut s, ",");
    let d = opt_text(&q.description, "");
    append_str(&mut s, d.as_str());
    s
}

// === Dispatch ===

/// What the command line does for a command, after resolving the output
/// format; the steps that talk to the server or the disk are the
/// application's.
#[derive(Debug)]
pub enum CommandPlan {
    Login,
    Logout,
    Status { format: OutputFormat },
    SetUrl { url: String, format: OutputFormat },
    Validate { format: OutputFormat },
    Queries { search: Option<String>, limit: u32, collection: Option<String>, format: OutputFormat },
    Run {
        id: u32,
        params: Vec<(String, String)>,
        invalid_params: Vec<String>,
        format: OutputFormat,
        limit: u32,
        full: bool,
        no_fullscreen: bool,
        offset: Option<usize>,
        page_size: usize,
    },
    Collections { format: OutputFormat },
    Databases { format: OutputFormat },
    Tables { database_id: u32, schema: String, format: OutputFormat },
}

/// Runs commands against the configured server.
pub struct Dispatcher {
    pub config: Config,
    pub verbose: bool,
    pub use_colors: bool,
    pub json_mode: bool,
    /// The value of `MBR_URL`, as read at start.
    pub env_url: Option<String>,
}

/// The message when no URL is configured.
pub open spec fn missing_url_message() -> Seq<char> {
    "Metabase URL is not configured. Use 'mbr-cli config set-url <url>' or set MBR_URL environment variable"@
}

impl Dispatcher {
    /// A dispatcher without environment URL.
    pub fn new(config: Config, verbose: bool, use_colors: bool, json_mode: bool) -> (r: Self)
        ensures
            r.config.url == config.url,
            r.verbose == verbose,
            r.use_colors == use_colors,
            r.json_mode == json_mode,
            r.env_url is None,
    {
        Dispatcher { config, verbose, use_colors, json_mode, env_url: None }
    }

    /// A dispatcher falling back to the value of `MBR_URL`.
    pub fn with_env_url(config: Config, verbose: bool, use_colors: bool, json_mode: bool, env_url: Option<String>) -> (r: Self)
        ensures
            r.config.url == config.url,
            r.verbose == verbose,
            r.use_colors == use_colors,
            r.json_mode == json_mode,
            r.env_url == env_url,
    {
        Dispatcher { config, verbose, use_colors, json_mode, env_url }
    }

    /// The URL in effect, or the error that none is configured.
    pub fn get_url(&self) -> (r: Result<String, AppError>)
        ensures
            match url_choice(self.config.url, self.env_url) {
                Some(u) => r == Ok::<String, AppError>(u),
                None => (r matches Err(AppError::Cli(CliError::InvalidArguments(m))) && m@
                    == missing_url_message()),
            },
    {
        match self.config.url_or_env(self.env_url.clone()) {
            Some(u) => Ok(u),
            None => {
                proof {
                    reveal_strlit("Metabase URL is not configured. Use 'mbr-cli config set-url <url>' or set MBR_URL environment variable");
                }
                Err(AppError::Cli(CliError::InvalidArguments(
                    "Metabase URL is not configured. Use 'mbr-cli config set-url <url>' or set MBR_URL environment variable".to_string(),
                )))
            },
        }
    }

    /// Whether an error is the server refusing the session.
    pub fn is_unauthorized(err: &AppError) -> (r: bool)
        ensures
            r == (*err matches AppError::Api(ApiError::Unauthorized { .. })),
    {
        matches!(err, AppError::Api(ApiError::Unauthorized { .. }))
    }

    /// The plan of a command: its output format resolved against `--json`,
    /// and `run` parameters split into `key=value` pairs.
    pub fn plan(&self, command: Commands) -> (r: CommandPlan)
        ensures
            match command {
                Commands::Login => r is Login,
                Commands::Logout => r is Logout,
                Commands::Status { format } => r == CommandPlan::Status {
                    format: if self.json_mode { OutputFormat::Json } else { format },
                },
                Commands::Config { command: ConfigCommands::SetUrl { url, format } } => (r matches CommandPlan::SetUrl { url: u, format: f } && u == url && f == if self.json_mode {
                    OutputFormat::Json
                } else {
                    format
                }),
                Commands::Config { command: ConfigCommands::Validate { format } } => r == CommandPlan::Validate {
                    format: if self.json_mode { OutputFormat::Json } else { format },
                },
                Commands::Queries { search, collection, limit, format } => (r matches CommandPlan::Queries { search: s, limit: l, collection: c, format: f } && s == search && l == limit && c == collection
                    && f == if self.json_mode { OutputFormat::Json } else { format }),
                Commands::Run { id, param, format, limit, full, no_fullscreen, offset, page_size } => (r matches CommandPlan::Run { id: i, params: p, invalid_params: bad, format: f, limit: l, full: fu, no_fullscreen: nf, offset: o, page_size: ps } && i == id && pairs_texts(p@) == param_pairs(strings_view(param@)) && strings_view(bad@) == params_without_eq(strings_view(param@))
                    && f == (if self.json_mode { OutputFormat::Json } else { format }) && l == limit && fu == full && nf == no_fullscreen && o == offset && ps == page_size),
                Commands::Collections { format } => r == CommandPlan::Collections {
                    format: if self.json_mode { OutputFormat::Json } else { format },
                },
                Commands::Databases { format } => r == CommandPlan::Databases {
                    format: if self.json_mode { OutputFormat::Json } else { format },
                },
                Commands::Tables { database_id, schema, format } => (r matches CommandPlan::Tables { database_id: d, schema: s, format: f } && d == database_id && s == schema && f == if self.json_mode {
                    OutputFormat::Json
                } else {
                    format
                }),
            },
    {
        match command {
            Commands::Login => CommandPlan::Login,
            Commands::Logout => CommandPlan::Logout,
            Commands::Status { format } => CommandPlan::Status { format: resolve_format(self.json_mode, format) },
            Commands::Config { command } => match command {
                ConfigCommands::SetUrl { url, format } => CommandPlan::SetUrl {
                    url,
                    format: resolve_format(self.json_mode, format),
                },
                ConfigCommands::Validate { format } => CommandPlan::Validate {
                    format: resolve_format(self.json_mode, format),
                },
            },
            Commands::Queries { search, collection, limit, format } => CommandPlan::Queries {
                search,
                limit,
                collection,
                format: resolve_format(self.json_mode, format),
            },
            Commands::Run { id, param, format, limit, full, no_fullscreen, offset, page_size } => {
                let (params, invalid_params) = parse_run_params(&param);
                CommandPlan::Run {
                    id,
                    params,
                    invalid_params,
                    format: resolve_format(self.json_mode, format),
                    limit,
                    full,
                    no_fullscreen,
                    offset,
                    page_size,
                }
            },
            Commands::Collections { format } => CommandPlan::Collections {
                format: resolve_format(self.json_mode, format),
            },
            Commands::Databases { format } => CommandPlan::Databases {
                format: resolve_format(self.json_mode, format),
            },
            Commands::Tables { database_id, schema, format } => CommandPlan::Tables {
                database_id,
                schema,
                format: resolve_format(self.json_mode, format),
            },
        }
    }
}

} // verus!
