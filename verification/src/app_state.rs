//! The terminal application's state and decisions: actions, data requests,
//! tab switching and key handling. Outside work (sending actions, fetching
//! data) is asked for through effects that the event loop carries out.
use vstd::prelude::*;
use crate::content::{ContentPanel, ContentView, InputMode, QueryResultData};
use crate::dup::Duplicate;
use crate::models::{CollectionItem, CurrentUser, Database, JsonValue, QueryResult, Question, TableInfo};
use crate::overlays::{RecordDetailOverlay, StatusBar};
use crate::strings::{append_str, decimal, push_decimal};
use crate::ui::{tab_at, tab_index, ActiveTab, KeyCode, KeyEvent, LoadState};

verus! {

broadcast use vstd::std_specs::vec::group_vec_axioms;

/// Where the application can navigate.
#[derive(Debug, Clone, PartialEq)]
pub enum ContentTarget {
    Welcome,
    Questions,
    Collections,
    Databases,
}

/// The target of a tab position: questions, collections, databases, else
/// the welcome screen.
pub open spec fn target_at(index: nat) -> ContentTarget {
    if index == 0 {
        ContentTarget::Questions
    } else if index == 1 {
        ContentTarget::Collections
    } else if index == 2 {
        ContentTarget::Databases
    } else {
        ContentTarget::Welcome
    }
}

impl From<usize> for ContentTarget {
    fn from(index: usize) -> (r: Self) {
        match index {
            0 => ContentTarget::Questions,
            1 => ContentTarget::Collections,
            2 => ContentTarget::Databases,
            _ => ContentTarget::Welcome,
        }
    }
}

impl vstd::std_specs::convert::FromSpecImpl<usize> for ContentTarget {
    open spec fn obeys_from_spec() -> bool {
        true
    }

    open spec fn from_spec(index: usize) -> Self {
        target_at(index as nat)
    }
}

/// Data the application can ask for.
#[derive(Debug, Clone, PartialEq)]
pub enum DataRequest {
    Questions,
    SearchQuestions(String),
    FilterQuestionsByCollection(u32),
    Collections,
    Databases,
    QuestionDetails(u32),
    Execute(u32),
    Refresh,
    Schemas(u32),
    Tables(u32, String),
    TablePreview(u32, u32),
}

/// Actions processed by the application.
#[derive(Debug, Clone, PartialEq)]
pub enum AppAction {
    Quit,
    NextPanel,
    PreviousPanel,
    Navigate(ContentTarget),
    LoadData(DataRequest),
    ShowError(String),
    ClearError,
    SetStatus(String),
    ClearStatus,
    QuestionsLoaded(Vec<Question>),
    CollectionsLoaded(Vec<CollectionItem>),
    DatabasesLoaded(Vec<Database>),
    AuthValidated(CurrentUser),
    LoadFailed(DataRequest, String),
    ExecuteQuestion(u32),
    QueryResultLoaded(u64, QueryResultData),
    QueryFailed(u64, String),
    BackToQuestions,
    DrillDownCollection(u32, String),
    BackToCollections,
    DrillDownDatabase(u32, String),
    DrillDownSchema(String),
    DrillDownTable(u32, String),
    BackToDatabases,
    BackToSchemas,
    BackToTables,
    SchemasLoaded(Vec<String>),
    TablesLoaded(Vec<TableInfo>),
    TablePreviewLoaded(QueryResultData),
}

/// Connection to the server.
#[derive(Debug, Clone, PartialEq)]
pub enum ConnectionStatus {
    Disconnected,
    Connecting,
    Connected(String),
    Error(String),
}

impl ConnectionStatus {
    /// The symbol the header shows for the connection.
    pub fn indicator(&self) -> (r: &'static str)
        ensures
            r@ == match *self {
                ConnectionStatus::Disconnected => " ○ "@,
                ConnectionStatus::Connecting => " ◐ "@,
                ConnectionStatus::Connected(_) => " ● "@,
                ConnectionStatus::Error(_) => " ✗ "@,
            },
    {
        match self {
            ConnectionStatus::Disconnected => " ○ ",
            ConnectionStatus::Connecting => " ◐ ",
            ConnectionStatus::Connected(_) => " ● ",
            ConnectionStatus::Error(_) => " ✗ ",
        }
    }
}

/// Data fetched from the server.
pub struct AppData {
    pub questions: LoadState<Vec<Question>>,
    pub collections: LoadState<Vec<CollectionItem>>,
    pub databases: LoadState<Vec<Database>>,
    pub schemas: LoadState<Vec<String>>,
    pub tables: LoadState<Vec<TableInfo>>,
    pub query_result: Option<QueryResultData>,
    pub current_user: Option<CurrentUser>,
}

impl AppData {
    /// Nothing fetched yet.
    pub fn new() -> (r: Self)
        ensures
            r.questions is Idle && r.collections is Idle && r.databases is Idle,
            r.schemas is Idle && r.tables is Idle,
            r.query_result is None && r.current_user is None,
    {
        AppData {
            questions: LoadState::Idle,
            collections: LoadState::Idle,
            databases: LoadState::Idle,
            schemas: LoadState::Idle,
            tables: LoadState::Idle,
            query_result: None,
            current_user: None,
        }
    }
}

/// A fetch from the server, carried out in the background; its outcome
/// comes back as an action.
#[derive(Debug, Clone, PartialEq)]
pub enum Fetch {
    /// Questions (at most 50), with an optional search text.
    Questions { search: Option<String> },
    /// The questions of a collection (at most 100).
    CollectionQuestions { collection_id: u32 },
    Collections,
    Databases,
    Schemas { database_id: u32 },
    Tables { database_id: u32, schema: String },
    /// The first 100 rows of a table.
    TablePreview { database_id: u32, table_id: u32 },
    /// Run a question; the outcome carries the request id.
    Execute { id: u32, request_id: u64, question_name: String },
}

impl Fetch {
    /// How many items a fetch asks for: 50 questions, 100 questions of a
    /// collection, 100 preview rows; no limit for the other fetches.
    pub fn list_limit(&self) -> (r: Option<u32>)
        ensures
            r == match *self {
                Fetch::Questions { .. } => Some(50u32),
                Fetch::CollectionQuestions { .. } => Some(100u32),
                Fetch::TablePreview { .. } => Some(100u32),
                _ => None,
            },
    {
        match self {
            Fetch::Questions { .. } => Some(50),
            Fetch::CollectionQuestions { .. } => Some(100),
            Fetch::TablePreview { .. } => Some(100),
            _ => None,
        }
    }
}

/// The connection status at start: connecting with a session token,
/// disconnected without one, the error when no client could be made.
pub fn initial_status(client: &Result<bool, String>) -> (r: ConnectionStatus)
    ensures
        r == match *client {
            Ok(true) => ConnectionStatus::Connecting,
            Ok(false) => ConnectionStatus::Disconnected,
            Err(e) => ConnectionStatus::Error(e),
        },
{
    match client {
        Ok(true) => ConnectionStatus::Connecting,
        Ok(false) => ConnectionStatus::Disconnected,
        Err(e) => ConnectionStatus::Error(e.clone()),
    }
}

/// The action that reports a fetch failing with `error`.
pub open spec fn fetch_failure(f: Fetch, error: String) -> AppAction {
    match f {
        Fetch::Questions { .. } => AppAction::LoadFailed(DataRequest::Questions, error),
        Fetch::CollectionQuestions { collection_id } => AppAction::LoadFailed(
            DataRequest::FilterQuestionsByCollection(collection_id),
            error,
        ),
        Fetch::Collections => AppAction::LoadFailed(DataRequest::Collections, error),
        Fetch::Databases => AppAction::LoadFailed(DataRequest::Databases, error),
        Fetch::Schemas { database_id } => AppAction::LoadFailed(
            DataRequest::Schemas(database_id),
            error,
        ),
        Fetch::Tables { database_id, schema } => AppAction::LoadFailed(
            DataRequest::Tables(database_id, schema),
            error,
        ),
        Fetch::TablePreview { database_id, table_id } => AppAction::LoadFailed(
            DataRequest::TablePreview(database_id, table_id),
            error,
        ),
        Fetch::Execute { request_id, .. } => AppAction::QueryFailed(request_id, error),
    }
}

impl Fetch {
    /// The action that reports this fetch failing with `error`: a failed
    /// load of the list it fills, or a failed run.
    pub fn failure(self, error: String) -> (r: AppAction)
        ensures
            r == fetch_failure(self, error),
    {
        match self {
            Fetch::Questions { .. } => AppAction::LoadFailed(DataRequest::Questions, error),
            Fetch::CollectionQuestions { collection_id } => AppAction::LoadFailed(
                DataRequest::FilterQuestionsByCollection(collection_id),
                error,
            ),
            Fetch::Collections => AppAction::LoadFailed(DataRequest::Collections, error),
            Fetch::Databases => AppAction::LoadFailed(DataRequest::Databases, error),
            Fetch::Schemas { database_id } => AppAction::LoadFailed(
                DataRequest::Schemas(database_id),
                error,
            ),
            Fetch::Tables { database_id, schema } => AppAction::LoadFailed(
                DataRequest::Tables(database_id, schema),
                error,
            ),
            Fetch::TablePreview { database_id, table_id } => AppAction::LoadFailed(
                DataRequest::TablePreview(database_id, table_id),
                error,
            ),
            Fetch::Execute { request_id, .. } => AppAction::QueryFailed(request_id, error),
        }
    }
}

/// The rows of a table preview as a result named after the table.
pub fn table_preview_data(table_id: u32, columns: Vec<String>, rows: Vec<Vec<String>>) -> (r:
    QueryResultData)
    ensures
        r.question_id == table_id,
        r.question_name@ == "Table #"@ + decimal(table_id as nat),
        r.columns == columns,
        r.rows == rows,
{
    proof {
        reveal_strlit("Table #");
        reveal_strlit("");
    }
    QueryResultData {
        question_id: table_id,
        question_name: text_with_count("Table #", table_id as u64, ""),
        columns,
        rows,
    }
}

/// The text a result cell shows, when it is neither an array nor an object.
pub open spec fn scalar_text(v: JsonValue) -> Option<Seq<char>> {
    match v {
        JsonValue::Null => Some("—"@),
        JsonValue::Bool(b) => Some(if b { "true"@ } else { "false"@ }),
        JsonValue::Number(n) => Some(n@),
        JsonValue::String(s) => Some(s@),
        _ => None,
    }
}

/// The text of a result cell in the terminal: "—" for null, `true` or
/// `false`, a number as written, a string itself. Arrays and objects show
/// as their compact JSON, which the caller writes; for them the result is
/// `None`.
pub fn scalar_cell_text(v: &JsonValue) -> (r: Option<String>)
    ensures
        match r {
            Some(t) => scalar_text(*v) == Some(t@),
            None => scalar_text(*v) is None,
        },
{
    match v {
        JsonValue::Null => Some("—".to_string()),
        JsonValue::Bool(b) => Some(if *b { "true".to_string() } else { "false".to_string() }),
        JsonValue::Number(n) => Some(n.clone()),
        JsonValue::String(s) => Some(s.clone()),
        _ => None,
    }
}

/// The display names of a result's columns, in order.
pub fn column_names(result: &QueryResult) -> (r: Vec<String>)
    ensures
        r@.len() == result.data.cols@.len(),
        forall|i: int| 0 <= i < r@.len() ==> #[trigger] r@[i]@ == result.data.cols@[i].display_name@,
{
    let mut names: Vec<String> = Vec::new();
    let mut i: usize = 0;
    while i < result.data.cols.len()
        invariant
            i <= result.data.cols@.len(),
            names@.len() == i,
            forall|k: int| 0 <= k < i ==> #[trigger] names@[k]@ == result.data.cols@[k].display_name@,
        decreases result.data.cols@.len() - i,
    {
        names.push(result.data.cols[i].display_name.clone());
        i = i + 1;
    }
    names
}

/// Outside work asked for by the application.
#[derive(Debug, Clone, PartialEq)]
pub enum Effect {
    /// Queue an action for the next round of the event loop.
    Send(AppAction),
    /// Fetch data in the background.
    Fetch(Fetch),
}

/// The application.
pub struct App {
    pub should_quit: bool,
    pub active_tab: ActiveTab,
    pub content: ContentPanel,
    pub status_bar: StatusBar,
    /// Whether a client for the server could be made.
    pub has_service: bool,
    pub connection_status: ConnectionStatus,
    pub data: AppData,
    pub show_help: bool,
    /// Id of the latest question run, so late answers of older runs are
    /// ignored.
    pub current_request_id: u64,
    pub show_record_detail: bool,
    pub record_detail: Option<RecordDetailOverlay>,
    /// Outside work asked for and not yet carried out, oldest first.
    pub effects: Vec<Effect>,
}

/// The view of a tab.
pub open spec fn tab_view(tab: ActiveTab) -> ContentView {
    match tab {
        ActiveTab::Questions => ContentView::Questions,
        ActiveTab::Collections => ContentView::Collections,
        ActiveTab::Databases => ContentView::Databases,
    }
}

/// The view of a navigation target.
pub open spec fn target_view(t: ContentTarget) -> ContentView {
    match t {
        ContentTarget::Welcome => ContentView::Welcome,
        ContentTarget::Questions => ContentView::Questions,
        ContentTarget::Collections => ContentView::Collections,
        ContentTarget::Databases => ContentView::Databases,
    }
}

/// The name a user is shown by: common name, else first name, else e-mail.
pub open spec fn user_name(u: CurrentUser) -> Seq<char> {
    match u.common_name {
        Some(n) => n@,
        None => match u.first_name {
            Some(n) => n@,
            None => u.email@,
        },
    }
}

/// The tab to the right of `t`, wrapping around.
pub open spec fn tab_after(t: ActiveTab) -> ActiveTab {
    tab_at(((tab_index(t) + 1) % 3) as nat)
}

/// The tab to the left of `t`, wrapping around.
pub open spec fn tab_before(t: ActiveTab) -> ActiveTab {
    tab_at(((tab_index(t) + 2) % 3) as nat)
}

/// The label of a tab.
pub open spec fn tab_label(t: ActiveTab) -> Seq<char> {
    match t {
        ActiveTab::Questions => "📋 Questions"@,
        ActiveTab::Collections => "📁 Collections"@,
        ActiveTab::Databases => "🗄️ Databases"@,
    }
}

/// The name of the first question with id `id`, if any.
pub open spec fn name_of(qs: Seq<Question>, id: u32) -> Option<Seq<char>>
    decreases qs.len(),
{
    if qs.len() == 0 {
        None
    } else if qs[0].id == id {
        Some(qs[0].name@)
    } else {
        name_of(qs.drop_first(), id)
    }
}

/// The name of a question by id among loaded questions, else `Question #id`.
pub open spec fn question_name(questions: LoadState<Vec<Question>>, id: u32) -> Seq<char> {
    match questions {
        LoadState::Loaded(qs) => match name_of(qs@, id) {
            Some(n) => n,
            None => "Question #"@ + decimal(id as nat),
        },
        _ => "Question #"@ + decimal(id as nat),
    }
}

/// The request id after `id`, wrapping around.
pub open spec fn next_request_id(id: u64) -> u64 {
    if id == u64::MAX {
        0
    } else {
        (id + 1) as u64
    }
}

pub(crate) fn text_with(prefix: &str, middle: &str, suffix: &str) -> (r: String)
    ensures
        r@ == prefix@ + middle@ + suffix@,
{
    let mut s = String::new();
    append_str(&mut s, prefix);
    append_str(&mut s, middle);
    append_str(&mut s, suffix);
    s
}

pub(crate) fn text_with_count(prefix: &str, n: u64, suffix: &str) -> (r: String)
    ensures
        r@ == prefix@ + decimal(n as nat) + suffix@,
{
    let mut s = String::new();
    append_str(&mut s, prefix);
    push_decimal(&mut s, n);
    append_str(&mut s, suffix);
    s
}

impl App {
    /// Invariant: the content panel's.
    pub open spec fn wf(&self) -> bool {
        self.content.wf()
    }

    /// The status message.
    pub open spec fn message(&self) -> Seq<char> {
        self.status_bar.message@
    }

    /// The key hints, selection count, service and overlays are unchanged.
    pub open spec fn same_ui(&self, o: &Self) -> bool {
        &&& self.status_bar.bindings == o.status_bar.bindings
        &&& self.status_bar.selection_count == o.status_bar.selection_count
        &&& self.has_service == o.has_service
        &&& self.show_help == o.show_help
        &&& self.show_record_detail == o.show_record_detail
        &&& self.record_detail == o.record_detail
    }

    /// Nothing but the content panel, the data, the effects and the status
    /// message changed.
    pub open spec fn same_app(&self, o: &Self) -> bool {
        &&& self.same_ui(o)
        &&& self.should_quit == o.should_quit
        &&& self.active_tab == o.active_tab
        &&& self.connection_status == o.connection_status
        &&& self.current_request_id == o.current_request_id
    }

    /// The fetched data is unchanged, but for the parts whose flag is false.
    pub open spec fn keeps_data(
        &self,
        o: &Self,
        questions: bool,
        collections: bool,
        databases: bool,
        schemas: bool,
        tables: bool,
        result: bool,
        user: bool,
    ) -> bool {
        &&& questions ==> self.data.questions == o.data.questions
        &&& collections ==> self.data.collections == o.data.collections
        &&& databases ==> self.data.databases == o.data.databases
        &&& schemas ==> self.data.schemas == o.data.schemas
        &&& tables ==> self.data.tables == o.data.tables
        &&& result ==> self.data.query_result == o.data.query_result
        &&& user ==> self.data.current_user == o.data.current_user
    }

    /// The fetched data is unchanged.
    pub open spec fn same_data(&self, o: &Self) -> bool {
        self.keeps_data(o, true, true, true, true, true, true, true)
    }

    /// Nothing but the content panel and the status message changed.
    pub open spec fn same_state(&self, o: &Self) -> bool {
        &&& self.same_app(o)
        &&& self.same_data(o)
        &&& self.effects@ == o.effects@
    }

    /// Only the status message changed, to `m`.
    pub open spec fn message_post(&self, o: &Self, m: Seq<char>) -> bool {
        &&& self.message() == m
        &&& self.same_state(o)
        &&& self.content == o.content
    }

    /// Nothing at all changed.
    pub open spec fn unchanged(&self, o: &Self) -> bool {
        &&& self.same_app(o)
        &&& self.same_data(o)
        &&& self.content == o.content
        &&& self.message() == o.message()
        &&& self.effects@ == o.effects@
    }

    /// A modal dialog of the result view (sort, filter, search) is open.
    pub open spec fn modal_open(&self) -> bool {
        self.content.sort_mode_active || self.content.filter_mode_active
            || self.content.result_search_active
    }

    /// Whether a modal dialog of the result view is open.
    pub fn is_modal_active(&self) -> (r: bool)
        ensures
            r == self.modal_open(),
    {
        self.content.is_sort_mode_active() || self.content.is_filter_mode_active()
            || self.content.is_result_search_active()
    }

    /// The application at start: questions tab, nothing loaded or asked for.
    pub fn new(has_service: bool, connection_status: ConnectionStatus) -> (r: Self)
        ensures
            r.wf(),
            !r.should_quit,
            r.active_tab == ActiveTab::Questions,
            r.content.view == ContentView::Questions,
            r.has_service == has_service,
            r.connection_status == connection_status,
            !r.show_help && !r.show_record_detail && r.record_detail is None,
            r.current_request_id == 0,
            r.effects@.len() == 0,
            r.data.questions is Idle,
    {
        let mut content = ContentPanel::new();
        content.set_view(ContentView::Questions);
        App {
            should_quit: false,
            active_tab: ActiveTab::Questions,
            content,
            status_bar: StatusBar::new(),
            has_service,
            connection_status,
            data: AppData::new(),
            show_help: false,
            current_request_id: 0,
            show_record_detail: false,
            record_detail: None,
            effects: Vec::new(),
        }
    }

    /// At start, ask for the questions when their view shows and nothing
    /// was loaded.
    pub fn queue_initial_load(&mut self)
        ensures
            final(self).effects@ == if old(self).content.view == ContentView::Questions
                && old(self).data.questions is Idle {
                old(self).effects@.push(Effect::Send(AppAction::LoadData(DataRequest::Questions)))
            } else {
                old(self).effects@
            },
            final(self).same_app(old(self)),
            final(self).same_data(old(self)),
            final(self).content == old(self).content,
            final(self).message() == old(self).message(),
    {
        if matches!(self.content.view, ContentView::Questions) && matches!(
            self.data.questions,
            LoadState::Idle
        ) {
            self.effects.push(Effect::Send(AppAction::LoadData(DataRequest::Questions)));
        }
    }

    fn set_message(&mut self, m: String)
        ensures
            final(self).message() == m@,
            final(self).same_app(old(self)),
            final(self).same_data(old(self)),
            final(self).content == old(self).content,
            final(self).effects@ == old(self).effects@,
    {
        self.status_bar.set_message(m);
    }

    /// The state after `switch_to_tab(tab)` from `o`.
    pub open spec fn switch_to_tab_post(&self, o: &Self, tab: ActiveTab) -> bool {
        &&& self.active_tab == tab
        &&& self.content.set_view_post(&o.content, tab_view(tab))
        &&& self.effects@ == o.effects@ + (match tab {
            ActiveTab::Questions => if o.data.questions is Idle {
                seq![Effect::Send(AppAction::LoadData(DataRequest::Questions))]
            } else {
                Seq::empty()
            },
            ActiveTab::Collections => if o.data.collections is Idle {
                seq![Effect::Send(AppAction::LoadData(DataRequest::Collections))]
            } else {
                Seq::empty()
            },
            ActiveTab::Databases => if o.data.databases is Idle {
                seq![Effect::Send(AppAction::LoadData(DataRequest::Databases))]
            } else {
                Seq::empty()
            },
        })
        &&& self.message() == "Viewing: "@ + tab_label(tab)
        &&& self.should_quit == o.should_quit
        &&& self.status_bar.bindings == o.status_bar.bindings
        &&& self.status_bar.selection_count == o.status_bar.selection_count
        &&& self.has_service == o.has_service
        &&& self.connection_status == o.connection_status
        &&& self.show_help == o.show_help
        &&& self.current_request_id == o.current_request_id
        &&& self.show_record_detail == o.show_record_detail
        &&& self.record_detail == o.record_detail
        &&& self.same_data(o)
    }

    /// Show a tab: its view is shown, its data asked for when nothing was
    /// loaded yet, and the status names the tab.
    pub fn switch_to_tab(&mut self, tab: ActiveTab)
        requires
            old(self).wf(),
        ensures
            final(self).wf(),
            final(self).switch_to_tab_post(old(self), tab),
    {
        self.active_tab = tab;
        let view = match tab {
            ActiveTab::Questions => ContentView::Questions,
            ActiveTab::Collections => ContentView::Collections,
            ActiveTab::Databases => ContentView::Databases,
        };
        self.content.set_view(view);
        match tab {
            ActiveTab::Questions => {
                if matches!(self.data.questions, LoadState::Idle) {
                    self.effects.push(Effect::Send(AppAction::LoadData(DataRequest::Questions)));
                }
            },
            ActiveTab::Collections => {
                if matches!(self.data.collections, LoadState::Idle) {
                    self.effects.push(Effect::Send(AppAction::LoadData(DataRequest::Collections)));
                }
            },
            ActiveTab::Databases => {
                if matches!(self.data.databases, LoadState::Idle) {
                    self.effects.push(Effect::Send(AppAction::LoadData(DataRequest::Databases)));
                }
            },
        }
        let label = tab.label();
        let m = text_with("Viewing: ", label, "");
        proof {
            reveal_strlit("Viewing: ");
            reveal_strlit("");
            assert(m@ =~= "Viewing: "@ + tab_label(tab));
        }
        self.status_bar.set_message(m);
        assert(self.effects@ =~= old(self).effects@ + (match tab {
            ActiveTab::Questions => if old(self).data.questions is Idle {
                seq![Effect::Send(AppAction::LoadData(DataRequest::Questions))]
            } else {
                Seq::empty()
            },
            ActiveTab::Collections => if old(self).data.collections is Idle {
                seq![Effect::Send(AppAction::LoadData(DataRequest::Collections))]
            } else {
                Seq::empty()
            },
            ActiveTab::Databases => if old(self).data.databases is Idle {
                seq![Effect::Send(AppAction::LoadData(DataRequest::Databases))]
            } else {
                Seq::empty()
            },
        }));
    }

    /// The state after `execute_question(id)` from `o`.
    pub open spec fn execute_question_post(&self, o: &Self, id: u32) -> bool {
        &&& self.content == o.content
        &&& self.same_data(o)
        &&& self.same_ui(o)
        &&& self.should_quit == o.should_quit
        &&& self.active_tab == o.active_tab
        &&& self.connection_status == o.connection_status
        &&& if !o.has_service {
            &&& self.message() == "Error: Not connected to Metabase"@
            &&& self.current_request_id == o.current_request_id
            &&& self.effects@ == o.effects@
        } else {
            &&& self.current_request_id == next_request_id(o.current_request_id)
            &&& self.message() == "Executing '"@ + question_name(o.data.questions, id) + "'..."@
            &&& self.effects@.len() == o.effects@.len() + 1
            &&& self.effects@.drop_last() == o.effects@
            &&& (self.effects@.last() matches Effect::Fetch(
                Fetch::Execute { id: i, request_id: r, question_name: n },
            ) && i == id && r == next_request_id(o.current_request_id) && n@ == question_name(
                o.data.questions,
                id,
            ))
        }
    }

    /// Run question `id`: a new request id, the status naming the question,
    /// and the run asked for; without a server only an error message.
    pub fn execute_question(&mut self, id: u32)
        requires
            old(self).wf(),
        ensures
            final(self).wf(),
            final(self).execute_question_post(old(self), id),
    {
        proof {
            reveal_strlit("Error: Not connected to Metabase");
            reveal_strlit("Executing '");
            reveal_strlit("'...");
        }
        if !self.has_service {
            self.status_bar.set_message("Error: Not connected to Metabase".to_string());
            return;
        }
        self.current_request_id = self.current_request_id.wrapping_add(1);
        let request_id = self.current_request_id;
        let name = self.find_question_name(id);
        let m = text_with("Executing '", name.as_str(), "'...");
        self.status_bar.set_message(m);
        self.effects.push(Effect::Fetch(Fetch::Execute { id, request_id, question_name: name }));
        assert(self.effects@.drop_last() =~= old(self).effects@);
    }

    fn find_question_name(&self, id: u32) -> (r: String)
        ensures
            r@ == question_name(self.data.questions, id),
    {
        proof {
            reveal_strlit("Question #");
            reveal_strlit("");
        }
        if let LoadState::Loaded(qs) = &self.data.questions {
            let mut i: usize = 0;
            assert(qs@.subrange(0, qs@.len() as int) =~= qs@);
            while i < qs.len()
                invariant
                    0 <= i <= qs@.len(),
                    self.data.questions == LoadState::Loaded(*qs),
                    name_of(qs@, id) == name_of(qs@.subrange(i as int, qs@.len() as int), id),
                decreases qs@.len() - i,
            {
                let ghost rest = qs@.subrange(i as int, qs@.len() as int);
                assert(rest.drop_first() =~= qs@.subrange(i + 1, qs@.len() as int));
                assert(rest[0] == qs@[i as int]);
                if qs[i].id == id {
                    let r = qs[i].name.clone();
                    assert(name_of(rest, id) == Some(qs@[i as int].name@));
                    return r;
                }
                i = i + 1;
            }
            assert(qs@.subrange(i as int, qs@.len() as int).len() == 0);
        }
        text_with_count("Question #", id as u64, "")
    }
}

} // verus!
