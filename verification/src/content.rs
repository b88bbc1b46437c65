//! The content panel of the terminal interface: which view is shown, the
//! drill-down stack, the lists with their selections, and the query result
//! with its paging, sorting, filtering and search.
use vstd::prelude::*;
use crate::dup::{Duplicate, same_seq};
use crate::models::{CollectionItem, Database, Question, TableInfo};
use crate::rows::{CellNumber, indices_within};
use crate::ui::{LoadState, ScrollState, TableState};

verus! {

broadcast use vstd::std_specs::vec::group_vec_axioms;

/// Text input mode of the panel.
#[derive(Debug, Clone, Copy, PartialEq, Eq, Structural)]
pub enum InputMode {
    Normal,
    Search,
}

/// Sort order of query results.
#[derive(Debug, Clone, Copy, PartialEq, Eq, Structural)]
pub enum SortOrder {
    Unsorted,
    Ascending,
    Descending,
}

/// The views of the panel; drill-down views carry their context.
#[derive(Debug, Clone, PartialEq, Eq)]
pub enum ContentView {
    Welcome,
    Questions,
    Collections,
    Databases,
    QueryResult,
    CollectionQuestions { id: u32, name: String },
    DatabaseSchemas { db_id: u32, db_name: String },
    SchemaTables { db_id: u32, schema_name: String },
    TablePreview { db_id: u32, table_id: u32, table_name: String },
}

impl Duplicate for ContentView {
    open spec fn same(&self, other: &Self) -> bool {
        *self == *other
    }

    fn duplicate(&self) -> (r: Self) {
        match self {
            ContentView::Welcome => ContentView::Welcome,
            ContentView::Questions => ContentView::Questions,
            ContentView::Collections => ContentView::Collections,
            ContentView::Databases => ContentView::Databases,
            ContentView::QueryResult => ContentView::QueryResult,
            ContentView::CollectionQuestions { id, name } => ContentView::CollectionQuestions {
                id: *id,
                name: name.clone(),
            },
            ContentView::DatabaseSchemas { db_id, db_name } => ContentView::DatabaseSchemas {
                db_id: *db_id,
                db_name: db_name.clone(),
            },
            ContentView::SchemaTables { db_id, schema_name } => ContentView::SchemaTables {
                db_id: *db_id,
                schema_name: schema_name.clone(),
            },
            ContentView::TablePreview { db_id, table_id, table_name } => ContentView::TablePreview {
                db_id: *db_id,
                table_id: *table_id,
                table_name: table_name.clone(),
            },
        }
    }
}

/// A query result as the panel shows it: column names and rows of cells.
#[derive(Debug, Clone, PartialEq)]
pub struct QueryResultData {
    pub question_id: u32,
    pub question_name: String,
    pub columns: Vec<String>,
    pub rows: Vec<Vec<String>>,
}

impl Duplicate for QueryResultData {
    open spec fn same(&self, other: &Self) -> bool {
        self.question_id == other.question_id && self.question_name == other.question_name
            && self.columns@ == other.columns@ && same_seq(self.rows@, other.rows@)
    }

    fn duplicate(&self) -> (r: Self) {
        let columns = self.columns.duplicate();
        assert(columns@ =~= self.columns@);
        QueryResultData {
            question_id: self.question_id,
            question_name: self.question_name.clone(),
            columns,
            rows: self.rows.duplicate(),
        }
    }
}

/// Rows per page of a query result.
pub const DEFAULT_ROWS_PER_PAGE: usize = 100;

/// Number of rows moved by PageUp / PageDown in a result table.
pub const RESULT_SCROLL_AMOUNT: usize = 10;

/// The number of rows of an optional result.
pub open spec fn rows_len(q: Option<QueryResultData>) -> nat {
    match q {
        Some(r) => r.rows@.len(),
        None => 0,
    }
}

/// The number of loaded items, if the data is loaded.
pub open spec fn loaded_len<T>(s: LoadState<Vec<T>>) -> Option<nat> {
    match s {
        LoadState::Loaded(v) => Some(v@.len()),
        _ => None,
    }
}

/// The selected row, zero when nothing is selected.
pub open spec fn current(ts: TableState) -> nat {
    match ts.selected {
        Some(s) => s as nat,
        None => 0,
    }
}

/// A table state with a row selected and the drawing offset kept.
pub open spec fn selecting(ts: TableState, row: nat) -> TableState {
    TableState { offset: ts.offset, selected: Some(row as usize) }
}

/// Selection after "down": one further, stopping at the last item; no
/// change unless items are loaded.
pub open spec fn after_next(ts: TableState, len: Option<nat>) -> TableState {
    match len {
        Some(n) => if n > 0 {
            selecting(ts, if current(ts) + 1 < n { current(ts) + 1 } else { (n - 1) as nat })
        } else {
            ts
        },
        None => ts,
    }
}

/// Selection after "up": one back, stopping at the first item.
pub open spec fn after_previous(ts: TableState) -> TableState {
    selecting(ts, if current(ts) > 0 { (current(ts) - 1) as nat } else { 0 })
}

/// Selection after "home".
pub open spec fn after_first(ts: TableState) -> TableState {
    selecting(ts, 0)
}

/// Selection after "end": the last item, if items are loaded.
pub open spec fn after_last(ts: TableState, len: Option<nat>) -> TableState {
    match len {
        Some(n) => if n > 0 {
            selecting(ts, (n - 1) as nat)
        } else {
            ts
        },
        None => ts,
    }
}

/// A selection that can still move one further.
pub open spec fn sel_ok(ts: TableState) -> bool {
    ts.selected matches Some(s) ==> s < usize::MAX
}

/// Selection after loading data: the first item is selected when items
/// arrived and nothing was selected.
pub open spec fn after_load<T>(ts: TableState, data: LoadState<Vec<T>>) -> TableState {
    match data {
        LoadState::Loaded(v) => if v@.len() > 0 && ts.selected is None {
            selecting(ts, 0)
        } else {
            ts
        },
        _ => ts,
    }
}

/// The content panel.
pub struct ContentPanel {
    pub view: ContentView,
    pub scroll: ScrollState,
    /// Index of the first column shown.
    pub scroll_x: usize,
    pub questions: LoadState<Vec<Question>>,
    pub table_state: TableState,
    pub collections: LoadState<Vec<CollectionItem>>,
    pub collections_table_state: TableState,
    pub databases: LoadState<Vec<Database>>,
    pub databases_table_state: TableState,
    pub schemas: LoadState<Vec<String>>,
    pub schemas_table_state: TableState,
    pub tables: LoadState<Vec<TableInfo>>,
    pub tables_table_state: TableState,
    pub query_result: Option<QueryResultData>,
    /// Sorted positions into the visible rows (none: original order).
    pub sort_indices: Option<Vec<usize>>,
    pub result_table_state: TableState,
    /// Current result page, from zero.
    pub result_page: usize,
    pub rows_per_page: usize,
    pub input_mode: InputMode,
    pub search_query: String,
    pub active_search: Option<String>,
    /// Views to return to, the most recent last.
    pub navigation_stack: Vec<ContentView>,
    pub sort_order: SortOrder,
    pub sort_column_index: Option<usize>,
    pub sort_mode_active: bool,
    pub sort_modal_selection: usize,
    /// Row indices that pass the column filter (none: no filter).
    pub filter_indices: Option<Vec<usize>>,
    pub filter_column_index: Option<usize>,
    pub filter_text: String,
    pub filter_mode_active: bool,
    /// Step of the filter dialog: 0 column choice, 1 text input.
    pub filter_modal_step: usize,
    pub filter_modal_selection: usize,
    pub result_search_active: bool,
    pub result_search_text: String,
    /// Row indices that match the all-column search (none: no search).
    pub result_search_indices: Option<Vec<usize>>,
    /// How each result cell reads as a number, row by row; cells without an
    /// entry count as text.
    pub cell_numbers: Vec<Vec<CellNumber>>,
    /// Rows chosen for copying, by their index in the result, in increasing
    /// order.
    pub selected_rows: Vec<usize>,
    /// Where a range selection started.
    pub selection_anchor: Option<usize>,
}

/// Each element is smaller than the next (so none occurs twice).
pub open spec fn increasing(s: Seq<usize>) -> bool {
    forall|i: int, j: int| 0 <= i < j < s.len() ==> s[i] < s[j]
}

impl ContentPanel {
    /// Invariant of the panel.
    pub open spec fn wf(&self) -> bool {
        let n = rows_len(self.query_result);
        &&& 0 < self.rows_per_page <= usize::MAX / 4
        &&& n <= usize::MAX / 4
        &&& (self.result_search_indices matches Some(v) ==> indices_within(v@, n) && v@.len() <= n)
        &&& (self.filter_indices matches Some(v) ==> indices_within(v@, n) && v@.len() <= n)
        &&& self.result_page * self.rows_per_page <= n
        &&& (self.result_table_state.selected matches Some(s) ==> s <= n)
        &&& sel_ok(self.table_state)
        &&& sel_ok(self.collections_table_state)
        &&& sel_ok(self.databases_table_state)
        &&& sel_ok(self.schemas_table_state)
        &&& sel_ok(self.tables_table_state)
        &&& increasing(self.selected_rows@)
    }

    /// The lists and their selections are unchanged.
    pub open spec fn same_lists(&self, o: &Self) -> bool {
        &&& self.questions == o.questions
        &&& self.table_state == o.table_state
        &&& self.collections == o.collections
        &&& self.collections_table_state == o.collections_table_state
        &&& self.databases == o.databases
        &&& self.databases_table_state == o.databases_table_state
        &&& self.schemas == o.schemas
        &&& self.schemas_table_state == o.schemas_table_state
        &&& self.tables == o.tables
        &&& self.tables_table_state == o.tables_table_state
    }

    /// The view and the drill-down stack are unchanged.
    pub open spec fn same_nav(&self, o: &Self) -> bool {
        self.view == o.view && self.navigation_stack@ == o.navigation_stack@
    }

    /// The question search is unchanged.
    pub open spec fn same_search(&self, o: &Self) -> bool {
        &&& self.input_mode == o.input_mode
        &&& self.search_query@ == o.search_query@
        &&& self.active_search == o.active_search
    }

    /// The result, its selection and paging are unchanged.
    pub open spec fn same_rows(&self, o: &Self) -> bool {
        &&& self.query_result == o.query_result
        &&& self.result_table_state == o.result_table_state
        &&& self.result_page == o.result_page
        &&& self.rows_per_page == o.rows_per_page
        &&& self.cell_numbers == o.cell_numbers
        &&& self.selected_rows@ == o.selected_rows@
        &&& self.selection_anchor == o.selection_anchor
    }

    /// The sort state is unchanged.
    pub open spec fn same_sort(&self, o: &Self) -> bool {
        &&& self.sort_indices == o.sort_indices
        &&& self.sort_order == o.sort_order
        &&& self.sort_column_index == o.sort_column_index
        &&& self.sort_mode_active == o.sort_mode_active
        &&& self.sort_modal_selection == o.sort_modal_selection
    }

    /// The filter state is unchanged.
    pub open spec fn same_filter(&self, o: &Self) -> bool {
        &&& self.filter_indices == o.filter_indices
        &&& self.filter_column_index == o.filter_column_index
        &&& self.filter_text@ == o.filter_text@
        &&& self.filter_mode_active == o.filter_mode_active
        &&& self.filter_modal_step == o.filter_modal_step
        &&& self.filter_modal_selection == o.filter_modal_selection
    }

    /// The result search state is unchanged.
    pub open spec fn same_rsearch(&self, o: &Self) -> bool {
        &&& self.result_search_active == o.result_search_active
        &&& self.result_search_text@ == o.result_search_text@
        &&& self.result_search_indices == o.result_search_indices
    }

    /// The scroll positions are unchanged.
    pub open spec fn same_scroll(&self, o: &Self) -> bool {
        self.scroll == o.scroll && self.scroll_x == o.scroll_x
    }

    /// Everything about the query result is unchanged.
    pub open spec fn same_result_state(&self, o: &Self) -> bool {
        self.same_rows(o) && self.same_sort(o) && self.same_filter(o) && self.same_rsearch(o)
    }

    /// A panel showing the welcome view with nothing loaded.
    pub fn new() -> (r: Self)
        ensures
            r.wf(),
            r.view == ContentView::Welcome,
            r.navigation_stack@.len() == 0,
            r.input_mode == InputMode::Normal,
            r.search_query@.len() == 0,
            r.active_search is None,
            r.query_result is None,
            r.questions is Idle && r.collections is Idle && r.databases is Idle,
            r.schemas is Idle && r.tables is Idle,
            r.table_state == TableState::new_spec(),
            r.collections_table_state == TableState::new_spec(),
            r.databases_table_state == TableState::new_spec(),
            r.schemas_table_state == TableState::new_spec(),
            r.tables_table_state == TableState::new_spec(),
            r.result_table_state == TableState::new_spec(),
            r.rows_per_page == DEFAULT_ROWS_PER_PAGE,
            r.result_page == 0,
            r.scroll_x == 0,
            r.scroll.offset == 0 && r.scroll.total == 0 && r.scroll.visible == 0,
            r.sort_indices is None && r.sort_order == SortOrder::Unsorted,
            r.sort_column_index is None && !r.sort_mode_active && r.sort_modal_selection == 0,
            r.filter_indices is None && r.filter_column_index is None,
            r.filter_text@.len() == 0 && !r.filter_mode_active,
            r.filter_modal_step == 0 && r.filter_modal_selection == 0,
            !r.result_search_active && r.result_search_text@.len() == 0,
            r.result_search_indices is None,
            r.cell_numbers@.len() == 0,
            r.selected_rows@.len() == 0,
            r.selection_anchor is None,
    {
        ContentPanel {
            view: ContentView::Welcome,
            scroll: ScrollState::new(),
            scroll_x: 0,
            questions: LoadState::Idle,
            table_state: TableState::new(),
            collections: LoadState::Idle,
            collections_table_state: TableState::new(),
            databases: LoadState::Idle,
            databases_table_state: TableState::new(),
            schemas: LoadState::Idle,
            schemas_table_state: TableState::new(),
            tables: LoadState::Idle,
            tables_table_state: TableState::new(),
            query_result: None,
            sort_indices: None,
            result_table_state: TableState::new(),
            result_page: 0,
            rows_per_page: DEFAULT_ROWS_PER_PAGE,
            input_mode: InputMode::Normal,
            search_query: String::new(),
            active_search: None,
            navigation_stack: Vec::new(),
            sort_order: SortOrder::Unsorted,
            sort_column_index: None,
            sort_mode_active: false,
            sort_modal_selection: 0,
            filter_indices: None,
            filter_column_index: None,
            filter_text: String::new(),
            filter_mode_active: false,
            filter_modal_step: 0,
            filter_modal_selection: 0,
            result_search_active: false,
            result_search_text: String::new(),
            result_search_indices: None,
            cell_numbers: Vec::new(),
            selected_rows: Vec::new(),
            selection_anchor: None,
        }
    }
}

impl TableState {
    /// The state `TableState::new` returns.
    pub open spec fn new_spec() -> TableState {
        TableState { offset: 0, selected: None }
    }
}

} // verus!
