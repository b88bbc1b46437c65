//! Views, the drill-down stack, the lists of the panel and the question
//! search.
use vstd::prelude::*;
use crate::content::{
    after_first, after_last, after_load, after_next, after_previous, loaded_len, ContentPanel,
    ContentView, InputMode, QueryResultData, SortOrder,
};
use crate::dup::Duplicate;
use crate::models::{CollectionItem, Database, Question, TableInfo};
use crate::strings::{pop_char, push_char, trim, trim_str};
use crate::ui::{LoadState, ScrollState, TableState};

verus! {

broadcast use vstd::std_specs::vec::group_vec_axioms;

/// The two views are of the same kind, whatever context they carry.
pub open spec fn same_kind(a: ContentView, b: ContentView) -> bool {
    match (a, b) {
        (ContentView::Welcome, ContentView::Welcome) => true,
        (ContentView::Questions, ContentView::Questions) => true,
        (ContentView::Collections, ContentView::Collections) => true,
        (ContentView::Databases, ContentView::Databases) => true,
        (ContentView::QueryResult, ContentView::QueryResult) => true,
        (ContentView::CollectionQuestions { .. }, ContentView::CollectionQuestions { .. }) => true,
        (ContentView::DatabaseSchemas { .. }, ContentView::DatabaseSchemas { .. }) => true,
        (ContentView::SchemaTables { .. }, ContentView::SchemaTables { .. }) => true,
        (ContentView::TablePreview { .. }, ContentView::TablePreview { .. }) => true,
        _ => false,
    }
}

/// A view that lists questions.
pub open spec fn shows_questions(v: ContentView) -> bool {
    v is Questions || v is CollectionQuestions
}

/// A view that shows a query result.
pub open spec fn shows_result(v: ContentView) -> bool {
    v is QueryResult || v is TablePreview
}

/// An id and a name, by the name's characters.
pub open spec fn pair_view(p: Option<(u32, String)>) -> Option<(u32, Seq<char>)> {
    match p {
        Some((id, s)) => Some((id, s@)),
        None => None,
    }
}

/// The database of the most recent schemas view with this id on the stack.
pub open spec fn stacked_database(stack: Seq<ContentView>, db_id: u32) -> Option<(u32, Seq<char>)>
    decreases stack.len(),
{
    if stack.len() == 0 {
        None
    } else {
        match stack.last() {
            ContentView::DatabaseSchemas { db_id: id, db_name } => if id == db_id {
                Some((id, db_name@))
            } else {
                stacked_database(stack.drop_last(), db_id)
            },
            _ => stacked_database(stack.drop_last(), db_id),
        }
    }
}

/// The schema of the most recent tables view with this database id on the stack.
pub open spec fn stacked_schema(stack: Seq<ContentView>, db_id: u32) -> Option<(u32, Seq<char>)>
    decreases stack.len(),
{
    if stack.len() == 0 {
        None
    } else {
        match stack.last() {
            ContentView::SchemaTables { db_id: id, schema_name } => if id == db_id {
                Some((id, schema_name@))
            } else {
                stacked_schema(stack.drop_last(), db_id)
            },
            _ => stacked_schema(stack.drop_last(), db_id),
        }
    }
}

/// Database context (id, name) of a view, given the stack below it.
pub open spec fn database_context(view: ContentView, stack: Seq<ContentView>) -> Option<(u32, Seq<char>)> {
    match view {
        ContentView::DatabaseSchemas { db_id, db_name } => Some((db_id, db_name@)),
        ContentView::SchemaTables { db_id, .. } => stacked_database(stack, db_id),
        ContentView::TablePreview { db_id, .. } => stacked_database(stack, db_id),
        _ => None,
    }
}

/// Schema context (database id, schema name) of a view, given the stack below it.
pub open spec fn schema_context(view: ContentView, stack: Seq<ContentView>) -> Option<(u32, Seq<char>)> {
    match view {
        ContentView::SchemaTables { db_id, schema_name } => Some((db_id, schema_name@)),
        ContentView::TablePreview { db_id, .. } => stacked_schema(stack, db_id),
        _ => None,
    }
}

fn find_database(stack: &Vec<ContentView>, db_id: u32) -> (r: Option<(u32, String)>)
    ensures
        pair_view(r) == stacked_database(stack@, db_id),
{
    let mut k: usize = stack.len();
    assert(stack@.take(k as int) =~= stack@);
    while k > 0
        invariant
            0 <= k <= stack@.len(),
            stacked_database(stack@, db_id) == stacked_database(stack@.take(k as int), db_id),
        decreases k,
    {
        assert(stack@.take(k as int).last() == stack@[k - 1]);
        assert(stack@.take(k as int).drop_last() =~= stack@.take(k - 1));
        match &stack[k - 1] {
            ContentView::DatabaseSchemas { db_id: id, db_name } => {
                if *id == db_id {
                    return Some((*id, db_name.clone()));
                }
            },
            _ => {},
        }
        k = k - 1;
    }
    None
}

fn find_schema(stack: &Vec<ContentView>, db_id: u32) -> (r: Option<(u32, String)>)
    ensures
        pair_view(r) == stacked_schema(stack@, db_id),
{
    let mut k: usize = stack.len();
    assert(stack@.take(k as int) =~= stack@);
    while k > 0
        invariant
            0 <= k <= stack@.len(),
            stacked_schema(stack@, db_id) == stacked_schema(stack@.take(k as int), db_id),
        decreases k,
    {
        assert(stack@.take(k as int).last() == stack@[k - 1]);
        assert(stack@.take(k as int).drop_last() =~= stack@.take(k - 1));
        match &stack[k - 1] {
            ContentView::SchemaTables { db_id: id, schema_name } => {
                if *id == db_id {
                    return Some((*id, schema_name.clone()));
                }
            },
            _ => {},
        }
        k = k - 1;
    }
    None
}

fn next_of(ts: &mut TableState, len: Option<usize>)
    requires
        old(ts).selected matches Some(s) ==> s < usize::MAX,
    ensures
        *final(ts) == after_next(*old(ts), match len {
            Some(n) => Some(n as nat),
            None => None,
        }),
{
    if let Some(n) = len {
        if n == 0 {
            return;
        }
        let current = match ts.selected() {
            Some(s) => s,
            None => 0,
        };
        let next = if current + 1 < n { current + 1 } else { n - 1 };
        ts.select(Some(next));
    }
}

fn previous_of(ts: &mut TableState)
    ensures
        *final(ts) == after_previous(*old(ts)),
{
    let current = match ts.selected() {
        Some(s) => s,
        None => 0,
    };
    ts.select(Some(current.saturating_sub(1)));
}

fn last_of(ts: &mut TableState, len: Option<usize>)
    ensures
        *final(ts) == after_last(*old(ts), match len {
            Some(n) => Some(n as nat),
            None => None,
        }),
{
    if let Some(n) = len {
        if n > 0 {
            ts.select(Some(n - 1));
        }
    }
}

fn len_of<T>(s: &LoadState<Vec<T>>) -> (r: Option<usize>)
    ensures
        match r {
            Some(n) => loaded_len(*s) == Some(n as nat),
            None => loaded_len(*s) is None,
        },
{
    match s {
        LoadState::Loaded(v) => Some(v.len()),
        _ => None,
    }
}

/// The list a selection command acts on.
#[derive(Debug, Clone, Copy, PartialEq, Eq, Structural)]
pub enum ListKind {
    Questions,
    Collections,
    Databases,
    Schemas,
    Tables,
}

/// A movement of a list selection.
#[derive(Debug, Clone, Copy, PartialEq, Eq, Structural)]
pub enum ListMove {
    Next,
    Previous,
    First,
    Last,
}

impl ContentPanel {
    /// The selection state of a list.
    pub open spec fn list_state(&self, kind: ListKind) -> TableState {
        match kind {
            ListKind::Questions => self.table_state,
            ListKind::Collections => self.collections_table_state,
            ListKind::Databases => self.databases_table_state,
            ListKind::Schemas => self.schemas_table_state,
            ListKind::Tables => self.tables_table_state,
        }
    }

    /// The number of loaded items of a list.
    pub open spec fn list_len(&self, kind: ListKind) -> Option<nat> {
        match kind {
            ListKind::Questions => loaded_len(self.questions),
            ListKind::Collections => loaded_len(self.collections),
            ListKind::Databases => loaded_len(self.databases),
            ListKind::Schemas => loaded_len(self.schemas),
            ListKind::Tables => loaded_len(self.tables),
        }
    }

    /// The selection after a movement.
    pub open spec fn moved(&self, kind: ListKind, m: ListMove) -> TableState {
        let ts = self.list_state(kind);
        match m {
            ListMove::Next => after_next(ts, self.list_len(kind)),
            ListMove::Previous => after_previous(ts),
            ListMove::First => after_first(ts),
            ListMove::Last => after_last(ts, self.list_len(kind)),
        }
    }

    /// Only the selection of list `kind` changed, to `ts`; the data of all
    /// lists and the other selections are as in `o`.
    pub open spec fn lists_but(&self, o: &Self, kind: ListKind, ts: TableState) -> bool {
        &&& self.questions == o.questions
        &&& self.collections == o.collections
        &&& self.databases == o.databases
        &&& self.schemas == o.schemas
        &&& self.tables == o.tables
        &&& forall|k: ListKind| #[trigger] self.list_state(k) == if k == kind {
            ts
        } else {
            o.list_state(k)
        }
    }

    /// Everything but the lists is as in `o`.
    pub open spec fn same_but_lists(&self, o: &Self) -> bool {
        self.same_nav(o) && self.same_search(o) && self.same_result_state(o) && self.same_scroll(o)
    }

    /// The state after `move_selection` from state `o`.
    pub open spec fn move_selection_post(&self, o: &Self, kind: ListKind, m: ListMove) -> bool {
        &&& self.lists_but(o, kind, o.moved(kind, m))
        &&& self.same_but_lists(o)
    }

    /// Move the selection of a list.
    pub fn move_selection(&mut self, kind: ListKind, m: ListMove)
        requires
            old(self).wf(),
        ensures
            final(self).wf(),
            final(self).move_selection_post(old(self), kind, m),
    {
        let len = match kind {
            ListKind::Questions => len_of(&self.questions),
            ListKind::Collections => len_of(&self.collections),
            ListKind::Databases => len_of(&self.databases),
            ListKind::Schemas => len_of(&self.schemas),
            ListKind::Tables => len_of(&self.tables),
        };
        let ts = match kind {
            ListKind::Questions => &mut self.table_state,
            ListKind::Collections => &mut self.collections_table_state,
            ListKind::Databases => &mut self.databases_table_state,
            ListKind::Schemas => &mut self.schemas_table_state,
            ListKind::Tables => &mut self.tables_table_state,
        };
        match m {
            ListMove::Next => next_of(ts, len),
            ListMove::Previous => previous_of(ts),
            ListMove::First => ts.select(Some(0)),
            ListMove::Last => last_of(ts, len),
        }
        assert(forall|k: ListKind| #[trigger] self.list_state(k) == if k == kind {
            old(self).moved(kind, m)
        } else {
            old(self).list_state(k)
        });
    }

    /// Select the next question.
    pub fn select_next(&mut self)
        requires
            old(self).wf(),
        ensures
            final(self).wf(),
            final(self).lists_but(
                old(self),
                ListKind::Questions,
                old(self).moved(ListKind::Questions, ListMove::Next),
            ),
            final(self).same_but_lists(old(self)),
    {
        self.move_selection(ListKind::Questions, ListMove::Next);
    }

    /// Select the previous question.
    pub fn select_previous(&mut self)
        requires
            old(self).wf(),
        ensures
            final(self).wf(),
            final(self).lists_but(
                old(self),
                ListKind::Questions,
                old(self).moved(ListKind::Questions, ListMove::Previous),
            ),
            final(self).same_but_lists(old(self)),
    {
        self.move_selection(ListKind::Questions, ListMove::Previous);
    }

    /// Select the first question.
    pub fn select_first(&mut self)
        requires
            old(self).wf(),
        ensures
            final(self).wf(),
            final(self).lists_but(
                old(self),
                ListKind::Questions,
                old(self).moved(ListKind::Questions, ListMove::First),
            ),
            final(self).same_but_lists(old(self)),
    {
        self.move_selection(ListKind::Questions, ListMove::First);
    }

    /// Select the last question.
    pub fn select_last(&mut self)
        requires
            old(self).wf(),
        ensures
            final(self).wf(),
            final(self).lists_but(
                old(self),
                ListKind::Questions,
                old(self).moved(ListKind::Questions, ListMove::Last),
            ),
            final(self).same_but_lists(old(self)),
    {
        self.move_selection(ListKind::Questions, ListMove::Last);
    }

    /// The state after `set_view` from state `o`.
    pub open spec fn set_view_post(&self, o: &Self, view: ContentView) -> bool {
        &&& self.view == view
        &&& self.navigation_stack@.len() == 0
        &&& self.scroll == (ScrollState { offset: 0, total: 0, visible: 0 })
        &&& self.scroll_x == 0
        &&& self.lists_but(o, ListKind::Questions, TableState::new_spec())
        &&& self.same_search(o)
        &&& self.same_result_state(o)
    }

    /// Show a view (switching tabs): scrolls and the question selection are
    /// reset and the drill-down stack is emptied.
    pub fn set_view(&mut self, view: ContentView)
        requires
            old(self).wf(),
        ensures
            final(self).wf(),
            final(self).set_view_post(old(self), view),
    {
        self.view = view;
        self.scroll = ScrollState::new();
        self.scroll_x = 0;
        self.table_state = TableState::new();
        self.clear_navigation_stack();
        assert(forall|k: ListKind| #[trigger] self.list_state(k) == if k == ListKind::Questions {
            TableState::new_spec()
        } else {
            old(self).list_state(k)
        });
    }

    /// The current view.
    pub fn current_view(&self) -> (r: ContentView)
        ensures
            r == self.view,
    {
        self.view.duplicate()
    }

    /// Whether the current view is of the same kind as `view_type`.
    pub fn is_view(&self, view_type: &ContentView) -> (r: bool)
        ensures
            r == same_kind(self.view, *view_type),
    {
        match (&self.view, view_type) {
            (ContentView::Welcome, ContentView::Welcome) => true,
            (ContentView::Questions, ContentView::Questions) => true,
            (ContentView::Collections, ContentView::Collections) => true,
            (ContentView::Databases, ContentView::Databases) => true,
            (ContentView::QueryResult, ContentView::QueryResult) => true,
            (ContentView::CollectionQuestions { .. }, ContentView::CollectionQuestions { .. }) => true,
            (ContentView::DatabaseSchemas { .. }, ContentView::DatabaseSchemas { .. }) => true,
            (ContentView::SchemaTables { .. }, ContentView::SchemaTables { .. }) => true,
            (ContentView::TablePreview { .. }, ContentView::TablePreview { .. }) => true,
            _ => false,
        }
    }

    /// Questions or collection questions are shown.
    pub fn is_questions_view(&self) -> (r: bool)
        ensures
            r == shows_questions(self.view),
    {
        matches!(self.view, ContentView::Questions | ContentView::CollectionQuestions { .. })
    }

    /// The questions of a collection are shown.
    pub fn is_collection_questions_view(&self) -> (r: bool)
        ensures
            r == self.view is CollectionQuestions,
    {
        matches!(self.view, ContentView::CollectionQuestions { .. })
    }

    /// The schemas of a database are shown.
    pub fn is_database_schemas_view(&self) -> (r: bool)
        ensures
            r == self.view is DatabaseSchemas,
    {
        matches!(self.view, ContentView::DatabaseSchemas { .. })
    }

    /// The tables of a schema are shown.
    pub fn is_schema_tables_view(&self) -> (r: bool)
        ensures
            r == self.view is SchemaTables,
    {
        matches!(self.view, ContentView::SchemaTables { .. })
    }

    /// A table preview is shown.
    pub fn is_table_preview_view(&self) -> (r: bool)
        ensures
            r == self.view is TablePreview,
    {
        matches!(self.view, ContentView::TablePreview { .. })
    }

    /// A query result or a table preview is shown.
    pub fn is_result_view(&self) -> (r: bool)
        ensures
            r == shows_result(self.view),
    {
        matches!(self.view, ContentView::QueryResult | ContentView::TablePreview { .. })
    }

    /// The state after `push_view(new_view)` from state `o`.
    pub open spec fn push_view_post(&self, o: &Self, new_view: ContentView) -> bool {
        &&& self.view == new_view
        &&& self.navigation_stack@ == o.navigation_stack@.push(o.view)
        &&& self.same_lists(o)
        &&& self.same_search(o)
        &&& self.same_result_state(o)
        &&& self.same_scroll(o)
    }

    /// Drill down: remember the current view and show `new_view`.
    pub fn push_view(&mut self, new_view: ContentView)
        requires
            old(self).wf(),
        ensures
            final(self).wf(),
            final(self).push_view_post(old(self), new_view),
    {
        let current = self.view.duplicate();
        self.navigation_stack.push(current);
        self.view = new_view;
    }

    /// The state and result after `pop_view` from state `o`.
    pub open spec fn pop_view_post(&self, o: &Self, r: Option<ContentView>) -> bool {
        &&& o.navigation_stack@.len() == 0 ==> r is None && self.same_nav(o)
        &&& o.navigation_stack@.len() > 0 ==> r == Some(o.navigation_stack@.last())
            && self.view == o.navigation_stack@.last() && self.navigation_stack@
            == o.navigation_stack@.drop_last()
        &&& self.same_lists(o)
        &&& self.same_search(o)
        &&& self.same_result_state(o)
        &&& self.same_scroll(o)
    }

    /// Go back to the view remembered last, returning it; `None` (and no
    /// change) when nothing is remembered.
    pub fn pop_view(&mut self) -> (r: Option<ContentView>)
        requires
            old(self).wf(),
        ensures
            final(self).wf(),
            final(self).pop_view_post(old(self), r),
    {
        match self.navigation_stack.pop() {
            Some(previous) => {
                self.view = previous.duplicate();
                Some(previous)
            },
            None => None,
        }
    }

    /// How many views are remembered.
    pub fn navigation_depth(&self) -> (r: usize)
        ensures
            r == self.navigation_stack@.len(),
    {
        self.navigation_stack.len()
    }

    /// Forget the remembered views.
    pub fn clear_navigation_stack(&mut self)
        requires
            old(self).wf(),
        ensures
            final(self).wf(),
            final(self).navigation_stack@.len() == 0,
            final(self).view == old(self).view,
            final(self).same_lists(old(self)),
            final(self).same_search(old(self)),
            final(self).same_result_state(old(self)),
            final(self).same_scroll(old(self)),
    {
        self.navigation_stack.clear();
    }

    /// The state after `update_questions` from state `o`.
    pub open spec fn update_questions_post(&self, o: &Self, questions: &LoadState<Vec<Question>>) -> bool {
        &&& self.questions.same(questions)
        &&& self.table_state == after_load(o.table_state, *questions)
        &&& self.collections == o.collections
        &&& self.databases == o.databases
        &&& self.schemas == o.schemas
        &&& self.tables == o.tables
        &&& forall|k: ListKind| k != ListKind::Questions ==> #[trigger] self.list_state(k)
            == o.list_state(k)
        &&& self.same_but_lists(o)
    }

    /// Take newly loaded questions; the first one is selected if nothing was.
    pub fn update_questions(&mut self, questions: &LoadState<Vec<Question>>)
        requires
            old(self).wf(),
        ensures
            final(self).wf(),
            final(self).update_questions_post(old(self), questions),
    {
        self.questions = questions.duplicate();
        if let LoadState::Loaded(items) = questions {
            if items.len() > 0 && self.table_state.selected().is_none() {
                self.table_state.select(Some(0));
            }
        }
    }

    /// The state after `update_collections` from state `o`.
    pub open spec fn update_collections_post(&self, o: &Self, collections: &LoadState<Vec<CollectionItem>>) -> bool {
        &&& self.collections.same(collections)
        &&& self.collections_table_state == after_load(
            o.collections_table_state,
            *collections,
        )
        &&& self.questions == o.questions
        &&& self.databases == o.databases
        &&& self.schemas == o.schemas
        &&& self.tables == o.tables
        &&& forall|k: ListKind| k != ListKind::Collections ==> #[trigger] self.list_state(k)
            == o.list_state(k)
        &&& self.same_but_lists(o)
    }

    /// Take newly loaded collections; the first one is selected if nothing was.
    pub fn update_collections(&mut self, collections: &LoadState<Vec<CollectionItem>>)
        requires
            old(self).wf(),
        ensures
            final(self).wf(),
            final(self).update_collections_post(old(self), collections),
    {
        self.collections = collections.duplicate();
        if let LoadState::Loaded(items) = collections {
            if items.len() > 0 && self.collections_table_state.selected().is_none() {
                self.collections_table_state.select(Some(0));
            }
        }
    }

    /// The state after `update_databases` from state `o`.
    pub open spec fn update_databases_post(&self, o: &Self, databases: &LoadState<Vec<Database>>) -> bool {
        &&& self.databases.same(databases)
        &&& self.databases_table_state == after_load(
            o.databases_table_state,
            *databases,
        )
        &&& self.questions == o.questions
        &&& self.collections == o.collections
        &&& self.schemas == o.schemas
        &&& self.tables == o.tables
        &&& forall|k: ListKind| k != ListKind::Databases ==> #[trigger] self.list_state(k)
            == o.list_state(k)
        &&& self.same_but_lists(o)
    }

    /// Take newly loaded databases; the first one is selected if nothing was.
    pub fn update_databases(&mut self, databases: &LoadState<Vec<Database>>)
        requires
            old(self).wf(),
        ensures
            final(self).wf(),
            final(self).update_databases_post(old(self), databases),
    {
        self.databases = databases.duplicate();
        if let LoadState::Loaded(items) = databases {
            if items.len() > 0 && self.databases_table_state.selected().is_none() {
                self.databases_table_state.select(Some(0));
            }
        }
    }

    /// The state after `update_schemas` from state `o`.
    pub open spec fn update_schemas_post(&self, o: &Self, schemas: &LoadState<Vec<String>>) -> bool {
        &&& self.schemas.same(schemas)
        &&& self.schemas_table_state == after_load(o.schemas_table_state, *schemas)
        &&& self.questions == o.questions
        &&& self.collections == o.collections
        &&& self.databases == o.databases
        &&& self.tables == o.tables
        &&& forall|k: ListKind| k != ListKind::Schemas ==> #[trigger] self.list_state(k)
            == o.list_state(k)
        &&& self.same_but_lists(o)
    }

    /// Take newly loaded schemas; the first one is selected if nothing was.
    pub fn update_schemas(&mut self, schemas: &LoadState<Vec<String>>)
        requires
            old(self).wf(),
        ensures
            final(self).wf(),
            final(self).update_schemas_post(old(self), schemas),
    {
        self.schemas = schemas.duplicate();
        if let LoadState::Loaded(items) = schemas {
            if items.len() > 0 && self.schemas_table_state.selected().is_none() {
                self.schemas_table_state.select(Some(0));
            }
        }
    }

    /// The state after `update_tables` from state `o`.
    pub open spec fn update_tables_post(&self, o: &Self, tables: &LoadState<Vec<TableInfo>>) -> bool {
        &&& self.tables.same(tables)
        &&& self.tables_table_state == after_load(o.tables_table_state, *tables)
        &&& self.questions == o.questions
        &&& self.collections == o.collections
        &&& self.databases == o.databases
        &&& self.schemas == o.schemas
        &&& forall|k: ListKind| k != ListKind::Tables ==> #[trigger] self.list_state(k)
            == o.list_state(k)
        &&& self.same_but_lists(o)
    }

    /// Take newly loaded tables; the first one is selected if nothing was.
    pub fn update_tables(&mut self, tables: &LoadState<Vec<TableInfo>>)
        requires
            old(self).wf(),
        ensures
            final(self).wf(),
            final(self).update_tables_post(old(self), tables),
    {
        self.tables = tables.duplicate();
        if let LoadState::Loaded(items) = tables {
            if items.len() > 0 && self.tables_table_state.selected().is_none() {
                self.tables_table_state.select(Some(0));
            }
        }
    }
}


/// The name of a selected item, as an id and the name's characters.
pub open spec fn selected_of<T>(items: LoadState<Vec<T>>, ts: TableState) -> Option<T> {
    match (items, ts.selected) {
        (LoadState::Loaded(v), Some(s)) => if s < v@.len() {
            Some(v@[s as int])
        } else {
            None
        },
        _ => None,
    }
}

impl ContentPanel {
    /// The id of the selected question, in a view that lists questions.
    pub fn get_selected_question_id(&self) -> (r: Option<u32>)
        ensures
            r == if shows_questions(self.view) {
                match selected_of(self.questions, self.table_state) {
                    Some(q) => Some(q.id),
                    None => None,
                }
            } else {
                None
            },
    {
        if !self.is_questions_view() {
            return None;
        }
        if let LoadState::Loaded(questions) = &self.questions {
            if let Some(selected) = self.table_state.selected() {
                if selected < questions.len() {
                    return Some(questions[selected].id);
                }
            }
        }
        None
    }

    /// Id and name of the selected collection, in the collections view; a
    /// collection without id gives `None`.
    pub fn get_selected_collection_info(&self) -> (r: Option<(u32, String)>)
        ensures
            pair_view(r) == if self.view is Collections {
                match selected_of(self.collections, self.collections_table_state) {
                    Some(c) => match c.id {
                        Some(id) => Some((id, c.name@)),
                        None => None,
                    },
                    None => None,
                }
            } else {
                None
            },
    {
        if !matches!(self.view, ContentView::Collections) {
            return None;
        }
        if let LoadState::Loaded(collections) = &self.collections {
            if let Some(selected) = self.collections_table_state.selected() {
                if selected < collections.len() {
                    let c = &collections[selected];
                    return match c.id {
                        Some(id) => Some((id, c.name.clone())),
                        None => None,
                    };
                }
            }
        }
        None
    }

    /// Id and name of the selected database, in the databases view.
    pub fn get_selected_database_info(&self) -> (r: Option<(u32, String)>)
        ensures
            pair_view(r) == if self.view is Databases {
                match selected_of(self.databases, self.databases_table_state) {
                    Some(d) => Some((d.id, d.name@)),
                    None => None,
                }
            } else {
                None
            },
    {
        if !matches!(self.view, ContentView::Databases) {
            return None;
        }
        if let LoadState::Loaded(databases) = &self.databases {
            if let Some(selected) = self.databases_table_state.selected() {
                if selected < databases.len() {
                    let d = &databases[selected];
                    return Some((d.id, d.name.clone()));
                }
            }
        }
        None
    }

    /// The selected schema, in a schemas view.
    pub fn get_selected_schema(&self) -> (r: Option<String>)
        ensures
            match selected_of(self.schemas, self.schemas_table_state) {
                Some(s) => self.view is DatabaseSchemas ==> r == Some(s),
                None => true,
            },
            !(self.view is DatabaseSchemas) || selected_of(self.schemas, self.schemas_table_state)
                is None ==> r is None,
    {
        if !self.is_database_schemas_view() {
            return None;
        }
        if let LoadState::Loaded(schemas) = &self.schemas {
            if let Some(selected) = self.schemas_table_state.selected() {
                if selected < schemas.len() {
                    return Some(schemas[selected].clone());
                }
            }
        }
        None
    }

    /// Id and name of the selected table, in a tables view.
    pub fn get_selected_table_info(&self) -> (r: Option<(u32, String)>)
        ensures
            pair_view(r) == if self.view is SchemaTables {
                match selected_of(self.tables, self.tables_table_state) {
                    Some(t) => Some((t.id, t.name@)),
                    None => None,
                }
            } else {
                None
            },
    {
        if !self.is_schema_tables_view() {
            return None;
        }
        if let LoadState::Loaded(tables) = &self.tables {
            if let Some(selected) = self.tables_table_state.selected() {
                if selected < tables.len() {
                    let t = &tables[selected];
                    return Some((t.id, t.name.clone()));
                }
            }
        }
        None
    }

    /// The state after `enter_collection_questions` from state `o`.
    pub open spec fn enter_collection_questions_post(&self, o: &Self, collection_id: u32, collection_name: String) -> bool {
        &&& self.view == (ContentView::CollectionQuestions {
            id: collection_id,
            name: collection_name,
        })
        &&& self.navigation_stack@ == o.navigation_stack@.push(o.view)
        &&& self.questions is Idle
        &&& self.table_state == TableState::new_spec()
        &&& self.collections == o.collections
        &&& self.databases == o.databases
        &&& self.schemas == o.schemas
        &&& self.tables == o.tables
        &&& forall|k: ListKind| k != ListKind::Questions ==> #[trigger] self.list_state(k)
            == o.list_state(k)
        &&& self.same_search(o)
        &&& self.same_result_state(o)
        &&& self.same_scroll(o)
    }

    /// Show the questions of a collection: the question list is reset and
    /// the current view is remembered.
    pub fn enter_collection_questions(&mut self, collection_id: u32, collection_name: String)
        requires
            old(self).wf(),
        ensures
            final(self).wf(),
            final(self).enter_collection_questions_post(old(self), collection_id, collection_name),
    {
        self.questions = LoadState::Idle;
        self.table_state = TableState::new();
        self.push_view(ContentView::CollectionQuestions { id: collection_id, name: collection_name });
    }

    /// The state after `exit_collection_questions` from state `o`.
    pub open spec fn exit_collection_questions_post(&self, o: &Self) -> bool {
        &&& self.back_from(o, ContentView::Collections)
        &&& self.questions is Idle
        &&& self.table_state == TableState::new_spec()
        &&& self.collections == o.collections
        &&& self.databases == o.databases
        &&& self.schemas == o.schemas
        &&& self.tables == o.tables
        &&& forall|k: ListKind| k != ListKind::Questions ==> #[trigger] self.list_state(k)
            == o.list_state(k)
        &&& self.same_search(o)
        &&& self.same_result_state(o)
        &&& self.same_scroll(o)
    }

    /// Leave the questions of a collection: the question list is reset and
    /// the remembered view comes back (the collections view if none).
    pub fn exit_collection_questions(&mut self)
        requires
            old(self).wf(),
        ensures
            final(self).wf(),
            final(self).exit_collection_questions_post(old(self)),
    {
        self.questions = LoadState::Idle;
        self.table_state = TableState::new();
        if self.pop_view().is_none() {
            self.view = ContentView::Collections;
        }
    }

    /// The view and stack after going back from `o`: the last remembered
    /// view, or `fallback` when nothing was remembered.
    pub open spec fn back_from(&self, o: &Self, fallback: ContentView) -> bool {
        if o.navigation_stack@.len() > 0 {
            self.view == o.navigation_stack@.last() && self.navigation_stack@
                == o.navigation_stack@.drop_last()
        } else {
            self.view == fallback && self.navigation_stack@.len() == 0
        }
    }

    /// The collection of the collection-questions view.
    pub fn get_collection_context(&self) -> (r: Option<(u32, String)>)
        ensures
            pair_view(r) == match self.view {
                ContentView::CollectionQuestions { id, name } => Some((id, name@)),
                _ => None,
            },
    {
        match &self.view {
            ContentView::CollectionQuestions { id, name } => Some((*id, name.clone())),
            _ => None,
        }
    }

    /// The state after `enter_database_schemas` from state `o`.
    pub open spec fn enter_database_schemas_post(&self, o: &Self, database_id: u32, database_name: String) -> bool {
        &&& self.view == (ContentView::DatabaseSchemas {
            db_id: database_id,
            db_name: database_name,
        })
        &&& self.navigation_stack@ == o.navigation_stack@.push(o.view)
        &&& self.schemas is Idle
        &&& self.schemas_table_state == TableState::new_spec()
        &&& self.questions == o.questions
        &&& self.collections == o.collections
        &&& self.databases == o.databases
        &&& self.tables == o.tables
        &&& forall|k: ListKind| k != ListKind::Schemas ==> #[trigger] self.list_state(k)
            == o.list_state(k)
        &&& self.same_search(o)
        &&& self.same_result_state(o)
        &&& self.same_scroll(o)
    }

    /// Show the schemas of a database: the schema list is reset and the
    /// current view is remembered.
    pub fn enter_database_schemas(&mut self, database_id: u32, database_name: String)
        requires
            old(self).wf(),
        ensures
            final(self).wf(),
            final(self).enter_database_schemas_post(old(self), database_id, database_name),
    {
        self.schemas = LoadState::Idle;
        self.schemas_table_state = TableState::new();
        self.push_view(ContentView::DatabaseSchemas { db_id: database_id, db_name: database_name });
    }

    /// The state after `exit_database_schemas` from state `o`.
    pub open spec fn exit_database_schemas_post(&self, o: &Self) -> bool {
        &&& self.back_from(o, ContentView::Databases)
        &&& self.schemas is Idle
        &&& self.schemas_table_state == TableState::new_spec()
        &&& self.questions == o.questions
        &&& self.collections == o.collections
        &&& self.databases == o.databases
        &&& self.tables == o.tables
        &&& forall|k: ListKind| k != ListKind::Schemas ==> #[trigger] self.list_state(k)
            == o.list_state(k)
        &&& self.same_search(o)
        &&& self.same_result_state(o)
        &&& self.same_scroll(o)
    }

    /// Leave the schemas of a database (back to the databases view if
    /// nothing was remembered).
    pub fn exit_database_schemas(&mut self)
        requires
            old(self).wf(),
        ensures
            final(self).wf(),
            final(self).exit_database_schemas_post(old(self)),
    {
        self.schemas = LoadState::Idle;
        self.schemas_table_state = TableState::new();
        if self.pop_view().is_none() {
            self.view = ContentView::Databases;
        }
    }

    /// The state after `enter_schema_tables` from state `o`.
    pub open spec fn enter_schema_tables_post(&self, o: &Self, database_id: u32, schema_name: String) -> bool {
        &&& self.view == (ContentView::SchemaTables { db_id: database_id, schema_name })
        &&& self.navigation_stack@ == o.navigation_stack@.push(o.view)
        &&& self.tables is Idle
        &&& self.tables_table_state == TableState::new_spec()
        &&& self.questions == o.questions
        &&& self.collections == o.collections
        &&& self.databases == o.databases
        &&& self.schemas == o.schemas
        &&& forall|k: ListKind| k != ListKind::Tables ==> #[trigger] self.list_state(k)
            == o.list_state(k)
        &&& self.same_search(o)
        &&& self.same_result_state(o)
        &&& self.same_scroll(o)
    }

    /// Show the tables of a schema: the table list is reset and the current
    /// view is remembered.
    pub fn enter_schema_tables(&mut self, database_id: u32, schema_name: String)
        requires
            old(self).wf(),
        ensures
            final(self).wf(),
            final(self).enter_schema_tables_post(old(self), database_id, schema_name),
    {
        self.tables = LoadState::Idle;
        self.tables_table_state = TableState::new();
        self.push_view(ContentView::SchemaTables { db_id: database_id, schema_name });
    }

    /// The state after `exit_schema_tables` from state `o`.
    pub open spec fn exit_schema_tables_post(&self, o: &Self) -> bool {
        &&& self.back_from(o, ContentView::Databases)
        &&& self.tables is Idle
        &&& self.tables_table_state == TableState::new_spec()
        &&& self.questions == o.questions
        &&& self.collections == o.collections
        &&& self.databases == o.databases
        &&& self.schemas == o.schemas
        &&& forall|k: ListKind| k != ListKind::Tables ==> #[trigger] self.list_state(k)
            == o.list_state(k)
        &&& self.same_search(o)
        &&& self.same_result_state(o)
        &&& self.same_scroll(o)
    }

    /// Leave the tables of a schema (back to the databases view if nothing
    /// was remembered).
    pub fn exit_schema_tables(&mut self)
        requires
            old(self).wf(),
        ensures
            final(self).wf(),
            final(self).exit_schema_tables_post(old(self)),
    {
        self.tables = LoadState::Idle;
        self.tables_table_state = TableState::new();
        if self.pop_view().is_none() {
            self.view = ContentView::Databases;
        }
    }

    /// Database (id, name) of the schemas view, or of a tables or preview
    /// view whose database is remembered on the stack.
    pub fn get_database_context(&self) -> (r: Option<(u32, String)>)
        ensures
            pair_view(r) == database_context(self.view, self.navigation_stack@),
    {
        match &self.view {
            ContentView::DatabaseSchemas { db_id, db_name } => Some((*db_id, db_name.clone())),
            ContentView::SchemaTables { db_id, .. } => find_database(&self.navigation_stack, *db_id),
            ContentView::TablePreview { db_id, .. } => find_database(&self.navigation_stack, *db_id),
            _ => None,
        }
    }

    /// Schema (database id, schema name) of the tables view, or of a preview
    /// whose schema is remembered on the stack.
    pub fn get_schema_context(&self) -> (r: Option<(u32, String)>)
        ensures
            pair_view(r) == schema_context(self.view, self.navigation_stack@),
    {
        match &self.view {
            ContentView::SchemaTables { db_id, schema_name } => Some((*db_id, schema_name.clone())),
            ContentView::TablePreview { db_id, .. } => find_schema(&self.navigation_stack, *db_id),
            _ => None,
        }
    }

    /// Database id, table id and name of the preview view.
    pub fn get_table_context(&self) -> (r: Option<(u32, u32, String)>)
        ensures
            match self.view {
                ContentView::TablePreview { db_id, table_id, table_name } => (r matches Some(
                    (a, b, c),
                ) && a == db_id && b == table_id && c@ == table_name@),
                _ => r is None,
            },
    {
        match &self.view {
            ContentView::TablePreview { db_id, table_id, table_name } => Some(
                (*db_id, *table_id, table_name.clone()),
            ),
            _ => None,
        }
    }

    // === Question search ===

    /// The input mode.
    pub fn input_mode(&self) -> (r: InputMode)
        ensures
            r == self.input_mode,
    {
        self.input_mode
    }

    /// The state after `enter_search_mode` from state `o`.
    pub open spec fn enter_search_mode_post(&self, o: &Self) -> bool {
        &&& self.input_mode == InputMode::Search
        &&& self.search_query@.len() == 0
        &&& self.active_search == o.active_search
        &&& self.same_lists(o)
        &&& self.same_nav(o)
        &&& self.same_result_state(o)
        &&& self.same_scroll(o)
    }

    /// Start typing a search; the query starts empty.
    pub fn enter_search_mode(&mut self)
        requires
            old(self).wf(),
        ensures
            final(self).wf(),
            final(self).enter_search_mode_post(old(self)),
    {
        self.input_mode = InputMode::Search;
        self.search_query = String::new();
    }

    /// The state after `exit_search_mode` from state `o`.
    pub open spec fn exit_search_mode_post(&self, o: &Self) -> bool {
        &&& self.input_mode == InputMode::Normal
        &&& self.search_query@.len() == 0
        &&& self.active_search == o.active_search
        &&& self.same_lists(o)
        &&& self.same_nav(o)
        &&& self.same_result_state(o)
        &&& self.same_scroll(o)
    }

    /// Stop typing without searching; the query is cleared.
    pub fn exit_search_mode(&mut self)
        requires
            old(self).wf(),
        ensures
            final(self).wf(),
            final(self).exit_search_mode_post(old(self)),
    {
        self.input_mode = InputMode::Normal;
        self.search_query = String::new();
    }

    /// The query being typed.
    pub fn get_search_query(&self) -> (r: &str)
        ensures
            r@ == self.search_query@,
    {
        self.search_query.as_str()
    }

    /// The search last executed.
    pub fn get_active_search(&self) -> (r: Option<&str>)
        ensures
            match self.active_search {
                Some(s) => (r matches Some(t) && t@ == s@),
                None => r is None,
            },
    {
        match &self.active_search {
            Some(s) => Some(s.as_str()),
            None => None,
        }
    }

    /// The state and result after `execute_search` from state `o`.
    pub open spec fn execute_search_post(&self, o: &Self, r: Option<String>) -> bool {
        &&& self.input_mode == InputMode::Normal
        &&& self.search_query@ == o.search_query@
        &&& trim(o.search_query@).len() == 0 ==> r is None && self.active_search
            is None && self.table_state == o.table_state
        &&& trim(o.search_query@).len() > 0 ==> (r matches Some(q) && q@ == trim(
            o.search_query@,
        ))
        &&& trim(o.search_query@).len() > 0 ==> (self.active_search matches Some(a)
            && a@ == trim(o.search_query@))
        &&& trim(o.search_query@).len() > 0 ==> self.table_state == (TableState {
            offset: o.table_state.offset,
            selected: Some(0),
        })
        &&& self.questions == o.questions
        &&& self.collections == o.collections
        &&& self.databases == o.databases
        &&& self.schemas == o.schemas
        &&& self.tables == o.tables
        &&& forall|k: ListKind| k != ListKind::Questions ==> #[trigger] self.list_state(k)
            == o.list_state(k)
        &&& self.same_nav(o)
        &&& self.same_result_state(o)
        &&& self.same_scroll(o)
    }

    /// Finish typing: the trimmed query becomes the active search and is
    /// returned, with the first question selected; an empty query clears
    /// the active search and returns `None`.
    pub fn execute_search(&mut self) -> (r: Option<String>)
        requires
            old(self).wf(),
        ensures
            final(self).wf(),
            final(self).execute_search_post(old(self), r),
    {
        self.input_mode = InputMode::Normal;
        let query = trim_str(self.search_query.as_str());
        if query.as_str().is_empty() {
            self.active_search = None;
            None
        } else {
            self.active_search = Some(query.clone());
            self.table_state.select(Some(0));
            Some(query)
        }
    }

    /// The state after `clear_search` from state `o`.
    pub open spec fn clear_search_post(&self, o: &Self) -> bool {
        &&& self.active_search is None
        &&& self.search_query@.len() == 0
        &&& self.input_mode == o.input_mode
        &&& self.table_state == (TableState {
            offset: o.table_state.offset,
            selected: Some(0),
        })
        &&& self.questions == o.questions
        &&& self.collections == o.collections
        &&& self.databases == o.databases
        &&& self.schemas == o.schemas
        &&& self.tables == o.tables
        &&& forall|k: ListKind| k != ListKind::Questions ==> #[trigger] self.list_state(k)
            == o.list_state(k)
        &&& self.same_nav(o)
        &&& self.same_result_state(o)
        &&& self.same_scroll(o)
    }

    /// Forget the active search and the query; the first question is selected.
    pub fn clear_search(&mut self)
        requires
            old(self).wf(),
        ensures
            final(self).wf(),
            final(self).clear_search_post(old(self)),
    {
        self.active_search = None;
        self.search_query = String::new();
        self.table_state.select(Some(0));
    }

    /// The state after `handle_search_input` from state `o`.
    pub open spec fn handle_search_input_post(&self, o: &Self, c: char) -> bool {
        &&& self.search_query@ == o.search_query@.push(c)
        &&& self.input_mode == o.input_mode
        &&& self.active_search == o.active_search
        &&& self.same_lists(o)
        &&& self.same_nav(o)
        &&& self.same_result_state(o)
        &&& self.same_scroll(o)
    }

    /// Type a character of the query.
    pub fn handle_search_input(&mut self, c: char)
        requires
            old(self).wf(),
        ensures
            final(self).wf(),
            final(self).handle_search_input_post(old(self), c),
    {
        push_char(&mut self.search_query, c);
    }

    /// The state after `handle_search_backspace` from state `o`.
    pub open spec fn handle_search_backspace_post(&self, o: &Self) -> bool {
        &&& self.search_query@ == if o.search_query@.len() > 0 {
            o.search_query@.drop_last()
        } else {
            o.search_query@
        }
        &&& self.input_mode == o.input_mode
        &&& self.active_search == o.active_search
        &&& self.same_lists(o)
        &&& self.same_nav(o)
        &&& self.same_result_state(o)
        &&& self.same_scroll(o)
    }

    /// Delete the last character of the query, if any.
    pub fn handle_search_backspace(&mut self)
        requires
            old(self).wf(),
        ensures
            final(self).wf(),
            final(self).handle_search_backspace_post(old(self)),
    {
        let _ = pop_char(&mut self.search_query);
    }
}

} // verus!
