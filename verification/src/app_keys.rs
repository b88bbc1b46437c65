//! Key handling of the application: open overlays first, then the question
//! search, then the global keys, then Enter, and the content panel last.
use vstd::prelude::*;
use crate::app_state::{tab_after, tab_before, App, AppAction, DataRequest, Effect};
use crate::content::{ContentPanel, ContentView, InputMode};
use crate::content_nav::selected_of;
use crate::overlays::RecordDetailOverlay;
use crate::ui::{ActiveTab, KeyCode, KeyEvent, LoadState};

verus! {

broadcast use vstd::std_specs::vec::group_vec_axioms;

/// What a key press does in the application.
#[derive(Debug, Clone, Copy, PartialEq, Eq)]
pub enum AppKey {
    /// Close the record detail.
    CloseDetail,
    /// Move the record detail's cursor up.
    DetailUp,
    /// Move the record detail's cursor down.
    DetailDown,
    /// Close the help.
    CloseHelp,
    /// A key an open overlay takes without doing anything.
    Swallow,
    /// Run the typed question search.
    SubmitSearch,
    /// Leave the question search.
    CancelSearch,
    Quit,
    /// Go back from a drill-down or result view.
    EscapeBack,
    /// Forget the active question search and reload the questions.
    ClearSearch,
    ShowHelp,
    SwitchTab(ActiveTab),
    Refresh,
    /// Enter on a list item: run it or drill into it.
    EnterSend,
    /// Enter on a result row: show it in detail.
    OpenDetail,
    /// Leave the key to the content panel.
    Panel,
}

/// The action that Esc sends in a view, if it goes back from there.
pub open spec fn escape_back(view: ContentView) -> Option<AppAction> {
    match view {
        ContentView::QueryResult => Some(AppAction::BackToQuestions),
        ContentView::CollectionQuestions { .. } => Some(AppAction::BackToCollections),
        ContentView::DatabaseSchemas { .. } => Some(AppAction::BackToDatabases),
        ContentView::SchemaTables { .. } => Some(AppAction::BackToSchemas),
        ContentView::TablePreview { .. } => Some(AppAction::BackToTables),
        _ => None,
    }
}

/// The action that Enter sends on the selected item of a list view.
pub open spec fn enter_action(c: ContentPanel) -> Option<AppAction> {
    match c.view {
        ContentView::Questions => match selected_of(c.questions, c.table_state) {
            Some(q) => Some(AppAction::ExecuteQuestion(q.id)),
            None => None,
        },
        ContentView::CollectionQuestions { .. } => match selected_of(c.questions, c.table_state) {
            Some(q) => Some(AppAction::ExecuteQuestion(q.id)),
            None => None,
        },
        ContentView::Collections => match selected_of(c.collections, c.collections_table_state) {
            Some(item) => match item.id {
                Some(id) => Some(AppAction::DrillDownCollection(id, item.name)),
                None => None,
            },
            None => None,
        },
        ContentView::Databases => match selected_of(c.databases, c.databases_table_state) {
            Some(d) => Some(AppAction::DrillDownDatabase(d.id, d.name)),
            None => None,
        },
        ContentView::DatabaseSchemas { .. } => match selected_of(c.schemas, c.schemas_table_state) {
            Some(s) => Some(AppAction::DrillDownSchema(s)),
            None => None,
        },
        ContentView::SchemaTables { .. } => match selected_of(c.tables, c.tables_table_state) {
            Some(t) => Some(AppAction::DrillDownTable(t.id, t.name)),
            None => None,
        },
        _ => None,
    }
}

/// Enter opens the detail of the selected result row (no sort or filter
/// dialog open).
pub open spec fn opens_detail(c: ContentPanel) -> bool {
    &&& !c.sort_mode_active
    &&& !c.filter_mode_active
    &&& c.selected_record() is Some
}

/// The record detail with its cursor one field up.
pub open spec fn detail_up(d: RecordDetailOverlay) -> RecordDetailOverlay {
    RecordDetailOverlay {
        columns: d.columns,
        values: d.values,
        selected_index: if d.selected_index > 0 {
            (d.selected_index - 1) as usize
        } else {
            0
        },
        scroll_offset: d.scroll_offset,
    }
}

/// The record detail with its cursor one field down, stopping at the last.
pub open spec fn detail_down(d: RecordDetailOverlay) -> RecordDetailOverlay {
    RecordDetailOverlay {
        columns: d.columns,
        values: d.values,
        selected_index: if d.selected_index + 1 < d.columns@.len() {
            (d.selected_index + 1) as usize
        } else {
            d.selected_index
        },
        scroll_offset: d.scroll_offset,
    }
}

/// A record detail moved by `f`, when there is one.
pub open spec fn moved_detail(
    d: Option<RecordDetailOverlay>,
    f: spec_fn(RecordDetailOverlay) -> RecordDetailOverlay,
) -> Option<RecordDetailOverlay> {
    match d {
        Some(x) => Some(f(x)),
        None => None,
    }
}

/// The question search sent for the result of a search: the query, or all
/// questions when it was empty.
pub open spec fn search_effect(r: Option<String>) -> Effect {
    match r {
        Some(q) => Effect::Send(AppAction::LoadData(DataRequest::SearchQuestions(q))),
        None => Effect::Send(AppAction::LoadData(DataRequest::Questions)),
    }
}

/// The search query carried by an effect, if any.
pub open spec fn sent_query(e: Effect) -> Option<String> {
    match e {
        Effect::Send(AppAction::LoadData(DataRequest::SearchQuestions(q))) => Some(q),
        _ => None,
    }
}

impl App {
    /// What key `key` does in this state.
    pub open spec fn key_step(&self, key: KeyEvent) -> AppKey {
        let code = key.code;
        if self.show_record_detail {
            match code {
                KeyCode::Esc => AppKey::CloseDetail,
                KeyCode::Enter => AppKey::CloseDetail,
                KeyCode::Up => AppKey::DetailUp,
                KeyCode::Down => AppKey::DetailDown,
                KeyCode::Char(c) => if c == 'k' {
                    AppKey::DetailUp
                } else if c == 'j' {
                    AppKey::DetailDown
                } else {
                    AppKey::Swallow
                },
                _ => AppKey::Swallow,
            }
        } else if self.show_help {
            match code {
                KeyCode::Esc => AppKey::CloseHelp,
                KeyCode::Char(c) => if c == '?' {
                    AppKey::CloseHelp
                } else {
                    AppKey::Swallow
                },
                _ => AppKey::Swallow,
            }
        } else if self.content.input_mode == InputMode::Search {
            match code {
                KeyCode::Enter => AppKey::SubmitSearch,
                KeyCode::Esc => AppKey::CancelSearch,
                _ => AppKey::Panel,
            }
        } else {
            self.global_step(key)
        }
    }

    /// What a key does outside overlays and the question search.
    pub open spec fn global_step(&self, key: KeyEvent) -> AppKey {
        let modal = self.modal_open();
        match key.code {
            KeyCode::Char(c) => if c == 'q' || c == 'Q' || (c == 'c' && key.control) {
                AppKey::Quit
            } else if modal {
                AppKey::Panel
            } else if c == '?' {
                AppKey::ShowHelp
            } else if c == '1' {
                AppKey::SwitchTab(ActiveTab::Questions)
            } else if c == '2' {
                AppKey::SwitchTab(ActiveTab::Collections)
            } else if c == '3' {
                AppKey::SwitchTab(ActiveTab::Databases)
            } else if c == 'r' {
                AppKey::Refresh
            } else {
                AppKey::Panel
            },
            KeyCode::Esc => if modal {
                AppKey::Panel
            } else if escape_back(self.content.view) is Some {
                AppKey::EscapeBack
            } else if self.content.active_search is Some {
                AppKey::ClearSearch
            } else {
                AppKey::Quit
            },
            KeyCode::Tab => if modal {
                AppKey::Panel
            } else if key.shift {
                AppKey::SwitchTab(tab_before(self.active_tab))
            } else {
                AppKey::SwitchTab(tab_after(self.active_tab))
            },
            KeyCode::BackTab => if modal {
                AppKey::Panel
            } else {
                AppKey::SwitchTab(tab_before(self.active_tab))
            },
            KeyCode::Enter => if enter_action(self.content) is Some {
                AppKey::EnterSend
            } else if opens_detail(self.content) {
                AppKey::OpenDetail
            } else {
                AppKey::Panel
            },
            _ => AppKey::Panel,
        }
    }

    /// Everything but the help and record detail is unchanged.
    pub open spec fn same_under_overlays(&self, o: &Self) -> bool {
        &&& self.should_quit == o.should_quit
        &&& self.active_tab == o.active_tab
        &&& self.status_bar.bindings == o.status_bar.bindings
        &&& self.status_bar.selection_count == o.status_bar.selection_count
        &&& self.has_service == o.has_service
        &&& self.connection_status == o.connection_status
        &&& self.current_request_id == o.current_request_id
        &&& self.same_data(o)
        &&& self.content == o.content
        &&& self.message() == o.message()
        &&& self.effects@ == o.effects@
    }

    /// Only the record detail changed, to `d`.
    pub open spec fn detail_post(&self, o: &Self, d: Option<RecordDetailOverlay>) -> bool {
        &&& self.record_detail == d
        &&& self.show_record_detail == o.show_record_detail
        &&& self.show_help == o.show_help
        &&& self.same_under_overlays(o)
    }

    /// Only the content panel and the effects changed: the panel as `moved`
    /// says, and `e` was sent.
    pub open spec fn panel_send_post(&self, o: &Self, moved: bool, e: Effect) -> bool {
        &&& moved
        &&& self.effects@ == o.effects@.push(e)
        &&& self.same_app(o)
        &&& self.same_data(o)
        &&& self.message() == o.message()
    }

    /// The data of the view is reloaded: its list goes back to idle and a
    /// load is asked for (a refresh in other views).
    pub open spec fn refresh_post(&self, o: &Self) -> bool {
        &&& self.same_app(o)
        &&& self.content == o.content
        &&& self.message() == o.message()
        &&& match o.content.view {
            ContentView::Questions => {
                &&& self.data.questions == LoadState::<Vec<crate::models::Question>>::Idle
                &&& self.keeps_data(o, false, true, true, true, true, true, true)
                &&& self.effects@ == o.effects@.push(
                    Effect::Send(AppAction::LoadData(DataRequest::Questions)),
                )
            },
            ContentView::Collections => {
                &&& self.data.collections == LoadState::<
                    Vec<crate::models::CollectionItem>,
                >::Idle
                &&& self.keeps_data(o, true, false, true, true, true, true, true)
                &&& self.effects@ == o.effects@.push(
                    Effect::Send(AppAction::LoadData(DataRequest::Collections)),
                )
            },
            ContentView::Databases => {
                &&& self.data.databases == LoadState::<Vec<crate::models::Database>>::Idle
                &&& self.keeps_data(o, true, true, false, true, true, true, true)
                &&& self.effects@ == o.effects@.push(
                    Effect::Send(AppAction::LoadData(DataRequest::Databases)),
                )
            },
            _ => {
                &&& self.same_data(o)
                &&& self.effects@ == o.effects@.push(
                    Effect::Send(AppAction::LoadData(DataRequest::Refresh)),
                )
            },
        }
    }

    /// The state after `handle_key(key)` from `o`.
    pub open spec fn key_post(&self, o: &Self, key: KeyEvent) -> bool {
        match o.key_step(key) {
            AppKey::CloseDetail => {
                &&& !self.show_record_detail
                &&& self.record_detail is None
                &&& self.show_help == o.show_help
                &&& self.same_under_overlays(o)
            },
            AppKey::DetailUp => self.detail_post(o, moved_detail(o.record_detail, |d| detail_up(d))),
            AppKey::DetailDown => self.detail_post(
                o,
                moved_detail(o.record_detail, |d| detail_down(d)),
            ),
            AppKey::CloseHelp => {
                &&& !self.show_help
                &&& self.show_record_detail == o.show_record_detail
                &&& self.record_detail == o.record_detail
                &&& self.same_under_overlays(o)
            },
            AppKey::Swallow => self.unchanged(o),
            AppKey::SubmitSearch => self.panel_send_post(
                o,
                self.content.execute_search_post(&o.content, sent_query(self.effects@.last())),
                search_effect(sent_query(self.effects@.last())),
            ),
            AppKey::CancelSearch => {
                &&& self.content.exit_search_mode_post(&o.content)
                &&& self.same_state(o)
                &&& self.message() == o.message()
            },
            AppKey::Quit => self.quit_post(o),
            AppKey::EscapeBack => self.panel_send_post(
                o,
                self.content == o.content,
                Effect::Send(escape_back(o.content.view)->0),
            ),
            AppKey::ClearSearch => self.panel_send_post(
                o,
                self.content.clear_search_post(&o.content),
                Effect::Send(AppAction::LoadData(DataRequest::Questions)),
            ),
            AppKey::ShowHelp => {
                &&& self.show_help
                &&& self.show_record_detail == o.show_record_detail
                &&& self.record_detail == o.record_detail
                &&& self.same_under_overlays(o)
            },
            AppKey::SwitchTab(t) => self.switch_to_tab_post(o, t),
            AppKey::Refresh => self.refresh_post(o),
            AppKey::EnterSend => self.panel_send_post(
                o,
                self.content == o.content,
                Effect::Send(enter_action(o.content)->0),
            ),
            AppKey::OpenDetail => {
                &&& self.show_record_detail
                &&& (self.record_detail matches Some(d) && o.content.selected_record() == Some(
                    (d.columns@, d.values@),
                ) && d.selected_index == 0 && d.scroll_offset == 0)
                &&& self.show_help == o.show_help
                &&& self.same_under_overlays(o)
            },
            AppKey::Panel => {
                &&& self.content.command_post(&o.content, o.content.key_command(key))
                &&& self.same_state(o)
                &&& self.message() == o.message()
            },
        }
    }
}

impl App {
    fn enter_action_of(&self) -> (r: Option<AppAction>)
        ensures
            r == enter_action(self.content),
    {
        let c = &self.content;
        match &c.view {
            ContentView::Questions | ContentView::CollectionQuestions { .. } => {
                if let LoadState::Loaded(items) = &c.questions {
                    if let Some(s) = c.table_state.selected() {
                        if s < items.len() {
                            return Some(AppAction::ExecuteQuestion(items[s].id));
                        }
                    }
                }
                None
            },
            ContentView::Collections => {
                if let LoadState::Loaded(items) = &c.collections {
                    if let Some(s) = c.collections_table_state.selected() {
                        if s < items.len() {
                            return match items[s].id {
                                Some(id) => Some(
                                    AppAction::DrillDownCollection(id, items[s].name.clone()),
                                ),
                                None => None,
                            };
                        }
                    }
                }
                None
            },
            ContentView::Databases => {
                if let LoadState::Loaded(items) = &c.databases {
                    if let Some(s) = c.databases_table_state.selected() {
                        if s < items.len() {
                            return Some(
                                AppAction::DrillDownDatabase(items[s].id, items[s].name.clone()),
                            );
                        }
                    }
                }
                None
            },
            ContentView::DatabaseSchemas { .. } => {
                if let LoadState::Loaded(items) = &c.schemas {
                    if let Some(s) = c.schemas_table_state.selected() {
                        if s < items.len() {
                            return Some(AppAction::DrillDownSchema(items[s].clone()));
                        }
                    }
                }
                None
            },
            ContentView::SchemaTables { .. } => {
                if let LoadState::Loaded(items) = &c.tables {
                    if let Some(s) = c.tables_table_state.selected() {
                        if s < items.len() {
                            return Some(
                                AppAction::DrillDownTable(items[s].id, items[s].name.clone()),
                            );
                        }
                    }
                }
                None
            },
            _ => None,
        }
    }

    fn escape_action_of(&self) -> (r: Option<AppAction>)
        ensures
            r == escape_back(self.content.view),
    {
        match &self.content.view {
            ContentView::QueryResult => Some(AppAction::BackToQuestions),
            ContentView::CollectionQuestions { .. } => Some(AppAction::BackToCollections),
            ContentView::DatabaseSchemas { .. } => Some(AppAction::BackToDatabases),
            ContentView::SchemaTables { .. } => Some(AppAction::BackToSchemas),
            ContentView::TablePreview { .. } => Some(AppAction::BackToTables),
            _ => None,
        }
    }

    fn global_step_of(&self, key: KeyEvent) -> (r: AppKey)
        requires
            self.wf(),
        ensures
            r == self.global_step(key),
    {
        let modal = self.is_modal_active();
        match key.code {
            KeyCode::Char(c) => {
                if c == 'q' || c == 'Q' || (c == 'c' && key.control) {
                    AppKey::Quit
                } else if modal {
                    AppKey::Panel
                } else if c == '?' {
                    AppKey::ShowHelp
                } else if c == '1' {
                    AppKey::SwitchTab(ActiveTab::Questions)
                } else if c == '2' {
                    AppKey::SwitchTab(ActiveTab::Collections)
                } else if c == '3' {
                    AppKey::SwitchTab(ActiveTab::Databases)
                } else if c == 'r' {
                    AppKey::Refresh
                } else {
                    AppKey::Panel
                }
            },
            KeyCode::Esc => {
                if modal {
                    AppKey::Panel
                } else if self.escape_action_of().is_some() {
                    AppKey::EscapeBack
                } else if self.content.active_search.is_some() {
                    AppKey::ClearSearch
                } else {
                    AppKey::Quit
                }
            },
            KeyCode::Tab => {
                if modal {
                    AppKey::Panel
                } else if key.shift {
                    AppKey::SwitchTab(self.active_tab.previous())
                } else {
                    AppKey::SwitchTab(self.active_tab.next())
                }
            },
            KeyCode::BackTab => {
                if modal {
                    AppKey::Panel
                } else {
                    AppKey::SwitchTab(self.active_tab.previous())
                }
            },
            KeyCode::Enter => {
                if self.enter_action_of().is_some() {
                    AppKey::EnterSend
                } else if !self.content.sort_mode_active && !self.content.filter_mode_active
                    && self.content.get_selected_record().is_some() {
                    AppKey::OpenDetail
                } else {
                    AppKey::Panel
                }
            },
            _ => AppKey::Panel,
        }
    }

    /// What key `key` does in this state.
    pub fn key_step_of(&self, key: KeyEvent) -> (r: AppKey)
        requires
            self.wf(),
        ensures
            r == self.key_step(key),
    {
        if self.show_record_detail {
            match key.code {
                KeyCode::Esc | KeyCode::Enter => AppKey::CloseDetail,
                KeyCode::Up => AppKey::DetailUp,
                KeyCode::Down => AppKey::DetailDown,
                KeyCode::Char(c) => {
                    if c == 'k' {
                        AppKey::DetailUp
                    } else if c == 'j' {
                        AppKey::DetailDown
                    } else {
                        AppKey::Swallow
                    }
                },
                _ => AppKey::Swallow,
            }
        } else if self.show_help {
            match key.code {
                KeyCode::Esc => AppKey::CloseHelp,
                KeyCode::Char(c) => {
                    if c == '?' {
                        AppKey::CloseHelp
                    } else {
                        AppKey::Swallow
                    }
                },
                _ => AppKey::Swallow,
            }
        } else if matches!(self.content.input_mode, InputMode::Search) {
            match key.code {
                KeyCode::Enter => AppKey::SubmitSearch,
                KeyCode::Esc => AppKey::CancelSearch,
                _ => AppKey::Panel,
            }
        } else {
            self.global_step_of(key)
        }
    }

    fn handle_refresh(&mut self)
        requires
            old(self).wf(),
        ensures
            final(self).wf(),
            final(self).refresh_post(old(self)),
    {
        let request = match &self.content.view {
            ContentView::Questions => {
                self.data.questions = LoadState::Idle;
                DataRequest::Questions
            },
            ContentView::Collections => {
                self.data.collections = LoadState::Idle;
                DataRequest::Collections
            },
            ContentView::Databases => {
                self.data.databases = LoadState::Idle;
                DataRequest::Databases
            },
            _ => DataRequest::Refresh,
        };
        self.effects.push(Effect::Send(AppAction::LoadData(request)));
    }

    /// Handle a key press: an open record detail or help takes every key;
    /// then the question search being typed; then the global keys (quit,
    /// help, tabs, refresh, going back with Esc); then Enter on a list item
    /// or result row; every other key goes to the content panel.
    pub fn handle_key(&mut self, key: KeyEvent)
        requires
            old(self).wf(),
        ensures
            final(self).wf(),
            final(self).key_post(old(self), key),
    {
        let step = self.key_step_of(key);
        match step {
            AppKey::CloseDetail => {
                self.show_record_detail = false;
                self.record_detail = None;
            },
            AppKey::DetailUp => {
                match &mut self.record_detail {
                    Some(d) => d.scroll_up(),
                    None => {},
                }
            },
            AppKey::DetailDown => {
                match &mut self.record_detail {
                    Some(d) => d.scroll_down(),
                    None => {},
                }
            },
            AppKey::CloseHelp => {
                self.show_help = false;
            },
            AppKey::Swallow => {},
            AppKey::SubmitSearch => {
                let r = self.content.execute_search();
                let e = match r {
                    Some(q) => Effect::Send(AppAction::LoadData(DataRequest::SearchQuestions(q))),
                    None => Effect::Send(AppAction::LoadData(DataRequest::Questions)),
                };
                self.effects.push(e);
            },
            AppKey::CancelSearch => {
                self.content.exit_search_mode();
            },
            AppKey::Quit => {
                self.should_quit = true;
            },
            AppKey::EscapeBack => {
                if let Some(a) = self.escape_action_of() {
                    self.effects.push(Effect::Send(a));
                }
            },
            AppKey::ClearSearch => {
                self.content.clear_search();
                self.effects.push(Effect::Send(AppAction::LoadData(DataRequest::Questions)));
            },
            AppKey::ShowHelp => {
                self.show_help = true;
            },
            AppKey::SwitchTab(t) => {
                self.switch_to_tab(t);
            },
            AppKey::Refresh => {
                self.handle_refresh();
            },
            AppKey::EnterSend => {
                if let Some(a) = self.enter_action_of() {
                    self.effects.push(Effect::Send(a));
                }
            },
            AppKey::OpenDetail => {
                if let Some((columns, values)) = self.content.get_selected_record() {
                    self.record_detail = Some(RecordDetailOverlay::new(columns, values));
                    self.show_record_detail = true;
                }
            },
            AppKey::Panel => {
                self.content.handle_key_event(key);
            },
        }
    }
}

} // verus!
