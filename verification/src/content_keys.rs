//! Key handling of the content panel: which command a key stands for in
//! each state of the panel, and what each command does.
use vstd::prelude::*;
use crate::content::{selecting, ContentPanel, ContentView, InputMode, SortOrder};
use crate::content_nav::{ListKind, ListMove};
use crate::ui::{KeyCode, KeyEvent, ScrollState};

verus! {

/// What a key press asks the content panel to do.
#[derive(Debug, Clone, Copy, PartialEq, Eq, Structural)]
pub enum PanelCommand {
    SearchInput(char),
    SearchBackspace,
    EnterSearch,
    MoveList(ListKind, ListMove),
    FilterUp,
    FilterDown,
    FilterNextStep,
    FilterApply,
    FilterPrevStep,
    FilterClose,
    FilterDelete,
    FilterInput(char),
    SortUp,
    SortDown,
    SortApply,
    SortClose,
    ResultSearchInput(char),
    ResultSearchDelete,
    ResultSearchApply,
    ResultSearchClose,
    ResultPrevious,
    ResultNext,
    ScrollLeft,
    ScrollRight,
    NextPage,
    PrevPage,
    ResultPageUp,
    ResultPageDown,
    FirstPage,
    LastPage,
    OpenSort,
    OpenFilter,
    ClearFilter,
    OpenResultSearch,
    ClearResultSearch,
    ScrollUp,
    ScrollDown,
    ScrollPageUp,
    ScrollPageDown,
    Ignore,
}

/// Keys of a list view: arrows or vi keys move, Home/End or g/G jump;
/// `/` starts a search where `searchable`.
pub open spec fn list_command(code: KeyCode, kind: ListKind, searchable: bool) -> PanelCommand {
    match code {
        KeyCode::Up | KeyCode::Char('k') => PanelCommand::MoveList(kind, ListMove::Previous),
        KeyCode::Down | KeyCode::Char('j') => PanelCommand::MoveList(kind, ListMove::Next),
        KeyCode::Home | KeyCode::Char('g') => PanelCommand::MoveList(kind, ListMove::First),
        KeyCode::End | KeyCode::Char('G') => PanelCommand::MoveList(kind, ListMove::Last),
        KeyCode::Char('/') => if searchable {
            PanelCommand::EnterSearch
        } else {
            PanelCommand::Ignore
        },
        _ => PanelCommand::Ignore,
    }
}

/// Keys of the filter dialog at a step.
pub open spec fn filter_command(code: KeyCode, step: usize) -> PanelCommand {
    match code {
        KeyCode::Up | KeyCode::Char('k') => PanelCommand::FilterUp,
        KeyCode::Down | KeyCode::Char('j') => PanelCommand::FilterDown,
        KeyCode::Enter => if step == 0 {
            PanelCommand::FilterNextStep
        } else {
            PanelCommand::FilterApply
        },
        KeyCode::Esc => if step == 1 {
            PanelCommand::FilterPrevStep
        } else {
            PanelCommand::FilterClose
        },
        KeyCode::Backspace => PanelCommand::FilterDelete,
        KeyCode::Char(c) => if c == 'f' && step == 0 {
            PanelCommand::FilterClose
        } else if step == 1 {
            PanelCommand::FilterInput(c)
        } else {
            PanelCommand::Ignore
        },
        _ => PanelCommand::Ignore,
    }
}

/// Keys of the sort dialog.
pub open spec fn sort_command(code: KeyCode) -> PanelCommand {
    match code {
        KeyCode::Up | KeyCode::Char('k') => PanelCommand::SortUp,
        KeyCode::Down | KeyCode::Char('j') => PanelCommand::SortDown,
        KeyCode::Enter => PanelCommand::SortApply,
        KeyCode::Esc | KeyCode::Char('s') => PanelCommand::SortClose,
        _ => PanelCommand::Ignore,
    }
}

/// Keys of the search input of a result.
pub open spec fn result_search_command(code: KeyCode) -> PanelCommand {
    match code {
        KeyCode::Char(c) => PanelCommand::ResultSearchInput(c),
        KeyCode::Backspace => PanelCommand::ResultSearchDelete,
        KeyCode::Enter => PanelCommand::ResultSearchApply,
        KeyCode::Esc => PanelCommand::ResultSearchClose,
        _ => PanelCommand::Ignore,
    }
}

/// Keys of a result table with no dialog open.
pub open spec fn result_table_command(code: KeyCode) -> PanelCommand {
    match code {
        KeyCode::Up | KeyCode::Char('k') => PanelCommand::ResultPrevious,
        KeyCode::Down | KeyCode::Char('j') => PanelCommand::ResultNext,
        KeyCode::Left | KeyCode::Char('h') => PanelCommand::ScrollLeft,
        KeyCode::Right | KeyCode::Char('l') => PanelCommand::ScrollRight,
        KeyCode::Char('n') => PanelCommand::NextPage,
        KeyCode::Char('p') => PanelCommand::PrevPage,
        KeyCode::PageUp => PanelCommand::ResultPageUp,
        KeyCode::PageDown => PanelCommand::ResultPageDown,
        KeyCode::Home | KeyCode::Char('g') => PanelCommand::FirstPage,
        KeyCode::End | KeyCode::Char('G') => PanelCommand::LastPage,
        KeyCode::Char('s') => PanelCommand::OpenSort,
        KeyCode::Char('f') => PanelCommand::OpenFilter,
        KeyCode::Char('F') => PanelCommand::ClearFilter,
        KeyCode::Char('/') => PanelCommand::OpenResultSearch,
        KeyCode::Char('S') => PanelCommand::ClearResultSearch,
        _ => PanelCommand::Ignore,
    }
}

/// Keys of the views that only scroll.
pub open spec fn scroll_command(code: KeyCode) -> PanelCommand {
    match code {
        KeyCode::Up | KeyCode::Char('k') => PanelCommand::ScrollUp,
        KeyCode::Down | KeyCode::Char('j') => PanelCommand::ScrollDown,
        KeyCode::PageUp => PanelCommand::ScrollPageUp,
        KeyCode::PageDown => PanelCommand::ScrollPageDown,
        _ => PanelCommand::Ignore,
    }
}

/// The scroll offset after moving up `visible` items.
pub open spec fn scroll_page_up(s: ScrollState) -> ScrollState {
    ScrollState {
        offset: if s.offset >= s.visible {
            (s.offset - s.visible) as usize
        } else {
            0
        },
        ..s
    }
}

/// The scroll offset after moving down `visible` items, each move only
/// while items remain below the visible ones.
pub open spec fn scroll_page_down(s: ScrollState) -> ScrollState {
    ScrollState {
        offset: if s.offset + s.visible >= s.total {
            s.offset
        } else if s.offset + s.visible + s.visible <= s.total {
            (s.offset + s.visible) as usize
        } else {
            (s.total - s.visible) as usize
        },
        ..s
    }
}

impl ContentPanel {
    /// The result table's keys: the filter dialog first, then the sort
    /// dialog, then the search input, then the table itself.
    pub open spec fn result_command(&self, code: KeyCode) -> PanelCommand {
        if self.filter_mode_active {
            filter_command(code, self.filter_modal_step)
        } else if self.sort_mode_active {
            sort_command(code)
        } else if self.result_search_active {
            result_search_command(code)
        } else {
            result_table_command(code)
        }
    }

    /// The command of a key in the current state: typing a question search
    /// first, then by view.
    pub open spec fn key_command(&self, key: KeyEvent) -> PanelCommand {
        let code = key.code;
        if self.input_mode == InputMode::Search {
            match code {
                KeyCode::Char(c) => PanelCommand::SearchInput(c),
                KeyCode::Backspace => PanelCommand::SearchBackspace,
                _ => PanelCommand::Ignore,
            }
        } else {
            match self.view {
                ContentView::Questions => list_command(code, ListKind::Questions, true),
                ContentView::Collections => list_command(code, ListKind::Collections, false),
                ContentView::Databases => list_command(code, ListKind::Databases, false),
                ContentView::CollectionQuestions { .. } => list_command(
                    code,
                    ListKind::Questions,
                    false,
                ),
                ContentView::QueryResult => self.result_command(code),
                ContentView::DatabaseSchemas { .. } => list_command(code, ListKind::Schemas, false),
                ContentView::SchemaTables { .. } => list_command(code, ListKind::Tables, false),
                ContentView::TablePreview { .. } => self.result_command(code),
                ContentView::Welcome => scroll_command(code),
            }
        }
    }

    /// The first page is shown with its first row selected, and the result,
    /// its page size and cell readings are as in `o`.
    pub open spec fn rewound_from(&self, o: &Self) -> bool {
        &&& self.result_page == 0
        &&& self.result_table_state == selecting(o.result_table_state, 0)
        &&& self.query_result == o.query_result
        &&& self.rows_per_page == o.rows_per_page
        &&& self.cell_numbers == o.cell_numbers
    }

    /// Only the scroll position changed, to `s`.
    pub open spec fn scrolled_from(&self, o: &Self, s: ScrollState) -> bool {
        &&& self.scroll == s
        &&& self.scroll_x == o.scroll_x
        &&& self.same_result_state(o)
        &&& self.same_lists(o)
        &&& self.same_nav(o)
        &&& self.same_search(o)
    }

    /// The state after running `cmd` from state `o`.
    pub open spec fn command_post(&self, o: &Self, cmd: PanelCommand) -> bool {
        match cmd {
            PanelCommand::SearchInput(c) => self.handle_search_input_post(o, c),
            PanelCommand::SearchBackspace => self.handle_search_backspace_post(o),
            PanelCommand::EnterSearch => self.enter_search_mode_post(o),
            PanelCommand::MoveList(kind, m) => self.move_selection_post(o, kind, m),
            PanelCommand::FilterUp => self.filter_modal_up_post(o),
            PanelCommand::FilterDown => self.filter_modal_down_post(o),
            PanelCommand::FilterNextStep => self.filter_modal_next_step_post(o),
            PanelCommand::FilterApply => self.apply_filter_post(o),
            PanelCommand::FilterPrevStep => self.filter_modal_prev_step_post(o),
            PanelCommand::FilterClose => self.close_filter_modal_post(o),
            PanelCommand::FilterDelete => self.filter_modal_delete_char_post(o),
            PanelCommand::FilterInput(c) => self.filter_modal_input_char_post(o, c),
            PanelCommand::SortUp => self.sort_modal_up_post(o),
            PanelCommand::SortDown => self.sort_modal_down_post(o),
            PanelCommand::SortApply => self.apply_sort_post(o),
            PanelCommand::SortClose => self.close_sort_modal_post(o),
            PanelCommand::ResultSearchInput(c) => self.result_search_input_char_post(o, c),
            PanelCommand::ResultSearchDelete => self.result_search_delete_char_post(o),
            PanelCommand::ResultSearchApply => self.apply_result_search_post(o),
            PanelCommand::ResultSearchClose => self.close_result_search_post(o),
            PanelCommand::ResultPrevious => self.select_result_previous_post(o),
            PanelCommand::ResultNext => self.select_result_next_post(o),
            PanelCommand::ScrollLeft => self.scroll_left_post(o),
            PanelCommand::ScrollRight => self.scroll_right_post(o),
            PanelCommand::NextPage => self.next_page_post(o),
            PanelCommand::PrevPage => self.prev_page_post(o),
            PanelCommand::ResultPageUp => self.scroll_result_page_up_post(o),
            PanelCommand::ResultPageDown => self.scroll_result_page_down_post(o),
            PanelCommand::FirstPage => self.first_page_post(o),
            PanelCommand::LastPage => self.last_page_post(o),
            PanelCommand::OpenSort => self.open_sort_modal_post(o),
            PanelCommand::OpenFilter => self.open_filter_modal_post(o),
            PanelCommand::ClearFilter => {
                &&& self.filter_column_index is None
                &&& self.filter_text@.len() == 0
                &&& self.filter_indices is None
                &&& self.filter_mode_active == o.filter_mode_active
                &&& self.filter_modal_step == o.filter_modal_step
                &&& self.filter_modal_selection == o.filter_modal_selection
                &&& (o.sort_order != SortOrder::Unsorted ==> self.sort_fresh(o.sort_indices))
                &&& (o.sort_order == SortOrder::Unsorted ==> self.sort_indices == o.sort_indices)
                &&& self.sort_order == o.sort_order
                &&& self.sort_column_index == o.sort_column_index
                &&& self.sort_mode_active == o.sort_mode_active
                &&& self.sort_modal_selection == o.sort_modal_selection
                &&& self.rewound_from(o)
                &&& self.same_rsearch(o)
                &&& self.same_outside_result(o)
            },
            PanelCommand::OpenResultSearch => self.open_result_search_post(o),
            PanelCommand::ClearResultSearch => {
                &&& self.result_search_text@.len() == 0
                &&& self.result_search_indices is None
                &&& !self.result_search_active
                &&& (o.filter_active() ==> self.filter_fresh(o.filter_indices))
                &&& (!o.filter_active() ==> self.filter_indices == o.filter_indices)
                &&& (o.sort_order != SortOrder::Unsorted ==> self.sort_fresh(o.sort_indices))
                &&& (o.sort_order == SortOrder::Unsorted ==> self.sort_indices == o.sort_indices)
                &&& self.filter_column_index == o.filter_column_index
                &&& self.filter_text@ == o.filter_text@
                &&& self.filter_mode_active == o.filter_mode_active
                &&& self.filter_modal_step == o.filter_modal_step
                &&& self.filter_modal_selection == o.filter_modal_selection
                &&& self.sort_order == o.sort_order
                &&& self.sort_column_index == o.sort_column_index
                &&& self.sort_mode_active == o.sort_mode_active
                &&& self.sort_modal_selection == o.sort_modal_selection
                &&& self.rewound_from(o)
                &&& self.same_outside_result(o)
            },
            PanelCommand::ScrollUp => self.scrolled_from(
                o,
                ScrollState {
                    offset: if o.scroll.offset > 0 {
                        (o.scroll.offset - 1) as usize
                    } else {
                        0
                    },
                    ..o.scroll
                },
            ),
            PanelCommand::ScrollDown => self.scrolled_from(
                o,
                ScrollState {
                    offset: if o.scroll.offset + o.scroll.visible < o.scroll.total {
                        (o.scroll.offset + 1) as usize
                    } else {
                        o.scroll.offset
                    },
                    ..o.scroll
                },
            ),
            PanelCommand::ScrollPageUp => self.scrolled_from(o, scroll_page_up(o.scroll)),
            PanelCommand::ScrollPageDown => self.scrolled_from(o, scroll_page_down(o.scroll)),
            PanelCommand::Ignore => {
                &&& self.same_result_state(o)
                &&& self.same_lists(o)
                &&& self.same_nav(o)
                &&& self.same_search(o)
                &&& self.same_scroll(o)
            },
        }
    }

    /// The command a key stands for in the current state.
    pub fn command_for_key(&self, key: KeyEvent) -> (r: PanelCommand)
        ensures
            r == self.key_command(key),
    {
        let code = key.code;
        if matches!(self.input_mode, InputMode::Search) {
            return match code {
                KeyCode::Char(c) => PanelCommand::SearchInput(c),
                KeyCode::Backspace => PanelCommand::SearchBackspace,
                _ => PanelCommand::Ignore,
            };
        }
        match &self.view {
            ContentView::Questions => list_keys(code, ListKind::Questions, true),
            ContentView::Collections => list_keys(code, ListKind::Collections, false),
            ContentView::Databases => list_keys(code, ListKind::Databases, false),
            ContentView::CollectionQuestions { .. } => list_keys(code, ListKind::Questions, false),
            ContentView::QueryResult => self.result_keys(code),
            ContentView::DatabaseSchemas { .. } => list_keys(code, ListKind::Schemas, false),
            ContentView::SchemaTables { .. } => list_keys(code, ListKind::Tables, false),
            ContentView::TablePreview { .. } => self.result_keys(code),
            ContentView::Welcome => match code {
                KeyCode::Up | KeyCode::Char('k') => PanelCommand::ScrollUp,
                KeyCode::Down | KeyCode::Char('j') => PanelCommand::ScrollDown,
                KeyCode::PageUp => PanelCommand::ScrollPageUp,
                KeyCode::PageDown => PanelCommand::ScrollPageDown,
                _ => PanelCommand::Ignore,
            },
        }
    }

    fn result_keys(&self, code: KeyCode) -> (r: PanelCommand)
        ensures
            r == self.result_command(code),
    {
        if self.filter_mode_active {
            let step = self.filter_modal_step;
            match code {
                KeyCode::Up | KeyCode::Char('k') => PanelCommand::FilterUp,
                KeyCode::Down | KeyCode::Char('j') => PanelCommand::FilterDown,
                KeyCode::Enter => if step == 0 {
                    PanelCommand::FilterNextStep
                } else {
                    PanelCommand::FilterApply
                },
                KeyCode::Esc => if step == 1 {
                    PanelCommand::FilterPrevStep
                } else {
                    PanelCommand::FilterClose
                },
                KeyCode::Backspace => PanelCommand::FilterDelete,
                KeyCode::Char(c) => if c == 'f' && step == 0 {
                    PanelCommand::FilterClose
                } else if step == 1 {
                    PanelCommand::FilterInput(c)
                } else {
                    PanelCommand::Ignore
                },
                _ => PanelCommand::Ignore,
            }
        } else if self.sort_mode_active {
            match code {
                KeyCode::Up | KeyCode::Char('k') => PanelCommand::SortUp,
                KeyCode::Down | KeyCode::Char('j') => PanelCommand::SortDown,
                KeyCode::Enter => PanelCommand::SortApply,
                KeyCode::Esc | KeyCode::Char('s') => PanelCommand::SortClose,
                _ => PanelCommand::Ignore,
            }
        } else if self.result_search_active {
            match code {
                KeyCode::Char(c) => PanelCommand::ResultSearchInput(c),
                KeyCode::Backspace => PanelCommand::ResultSearchDelete,
                KeyCode::Enter => PanelCommand::ResultSearchApply,
                KeyCode::Esc => PanelCommand::ResultSearchClose,
                _ => PanelCommand::Ignore,
            }
        } else {
            match code {
                KeyCode::Up | KeyCode::Char('k') => PanelCommand::ResultPrevious,
                KeyCode::Down | KeyCode::Char('j') => PanelCommand::ResultNext,
                KeyCode::Left | KeyCode::Char('h') => PanelCommand::ScrollLeft,
                KeyCode::Right | KeyCode::Char('l') => PanelCommand::ScrollRight,
                KeyCode::Char('n') => PanelCommand::NextPage,
                KeyCode::Char('p') => PanelCommand::PrevPage,
                KeyCode::PageUp => PanelCommand::ResultPageUp,
                KeyCode::PageDown => PanelCommand::ResultPageDown,
                KeyCode::Home | KeyCode::Char('g') => PanelCommand::FirstPage,
                KeyCode::End | KeyCode::Char('G') => PanelCommand::LastPage,
                KeyCode::Char('s') => PanelCommand::OpenSort,
                KeyCode::Char('f') => PanelCommand::OpenFilter,
                KeyCode::Char('F') => PanelCommand::ClearFilter,
                KeyCode::Char('/') => PanelCommand::OpenResultSearch,
                KeyCode::Char('S') => PanelCommand::ClearResultSearch,
                _ => PanelCommand::Ignore,
            }
        }
    }

    fn scroll_page_up_loop(&mut self)
        requires
            old(self).wf(),
        ensures
            final(self).wf(),
            final(self).scrolled_from(old(self), scroll_page_up(old(self).scroll)),
    {
        let n = self.scroll.visible;
        let mut i: usize = 0;
        while i < n
            invariant
                self.wf(),
                0 <= i <= n,
                n == old(self).scroll.visible,
                self.scrolled_from(
                    old(self),
                    ScrollState {
                        offset: if old(self).scroll.offset >= i {
                            (old(self).scroll.offset - i) as usize
                        } else {
                            0
                        },
                        ..old(self).scroll
                    },
                ),
            decreases n - i,
        {
            self.scroll.scroll_up();
            i = i + 1;
        }
    }

    fn scroll_page_down_loop(&mut self)
        requires
            old(self).wf(),
        ensures
            final(self).wf(),
            final(self).scrolled_from(old(self), scroll_page_down(old(self).scroll)),
    {
        let n = self.scroll.visible;
        let mut i: usize = 0;
        while i < n
            invariant
                self.wf(),
                0 <= i <= n,
                n == old(self).scroll.visible,
                self.scrolled_from(
                    old(self),
                    ScrollState {
                        offset: if old(self).scroll.offset + old(self).scroll.visible
                            >= old(self).scroll.total {
                            old(self).scroll.offset
                        } else if old(self).scroll.offset + old(self).scroll.visible + i
                            <= old(self).scroll.total {
                            (old(self).scroll.offset + i) as usize
                        } else {
                            (old(self).scroll.total - old(self).scroll.visible) as usize
                        },
                        ..old(self).scroll
                    },
                ),
            decreases n - i,
        {
            self.scroll.scroll_down();
            i = i + 1;
        }
    }

    /// Carry out a command.
    pub fn run_command(&mut self, cmd: PanelCommand)
        requires
            old(self).wf(),
        ensures
            final(self).wf(),
            final(self).command_post(old(self), cmd),
    {
        match cmd {
            PanelCommand::SearchInput(c) => self.handle_search_input(c),
            PanelCommand::SearchBackspace => self.handle_search_backspace(),
            PanelCommand::EnterSearch => self.enter_search_mode(),
            PanelCommand::MoveList(kind, m) => self.move_selection(kind, m),
            PanelCommand::FilterUp => self.filter_modal_up(),
            PanelCommand::FilterDown => self.filter_modal_down(),
            PanelCommand::FilterNextStep => self.filter_modal_next_step(),
            PanelCommand::FilterApply => self.apply_filter(),
            PanelCommand::FilterPrevStep => self.filter_modal_prev_step(),
            PanelCommand::FilterClose => self.close_filter_modal(),
            PanelCommand::FilterDelete => self.filter_modal_delete_char(),
            PanelCommand::FilterInput(c) => self.filter_modal_input_char(c),
            PanelCommand::SortUp => self.sort_modal_up(),
            PanelCommand::SortDown => self.sort_modal_down(),
            PanelCommand::SortApply => self.apply_sort(),
            PanelCommand::SortClose => self.close_sort_modal(),
            PanelCommand::ResultSearchInput(c) => self.result_search_input_char(c),
            PanelCommand::ResultSearchDelete => self.result_search_delete_char(),
            PanelCommand::ResultSearchApply => self.apply_result_search(),
            PanelCommand::ResultSearchClose => self.close_result_search(),
            PanelCommand::ResultPrevious => self.select_result_previous(),
            PanelCommand::ResultNext => self.select_result_next(),
            PanelCommand::ScrollLeft => self.scroll_left(),
            PanelCommand::ScrollRight => self.scroll_right(),
            PanelCommand::NextPage => self.next_page(),
            PanelCommand::PrevPage => self.prev_page(),
            PanelCommand::ResultPageUp => self.scroll_result_page_up(),
            PanelCommand::ResultPageDown => self.scroll_result_page_down(),
            PanelCommand::FirstPage => self.first_page(),
            PanelCommand::LastPage => self.last_page(),
            PanelCommand::OpenSort => self.open_sort_modal(),
            PanelCommand::OpenFilter => self.open_filter_modal(),
            PanelCommand::ClearFilter => {
                self.clear_filter();
                self.result_page = 0;
                self.result_table_state.select(Some(0));
            },
            PanelCommand::OpenResultSearch => self.open_result_search(),
            PanelCommand::ClearResultSearch => {
                self.clear_result_search();
                self.result_page = 0;
                self.result_table_state.select(Some(0));
            },
            PanelCommand::ScrollUp => self.scroll.scroll_up(),
            PanelCommand::ScrollDown => self.scroll.scroll_down(),
            PanelCommand::ScrollPageUp => self.scroll_page_up_loop(),
            PanelCommand::ScrollPageDown => self.scroll_page_down_loop(),
            PanelCommand::Ignore => {},
        }
    }

    /// Handle a key press; whether the panel used it. Enter and Esc in the
    /// list views and the question search are left to the application.
    pub fn handle_key_event(&mut self, key: KeyEvent) -> (handled: bool)
        requires
            old(self).wf(),
        ensures
            final(self).wf(),
            handled == !(old(self).key_command(key) is Ignore),
            final(self).command_post(old(self), old(self).key_command(key)),
    {
        let cmd = self.command_for_key(key);
        self.run_command(cmd);
        !matches!(cmd, PanelCommand::Ignore)
    }
}

fn list_keys(code: KeyCode, kind: ListKind, searchable: bool) -> (r: PanelCommand)
    ensures
        r == list_command(code, kind, searchable),
{
    match code {
        KeyCode::Up | KeyCode::Char('k') => PanelCommand::MoveList(kind, ListMove::Previous),
        KeyCode::Down | KeyCode::Char('j') => PanelCommand::MoveList(kind, ListMove::Next),
        KeyCode::Home | KeyCode::Char('g') => PanelCommand::MoveList(kind, ListMove::First),
        KeyCode::End | KeyCode::Char('G') => PanelCommand::MoveList(kind, ListMove::Last),
        KeyCode::Char('/') => if searchable {
            PanelCommand::EnterSearch
        } else {
            PanelCommand::Ignore
        },
        _ => PanelCommand::Ignore,
    }
}

} // verus!
