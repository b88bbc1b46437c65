//! Small UI state types shared by the terminal components: tabs, scroll and
//! selection state, key events and the load state of remote data.
use vstd::prelude::*;
use crate::dup::Duplicate;

verus! {

/// The tab shown in the navigation bar.
#[derive(Debug, Clone, Copy, PartialEq, Eq, Structural)]
pub enum ActiveTab {
    Questions,
    Collections,
    Databases,
}

/// The position of a tab, counted from the left.
pub open spec fn tab_index(t: ActiveTab) -> nat {
    match t {
        ActiveTab::Questions => 0,
        ActiveTab::Collections => 1,
        ActiveTab::Databases => 2,
    }
}

/// The tab at a position; positions past the last tab give the first one.
pub open spec fn tab_at(i: nat) -> ActiveTab {
    if i == 1 {
        ActiveTab::Collections
    } else if i == 2 {
        ActiveTab::Databases
    } else {
        ActiveTab::Questions
    }
}

impl ActiveTab {
    /// The first tab.
    pub fn default_tab() -> (r: Self)
        ensures
            r == ActiveTab::Questions,
    {
        ActiveTab::Questions
    }

    /// Position of this tab.
    pub fn index(self) -> (r: usize)
        ensures
            r == tab_index(self),
    {
        match self {
            ActiveTab::Questions => 0,
            ActiveTab::Collections => 1,
            ActiveTab::Databases => 2,
        }
    }

    /// The tab at a position (the first tab for an unknown position).
    pub fn from_index(index: usize) -> (r: Self)
        ensures
            r == tab_at(index as nat),
    {
        match index {
            0 => ActiveTab::Questions,
            1 => ActiveTab::Collections,
            2 => ActiveTab::Databases,
            _ => ActiveTab::Questions,
        }
    }

    /// The tab to the right, wrapping around.
    pub fn next(self) -> (r: Self)
        ensures
            r == tab_at(((tab_index(self) + 1) % 3) as nat),
    {
        Self::from_index((self.index() + 1) % 3)
    }

    /// The tab to the left, wrapping around.
    pub fn previous(self) -> (r: Self)
        ensures
            r == tab_at(((tab_index(self) + 2) % 3) as nat),
    {
        Self::from_index((self.index() + 2) % 3)
    }

    /// The label shown for a tab.
    pub open spec fn label_spec(self) -> Seq<char> {
        match self {
            ActiveTab::Questions => "📋 Questions"@,
            ActiveTab::Collections => "📁 Collections"@,
            ActiveTab::Databases => "🗄️ Databases"@,
        }
    }

    /// The label shown for this tab.
    pub fn label(self) -> (r: &'static str)
        ensures
            r@ == self.label_spec(),
    {
        match self {
            ActiveTab::Questions => "📋 Questions",
            ActiveTab::Collections => "📁 Collections",
            ActiveTab::Databases => "🗄️ Databases",
        }
    }

    /// The caption of this tab in the header: its number key and label,
    /// padded by a space on both sides.
    pub fn caption(self) -> (r: String)
        ensures
            r@ == " "@ + crate::strings::decimal(tab_index(self) + 1) + " "@ + self.label_spec() + " "@,
    {
        let mut r = String::new();
        crate::strings::append_str(&mut r, " ");
        crate::strings::push_decimal(&mut r, (self.index() + 1) as u64);
        crate::strings::append_str(&mut r, " ");
        crate::strings::append_str(&mut r, self.label());
        crate::strings::append_str(&mut r, " ");
        assert(Seq::<char>::empty() + " "@ =~= " "@);
        r
    }
}

/// Moving to the next tab and then to the previous one comes back, and so
/// does the reverse; every tab is found again at its own position.
pub proof fn lemma_tab_cycle(t: ActiveTab)
    ensures
        tab_at(((tab_index(tab_at(((tab_index(t) + 1) % 3) as nat)) + 2) % 3) as nat) == t,
        tab_at(((tab_index(tab_at(((tab_index(t) + 2) % 3) as nat)) + 1) % 3) as nat) == t,
        tab_at(tab_index(t)) == t,
        tab_index(t) < 3,
{
}

/// Scroll position of a list with a number of items, some of them visible.
#[derive(Debug, Clone, Copy, PartialEq, Eq, Structural)]
pub struct ScrollState {
    /// Index of the top visible item.
    pub offset: usize,
    /// Number of items.
    pub total: usize,
    /// Number of items that fit on screen.
    pub visible: usize,
}

impl ScrollState {
    /// Everything at zero.
    pub fn new() -> (r: Self)
        ensures
            r.offset == 0 && r.total == 0 && r.visible == 0,
    {
        ScrollState { offset: 0, total: 0, visible: 0 }
    }

    /// Move up one item, stopping at the top.
    pub fn scroll_up(&mut self)
        ensures
            final(self).offset == if old(self).offset > 0 { old(self).offset - 1 } else { 0int },
            final(self).total == old(self).total,
            final(self).visible == old(self).visible,
    {
        self.offset = self.offset.saturating_sub(1);
    }

    /// Move down one item while items remain below the visible ones.
    pub fn scroll_down(&mut self)
        ensures
            final(self).offset == if old(self).offset + old(self).visible < old(self).total {
                old(self).offset + 1
            } else {
                old(self).offset as int
            },
            final(self).total == old(self).total,
            final(self).visible == old(self).visible,
    {
        if self.offset as u128 + (self.visible as u128) < self.total as u128 {
            self.offset += 1;
        }
    }
}

/// The selected row of a table and the first row drawn.
#[derive(Debug, Clone, Copy, PartialEq, Eq, Structural)]
pub struct TableState {
    pub offset: usize,
    pub selected: Option<usize>,
}

impl TableState {
    /// Nothing selected, drawn from the top.
    pub fn new() -> (r: Self)
        ensures
            r.offset == 0 && r.selected is None,
    {
        TableState { offset: 0, selected: None }
    }

    /// The selected row.
    pub fn selected(&self) -> (r: Option<usize>)
        ensures
            r == self.selected,
    {
        self.selected
    }

    /// Select a row, or clear the selection (which also scrolls to the top).
    pub fn select(&mut self, index: Option<usize>)
        ensures
            final(self).selected == index,
            final(self).offset == if index is None { 0 } else { old(self).offset },
    {
        self.selected = index;
        if index.is_none() {
            self.offset = 0;
        }
    }
}

/// A key of the keyboard.
#[derive(Debug, Clone, Copy, PartialEq, Eq, Structural)]
pub enum KeyCode {
    Char(char),
    Backspace,
    Enter,
    Esc,
    Up,
    Down,
    Left,
    Right,
    Home,
    End,
    PageUp,
    PageDown,
    Tab,
    BackTab,
    Delete,
    Other,
}

/// A key press with its modifier keys.
#[derive(Debug, Clone, Copy, PartialEq, Eq, Structural)]
pub struct KeyEvent {
    pub code: KeyCode,
    pub shift: bool,
    pub control: bool,
    pub alt: bool,
}

impl KeyEvent {
    /// A key pressed without modifiers.
    pub fn plain(code: KeyCode) -> (r: Self)
        ensures
            r.code == code && !r.shift && !r.control && !r.alt,
    {
        KeyEvent { code, shift: false, control: false, alt: false }
    }
}

/// Where a piece of remote data stands.
#[derive(Debug, PartialEq)]
pub enum LoadState<T> {
    Idle,
    Loading,
    Loaded(T),
    Error(String),
}

impl<T: Duplicate> Duplicate for LoadState<T> {
    open spec fn same(&self, other: &Self) -> bool {
        match (self, other) {
            (LoadState::Idle, LoadState::Idle) => true,
            (LoadState::Loading, LoadState::Loading) => true,
            (LoadState::Loaded(a), LoadState::Loaded(b)) => a.same(b),
            (LoadState::Error(a), LoadState::Error(b)) => a@ == b@,
            _ => false,
        }
    }

    fn duplicate(&self) -> (r: Self) {
        match self {
            LoadState::Idle => LoadState::Idle,
            LoadState::Loading => LoadState::Loading,
            LoadState::Loaded(x) => LoadState::Loaded(x.duplicate()),
            LoadState::Error(e) => LoadState::Error(e.clone()),
        }
    }
}

impl<T> LoadState<T> {
    /// Nothing requested yet.
    pub fn idle() -> (r: Self)
        ensures
            r is Idle,
    {
        LoadState::Idle
    }

    /// The data, once loaded.
    pub fn loaded(&self) -> (r: Option<&T>)
        ensures
            match self {
                LoadState::Loaded(x) => r == Some(x),
                _ => r is None,
            },
    {
        match self {
            LoadState::Loaded(x) => Some(x),
            _ => None,
        }
    }
}

} // verus!
