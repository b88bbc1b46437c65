//! The navigation menu: its entries and the entry under the cursor.
use vstd::prelude::*;
use crate::overlays::MenuItem;
use crate::ui::{KeyCode, KeyEvent, TableState};

verus! {

/// The navigation menu.
pub struct NavigationPanel {
    pub items: Vec<MenuItem>,
    /// Index of the entry under the cursor.
    pub selected: usize,
    /// The cursor as the drawn list holds it.
    pub list_state: TableState,
}

/// The entry the cursor lands on after a key in a menu of `len` entries.
pub open spec fn menu_move(code: KeyCode, selected: nat, len: nat) -> Option<nat> {
    match code {
        KeyCode::Up | KeyCode::Char('k') => Some(if selected > 0 { (selected - 1) as nat } else { selected }),
        KeyCode::Down | KeyCode::Char('j') => Some(
            if selected + 1 < len { selected + 1 } else { selected },
        ),
        KeyCode::Home => Some(0),
        KeyCode::End => Some(if len > 0 { (len - 1) as nat } else { 0 }),
        _ => None,
    }
}

impl NavigationPanel {
    /// The cursor is on an entry, and the drawn list agrees.
    pub open spec fn wf(&self) -> bool {
        &&& self.selected < self.items@.len()
        &&& self.list_state.selected == Some(self.selected)
    }

    /// The menu with its four entries, the first under the cursor.
    pub fn new() -> (r: Self)
        ensures
            r.wf(),
            r.selected == 0,
            r.items@.len() == 4,
            r.items@[0].label@ == "Questions"@ && r.items@[0].icon@ == "\u{f02d7}"@,
            r.items@[1].label@ == "Collections"@ && r.items@[1].icon@ == ""@,
            r.items@[2].label@ == "Databases"@ && r.items@[2].icon@ == ""@,
            r.items@[3].label@ == "Settings"@ && r.items@[3].icon@ == ""@,
    {
        let mut items: Vec<MenuItem> = Vec::new();
        items.push(MenuItem::new("Questions".to_string(), "\u{f02d7}"));
        items.push(MenuItem::new("Collections".to_string(), ""));
        items.push(MenuItem::new("Databases".to_string(), ""));
        items.push(MenuItem::new("Settings".to_string(), ""));
        let mut list_state = TableState::new();
        list_state.select(Some(0));
        NavigationPanel { items, selected: 0, list_state }
    }

    /// Index of the entry under the cursor.
    pub fn selected(&self) -> (r: usize)
        ensures
            r == self.selected,
    {
        self.selected
    }

    /// The entry under the cursor.
    pub fn selected_item(&self) -> (r: Option<&MenuItem>)
        ensures
            r == if self.selected < self.items@.len() {
                Some(&self.items@[self.selected as int])
            } else {
                None
            },
    {
        if self.selected < self.items.len() {
            Some(&self.items[self.selected])
        } else {
            None
        }
    }

    fn move_to(&mut self, index: usize)
        requires
            index < old(self).items@.len(),
        ensures
            final(self).wf(),
            final(self).selected == index,
            final(self).items == old(self).items,
    {
        self.selected = index;
        self.list_state.select(Some(index));
    }

    /// Move the cursor up, stopping at the first entry.
    fn select_previous(&mut self)
        requires
            old(self).wf(),
        ensures
            final(self).wf(),
            final(self).items == old(self).items,
            final(self).selected == if old(self).selected > 0 {
                old(self).selected - 1
            } else {
                0int
            },
    {
        if self.selected > 0 {
            let i = self.selected - 1;
            self.move_to(i);
        }
    }

    /// Move the cursor down, stopping at the last entry.
    fn select_next(&mut self)
        requires
            old(self).wf(),
        ensures
            final(self).wf(),
            final(self).items == old(self).items,
            final(self).selected == if old(self).selected + 1 < old(self).items@.len() {
                old(self).selected + 1
            } else {
                old(self).selected as int
            },
    {
        if self.selected < self.items.len() - 1 {
            let i = self.selected + 1;
            self.move_to(i);
        }
    }

    /// Handle a key: up and down (or `k` and `j`) move the cursor, Home and
    /// End jump to the first and last entry; whether the key was used.
    pub fn handle_key(&mut self, key: KeyEvent) -> (handled: bool)
        requires
            old(self).wf(),
        ensures
            final(self).wf(),
            final(self).items == old(self).items,
            handled == menu_move(key.code, old(self).selected as nat, old(self).items@.len()) is Some,
            match menu_move(key.code, old(self).selected as nat, old(self).items@.len()) {
                Some(i) => final(self).selected == i,
                None => *final(self) == *old(self),
            },
    {
        match key.code {
            KeyCode::Up | KeyCode::Char('k') => {
                self.select_previous();
                true
            },
            KeyCode::Down | KeyCode::Char('j') => {
                self.select_next();
                true
            },
            KeyCode::Home => {
                self.move_to(0);
                true
            },
            KeyCode::End => {
                let last = self.items.len() - 1;
                self.move_to(last);
                true
            },
            _ => false,
        }
    }

    /// The panel's title.
    pub fn title(&self) -> (r: &'static str)
        ensures
            r@ == "Navigation"@,
    {
        "Navigation"
    }
}

} // verus!
