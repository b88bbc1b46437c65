//! What the dialogs over a query result show: the column lists of the sort
//! and filter dialogs, the filter text input, and the row search bar.
use vstd::prelude::*;
use crate::content::{rows_len, ContentPanel, SortOrder};
use crate::overlays::key_texts;
use crate::strings::{append_str, decimal, push_decimal};

verus! {

broadcast use vstd::std_specs::vec::group_vec_axioms;

/// How an entry of a column list is drawn: under the cursor, marked as the
/// sorted or filtered column, or plain.
#[derive(Debug, Clone, Copy, PartialEq, Eq, Structural)]
pub enum ItemLook {
    Selected,
    Marked,
    Normal,
}

/// An entry of a column list.
pub struct ModalItem {
    pub text: String,
    pub look: ItemLook,
}

/// A dialog listing the result's columns.
pub struct ColumnModal {
    pub title: String,
    pub items: Vec<ModalItem>,
    /// The footer: each key with what it does.
    pub hints: Vec<(&'static str, &'static str)>,
}

/// The dialog in which the filter text is typed.
pub struct FilterInput {
    pub title: String,
    pub lines: Vec<String>,
    /// The footer: each key with what it does.
    pub hints: Vec<(&'static str, &'static str)>,
}

/// The filter dialog at its current step.
pub enum FilterModal {
    Columns(ColumnModal),
    Input(FilterInput),
}

/// The row search bar: its title, the typed text and the match count.
pub struct SearchBarView {
    pub title: String,
    pub input: String,
    pub found: String,
}

/// The marker in front of a list entry.
pub open spec fn item_prefix(selected: bool) -> Seq<char> {
    if selected {
        "► "@
    } else {
        "  "@
    }
}

/// The marker behind the sorted column.
pub open spec fn sort_mark(order: SortOrder) -> Seq<char> {
    match order {
        SortOrder::Ascending => " ↑"@,
        SortOrder::Descending => " ↓"@,
        SortOrder::Unsorted => Seq::empty(),
    }
}

/// Entry `i` of a column list, with the cursor at `selection` and `mark`
/// behind the `marked` column.
pub open spec fn column_item(
    i: nat,
    col: Seq<char>,
    selection: usize,
    marked: Option<usize>,
    mark: Seq<char>,
) -> (Seq<char>, ItemLook) {
    let selected = i == selection;
    let is_marked = marked == Some(i as usize);
    (
        item_prefix(selected) + col + if is_marked {
            mark
        } else {
            Seq::empty()
        },
        if selected {
            ItemLook::Selected
        } else if is_marked {
            ItemLook::Marked
        } else {
            ItemLook::Normal
        },
    )
}

/// All entries of a column list.
pub open spec fn column_items(
    cols: Seq<String>,
    selection: usize,
    marked: Option<usize>,
    mark: Seq<char>,
) -> Seq<(Seq<char>, ItemLook)> {
    Seq::new(cols.len(), |i: int| column_item(i as nat, cols[i]@, selection, marked, mark))
}

/// The texts and looks of list entries.
pub open spec fn items_view(v: Seq<ModalItem>) -> Seq<(Seq<char>, ItemLook)> {
    Seq::new(v.len(), |i: int| (v[i].text@, v[i].look))
}

/// The texts of lines.
pub open spec fn line_texts(v: Seq<String>) -> Seq<Seq<char>> {
    Seq::new(v.len(), |i: int| v[i]@)
}

fn sort_mark_text(order: SortOrder) -> (r: &'static str)
    ensures
        r@ == sort_mark(order),
{
    match order {
        SortOrder::Ascending => " ↑",
        SortOrder::Descending => " ↓",
        SortOrder::Unsorted => {
            proof {
                reveal_strlit("");
            }
            ""
        },
    }
}

fn build_items(cols: &Vec<String>, selection: usize, marked: Option<usize>, mark: &str) -> (r: Vec<
    ModalItem,
>)
    ensures
        items_view(r@) == column_items(cols@, selection, marked, mark@),
{
    let mut out: Vec<ModalItem> = Vec::new();
    let mut i: usize = 0;
    while i < cols.len()
        invariant
            i <= cols@.len(),
            out@.len() == i,
            forall|k: int|
                0 <= k < i ==> (#[trigger] out@[k]).text@ == column_item(
                    k as nat,
                    cols@[k]@,
                    selection,
                    marked,
                    mark@,
                ).0 && out@[k].look == column_item(k as nat, cols@[k]@, selection, marked, mark@).1,
        decreases cols@.len() - i,
    {
        let mut text = String::new();
        let selected = i == selection;
        if selected {
            append_str(&mut text, "► ");
        } else {
            append_str(&mut text, "  ");
        }
        append_str(&mut text, cols[i].as_str());
        let is_marked = match marked {
            Some(m) => m == i,
            None => false,
        };
        if is_marked {
            append_str(&mut text, mark);
        } else {
            assert(text@ + Seq::<char>::empty() =~= text@);
        }
        let look = if selected {
            ItemLook::Selected
        } else if is_marked {
            ItemLook::Marked
        } else {
            ItemLook::Normal
        };
        assert(Seq::<char>::empty() + item_prefix(selected) =~= item_prefix(selected));
        out.push(ModalItem { text, look });
        i = i + 1;
    }
    assert(items_view(out@) =~= column_items(cols@, selection, marked, mark@));
    out
}

impl ContentPanel {
    /// The sort dialog's column list; `None` without a result.
    pub fn sort_modal_view(&self) -> (r: Option<ColumnModal>)
        ensures
            match self.query_result {
                None => r is None,
                Some(q) => r matches Some(m) && m.title@ == " Sort by Column "@ && items_view(
                    m.items@,
                ) == column_items(
                    q.columns@,
                    self.sort_modal_selection,
                    self.sort_column_index,
                    sort_mark(self.sort_order),
                ) && key_texts(m.hints@) == seq![("Enter"@, ": Select  "@), ("Esc"@, ": Cancel"@)],
            },
    {
        match &self.query_result {
            None => None,
            Some(q) => {
                let items = build_items(
                    &q.columns,
                    self.sort_modal_selection,
                    self.sort_column_index,
                    sort_mark_text(self.sort_order),
                );
                let mut hints: Vec<(&'static str, &'static str)> = Vec::new();
                hints.push(("Enter", ": Select  "));
                hints.push(("Esc", ": Cancel"));
                assert(key_texts(hints@) =~= seq![("Enter"@, ": Select  "@), ("Esc"@, ": Cancel"@)]);
                Some(ColumnModal { title: " Sort by Column ".to_string(), items, hints })
            },
        }
    }

    /// The filter dialog: the column list at the first step, the text input
    /// after; `None` without a result.
    pub fn filter_modal_view(&self) -> (r: Option<FilterModal>)
        ensures
            match self.query_result {
                None => r is None,
                Some(q) => if self.filter_modal_step == 0 {
                    r matches Some(FilterModal::Columns(m)) && m.title@ == " Filter by Column "@
                        && items_view(m.items@) == column_items(
                        q.columns@,
                        self.filter_modal_selection,
                        self.filter_column_index,
                        " ⚡"@,
                    ) && key_texts(m.hints@) == seq![("Enter"@, ": Next  "@), ("Esc"@, ": Cancel"@)]
                } else {
                    r matches Some(FilterModal::Input(f)) && f.title@ == " Filter: "@ + (
                    if self.filter_modal_selection < q.columns@.len() {
                        q.columns@[self.filter_modal_selection as int]@
                    } else {
                        "Column"@
                    }) + " "@ && line_texts(f.lines@) == seq![
                        Seq::<char>::empty(),
                        "  Enter filter text (case-insensitive):"@,
                        Seq::<char>::empty(),
                        "  "@ + self.filter_text@ + "_"@,
                    ] && key_texts(f.hints@) == seq![
                        ("Enter"@, ": Apply  "@),
                        ("Esc"@, ": Back  "@),
                        ("Backspace"@, ": Delete"@),
                    ]
                },
            },
    {
        match &self.query_result {
            None => None,
            Some(q) => {
                if self.filter_modal_step == 0 {
                    let items = build_items(
                        &q.columns,
                        self.filter_modal_selection,
                        self.filter_column_index,
                        " ⚡",
                    );
                    let mut hints: Vec<(&'static str, &'static str)> = Vec::new();
                    hints.push(("Enter", ": Next  "));
                    hints.push(("Esc", ": Cancel"));
                    assert(key_texts(hints@) =~= seq![("Enter"@, ": Next  "@), ("Esc"@, ": Cancel"@)]);
                    Some(
                        FilterModal::Columns(
                            ColumnModal { title: " Filter by Column ".to_string(), items, hints },
                        ),
                    )
                } else {
                    let mut title = String::new();
                    append_str(&mut title, " Filter: ");
                    if self.filter_modal_selection < q.columns.len() {
                        append_str(&mut title, q.columns[self.filter_modal_selection].as_str());
                    } else {
                        append_str(&mut title, "Column");
                    }
                    append_str(&mut title, " ");
                    let mut input = String::new();
                    append_str(&mut input, "  ");
                    append_str(&mut input, self.filter_text.as_str());
                    append_str(&mut input, "_");
                    proof {
                        reveal_strlit("");
                    }
                    let mut lines: Vec<String> = Vec::new();
                    lines.push(String::new());
                    lines.push("  Enter filter text (case-insensitive):".to_string());
                    lines.push(String::new());
                    lines.push(input);
                    let mut hints: Vec<(&'static str, &'static str)> = Vec::new();
                    hints.push(("Enter", ": Apply  "));
                    hints.push(("Esc", ": Back  "));
                    hints.push(("Backspace", ": Delete"));
                    assert(Seq::<char>::empty() + " Filter: "@ =~= " Filter: "@);
                    assert(Seq::<char>::empty() + "  "@ =~= "  "@);
                    assert(line_texts(lines@) =~= seq![
                        Seq::<char>::empty(),
                        "  Enter filter text (case-insensitive):"@,
                        Seq::<char>::empty(),
                        "  "@ + self.filter_text@ + "_"@,
                    ]);
                    assert(key_texts(hints@) =~= seq![
                        ("Enter"@, ": Apply  "@),
                        ("Esc"@, ": Back  "@),
                        ("Backspace"@, ": Delete"@),
                    ]);
                    Some(FilterModal::Input(FilterInput { title, lines, hints }))
                }
            },
        }
    }

    /// The row search bar, while the search is typed or its text is kept;
    /// `None` otherwise.
    pub fn result_search_bar_view(&self) -> (r: Option<SearchBarView>)
        requires
            self.wf(),
        ensures
            !self.result_search_active && self.result_search_text@.len() == 0 ==> r is None,
            self.result_search_active || self.result_search_text@.len() > 0 ==> (r matches Some(b)
                && b.title@ == (if self.result_search_active {
                " Search Results (editing) "@
            } else {
                " Search Results "@
            }) && b.input@ == (if self.result_search_active {
                self.result_search_text@ + "_"@
            } else {
                self.result_search_text@
            }) && b.found@ == " Found: "@ + decimal(self.visible_count()) + " / "@ + decimal(
                rows_len(self.query_result),
            ) + " rows"@),
    {
        let typing = self.result_search_active;
        if !typing && self.result_search_text.as_str().is_empty() {
            return None;
        }
        let total: usize = match &self.query_result {
            Some(q) => q.rows.len(),
            None => 0,
        };
        let matched = self.visible_row_count();
        let mut input = String::new();
        append_str(&mut input, self.result_search_text.as_str());
        let title = if typing {
            append_str(&mut input, "_");
            " Search Results (editing) ".to_string()
        } else {
            " Search Results ".to_string()
        };
        let mut found = String::new();
        append_str(&mut found, " Found: ");
        push_decimal(&mut found, matched as u64);
        append_str(&mut found, " / ");
        push_decimal(&mut found, total as u64);
        append_str(&mut found, " rows");
        assert(Seq::<char>::empty() + self.result_search_text@ =~= self.result_search_text@);
        assert(Seq::<char>::empty() + " Found: "@ =~= " Found: "@);
        Some(SearchBarView { title, input, found })
    }
}

} // verus!
