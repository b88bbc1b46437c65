//! State of the small terminal components: the copy menu, the record
//! detail overlay (and what it shows), the status bar, menu items and the
//! help overlay.
use vstd::prelude::*;
use crate::clipboard::CopyFormat;
use crate::strings::{append_str, decimal, push_decimal, repeat_char, push_repeated};
use crate::text::{ellipsis, fitting_prefix, fitting_prefix_len, str_width, unicode_str_width};

verus! {

broadcast use vstd::std_specs::vec::group_vec_axioms;

// === Copy menu ===

/// The formats of the copy menu, top to bottom.
pub open spec fn menu_format(i: nat) -> CopyFormat {
    if i == 0 {
        CopyFormat::Json
    } else if i == 1 {
        CopyFormat::Csv
    } else {
        CopyFormat::Tsv
    }
}

/// Format choice for copying a record.
pub struct CopyMenu {
    /// Highlighted entry: 0 JSON, 1 CSV, 2 TSV.
    pub selected: usize,
    /// Whether CSV and TSV start with a header line.
    pub include_header: bool,
    pub columns: Vec<String>,
    pub values: Vec<String>,
}

impl CopyMenu {
    /// Invariant: the highlighted entry exists.
    pub open spec fn wf(&self) -> bool {
        self.selected < 3
    }

    /// A menu for a record, on JSON, with the header included.
    pub fn new(columns: Vec<String>, values: Vec<String>) -> (r: Self)
        ensures
            r.wf(),
            r.selected == 0,
            r.include_header,
            r.columns == columns,
            r.values == values,
    {
        CopyMenu { selected: 0, include_header: true, columns, values }
    }

    /// Highlight the entry above, stopping at the top.
    pub fn select_up(&mut self)
        requires
            old(self).wf(),
        ensures
            final(self).wf(),
            final(self).selected == if old(self).selected > 0 {
                old(self).selected - 1
            } else {
                0int
            },
            final(self).include_header == old(self).include_header,
            final(self).columns == old(self).columns,
            final(self).values == old(self).values,
    {
        if self.selected > 0 {
            self.selected -= 1;
        }
    }

    /// Highlight the entry below, stopping at the bottom.
    pub fn select_down(&mut self)
        requires
            old(self).wf(),
        ensures
            final(self).wf(),
            final(self).selected == if old(self).selected < 2 {
                old(self).selected + 1
            } else {
                old(self).selected as int
            },
            final(self).include_header == old(self).include_header,
            final(self).columns == old(self).columns,
            final(self).values == old(self).values,
    {
        if self.selected < 2 {
            self.selected += 1;
        }
    }

    /// Switch the header line on or off.
    pub fn toggle_header(&mut self)
        requires
            old(self).wf(),
        ensures
            final(self).wf(),
            final(self).include_header == !old(self).include_header,
            final(self).selected == old(self).selected,
            final(self).columns == old(self).columns,
            final(self).values == old(self).values,
    {
        self.include_header = !self.include_header;
    }

    /// The highlighted format.
    pub fn selected_format(&self) -> (r: CopyFormat)
        requires
            self.wf(),
        ensures
            r == menu_format(self.selected as nat),
    {
        if self.selected == 0 {
            CopyFormat::Json
        } else if self.selected == 1 {
            CopyFormat::Csv
        } else {
            CopyFormat::Tsv
        }
    }

    /// Whether the header line is included.
    pub fn include_header(&self) -> (r: bool)
        ensures
            r == self.include_header,
    {
        self.include_header
    }

    /// The record's columns and values.
    pub fn record_data(&self) -> (r: (&[String], &[String]))
        ensures
            r.0@ == self.columns@,
            r.1@ == self.values@,
    {
        (self.columns.as_slice(), self.values.as_slice())
    }
}

/// A line of the copy menu.
pub enum CopyMenuLine {
    Blank,
    /// The heading above the formats.
    Heading(String),
    /// A format: the cursor marker, the key hint, the label, and whether the
    /// cursor is on it.
    Format(String, String, String, bool),
    /// The header switch: its check box and label.
    HeaderSwitch(String),
    /// The key help at the bottom.
    Keys,
}

/// A copy menu line as a tag (blank 0, heading 1, format 2, header
/// switch 3, key help 4), its texts, and whether it is highlighted.
pub open spec fn copy_line_view(l: CopyMenuLine) -> (nat, Seq<Seq<char>>, bool) {
    match l {
        CopyMenuLine::Blank => (0, Seq::empty(), false),
        CopyMenuLine::Heading(t) => (1, seq![t@], false),
        CopyMenuLine::Format(m, k, t, h) => (2, seq![m@, k@, t@], h),
        CopyMenuLine::HeaderSwitch(t) => (3, seq![t@], false),
        CopyMenuLine::Keys => (4, Seq::empty(), false),
    }
}

/// The copy menu lines, line by line.
pub open spec fn copy_lines_view(v: Seq<CopyMenuLine>) -> Seq<(nat, Seq<Seq<char>>, bool)> {
    Seq::new(v.len(), |i: int| copy_line_view(v[i]))
}

/// The line of format `i` with the cursor at `selected`.
pub open spec fn format_line(i: nat, selected: nat) -> (nat, Seq<Seq<char>>, bool) {
    let f = menu_format(i);
    (
        2,
        seq![
            if i == selected { "  ► "@ } else { "    "@ },
            seq!['[', f.key_spec(), ']', ' '],
            f.label_spec(),
        ],
        i == selected,
    )
}

/// What the copy menu shows with the cursor at `selected` and the header
/// switch at `include_header`.
pub open spec fn copy_menu_spec(selected: nat, include_header: bool) -> Seq<(nat, Seq<Seq<char>>, bool)> {
    seq![
        (0, Seq::empty(), false),
        (1, seq!["  Format:"@], false),
        format_line(0, selected),
        format_line(1, selected),
        format_line(2, selected),
        (0, Seq::empty(), false),
        (3, seq![(if include_header { "[x]"@ } else { "[ ]"@ }) + " Include header"@], false),
        (0, Seq::empty(), false),
        (4, Seq::empty(), false),
    ]
}

impl CopyFormat {
    /// The key that picks the format.
    pub open spec fn key_spec(self) -> char {
        match self {
            CopyFormat::Json => 'j',
            CopyFormat::Csv => 'c',
            CopyFormat::Tsv => 't',
        }
    }

    /// The name shown for the format.
    pub open spec fn label_spec(self) -> Seq<char> {
        match self {
            CopyFormat::Json => "JSON"@,
            CopyFormat::Csv => "CSV"@,
            CopyFormat::Tsv => "TSV"@,
        }
    }
}

impl CopyMenu {
    fn format_entry(&self, i: usize) -> (r: CopyMenuLine)
        requires
            i < 3,
        ensures
            copy_line_view(r) == format_line(i as nat, self.selected as nat),
    {
        let f = if i == 0 {
            CopyFormat::Json
        } else if i == 1 {
            CopyFormat::Csv
        } else {
            CopyFormat::Tsv
        };
        let on = i == self.selected;
        let marker = if on { "  ► ".to_string() } else { "    ".to_string() };
        let mut hint = String::new();
        crate::strings::push_char(&mut hint, '[');
        crate::strings::push_char(&mut hint, f.key());
        crate::strings::push_char(&mut hint, ']');
        crate::strings::push_char(&mut hint, ' ');
        let label = f.label().to_string();
        assert(hint@ =~= seq!['[', f.key_spec(), ']', ' ']);
        CopyMenuLine::Format(marker, hint, label, on)
    }

    /// The lines of the menu: the formats with the cursor, the header
    /// switch and the key help.
    pub fn menu_lines(&self) -> (r: Vec<CopyMenuLine>)
        ensures
            copy_lines_view(r@) == copy_menu_spec(self.selected as nat, self.include_header),
    {
        let mut lines: Vec<CopyMenuLine> = Vec::new();
        lines.push(CopyMenuLine::Blank);
        lines.push(CopyMenuLine::Heading("  Format:".to_string()));
        lines.push(self.format_entry(0));
        lines.push(self.format_entry(1));
        lines.push(self.format_entry(2));
        lines.push(CopyMenuLine::Blank);
        let mut switch = String::new();
        append_str(&mut switch, if self.include_header { "[x]" } else { "[ ]" });
        append_str(&mut switch, " Include header");
        assert(Seq::<char>::empty() + (if self.include_header { "[x]"@ } else { "[ ]"@ }) =~= (
        if self.include_header {
            "[x]"@
        } else {
            "[ ]"@
        }));
        lines.push(CopyMenuLine::HeaderSwitch(switch));
        lines.push(CopyMenuLine::Blank);
        lines.push(CopyMenuLine::Keys);
        assert(copy_lines_view(lines@) =~= copy_menu_spec(self.selected as nat, self.include_header));
        lines
    }
}

// === Record detail ===

/// All fields of one record, with a cursor.
pub struct RecordDetailOverlay {
    pub columns: Vec<String>,
    pub values: Vec<String>,
    /// The field under the cursor.
    pub selected_index: usize,
    /// The first field shown.
    pub scroll_offset: usize,
}

/// One field line of the detail overlay.
pub struct DetailLine {
    pub selected: bool,
    /// The field name, right-aligned to the name column.
    pub label: String,
    /// The value, or `(empty)`, cut to the space left.
    pub value: String,
}

/// What the detail overlay shows.
pub struct DetailLayout {
    pub lines: Vec<DetailLine>,
    /// The position line, e.g. `  Field 2/5`.
    pub info: String,
}

/// Widest display width among the names.
pub open spec fn widest(cols: Seq<String>) -> nat
    decreases cols.len(),
{
    if cols.len() == 0 {
        0
    } else {
        let w = str_width(cols.last()@) as nat;
        let rest = widest(cols.drop_last());
        if w > rest {
            w
        } else {
            rest
        }
    }
}

proof fn lemma_widest(cols: Seq<String>, i: int)
    requires
        0 <= i < cols.len(),
    ensures
        str_width(cols[i]@) <= widest(cols),
    decreases cols.len(),
{
    if i < cols.len() - 1 {
        lemma_widest(cols.drop_last(), i);
    }
}

/// Width of the name column: the widest name, at most 24.
pub open spec fn label_width(cols: Seq<String>) -> nat {
    if widest(cols) < 24 {
        widest(cols)
    } else {
        24
    }
}

/// `s` cut to a display width, followed by `...`.
pub open spec fn cut_to_width(s: Seq<char>, w: nat) -> Seq<char> {
    s.take(fitting_prefix_len(s, w) as int) + ellipsis()
}

/// The name as shown: cut when wider than the column, then right-aligned.
pub open spec fn label_text(col: Seq<char>, mw: nat) -> Seq<char> {
    let shown = if str_width(col) > mw {
        cut_to_width(col, (mw - 3) as nat)
    } else {
        col
    };
    let pad: nat = if mw > str_width(shown) {
        (mw - str_width(shown)) as nat
    } else {
        0
    };
    repeat_char(' ', pad) + shown
}

/// The value as shown in a popup of a width: `(empty)` for an empty value,
/// else cut to what is left beside the name column.
pub open spec fn value_text(val: Seq<char>, popup_width: nat, mw: nat) -> Seq<char> {
    if val.len() == 0 {
        "(empty)"@
    } else {
        let room: nat = if popup_width > mw + 10 {
            (popup_width - mw - 10) as nat
        } else {
            0
        };
        if str_width(val) > room {
            cut_to_width(val, room)
        } else {
            val
        }
    }
}

/// Number of field lines that fit a popup of a height.
pub open spec fn fields_fitting(popup_height: nat) -> nat {
    if popup_height > 9 {
        (popup_height - 8) as nat
    } else {
        1
    }
}

/// The first field shown, moved so that the cursor is visible.
pub open spec fn adjusted_offset(selected: nat, offset: nat, visible: nat) -> nat {
    if selected < offset {
        selected
    } else if selected >= offset + visible {
        (selected - (visible - 1)) as nat
    } else {
        offset
    }
}

/// The position line.
pub open spec fn info_text(selected: nat, offset: nat, end: nat, total: nat, visible: nat) -> Seq<char> {
    if total > 0 {
        "  Field "@ + decimal(selected + 1) + "/"@ + decimal(total) + if total > visible {
            " (scroll "@ + decimal(offset + 1) + "-"@ + decimal(end) + "/"@ + decimal(total)
                + ")"@
        } else {
            Seq::empty()
        }
    } else {
        "  No fields"@
    }
}

fn cut_text(s: &str, w: usize) -> (r: String)
    ensures
        r@ == cut_to_width(s@, w as nat),
{
    let mut r = fitting_prefix(s, w);
    append_str(&mut r, "...");
    proof {
        reveal_strlit("...");
    }
    r
}

impl RecordDetailOverlay {
    /// Invariant: one value per column and the cursor on a field.
    pub open spec fn wf(&self) -> bool {
        &&& self.values@.len() >= self.columns@.len()
        &&& self.columns@.len() < usize::MAX / 2
        &&& (self.selected_index == 0 || self.selected_index < self.columns@.len())
    }

    /// An overlay on the first field.
    pub fn new(columns: Vec<String>, values: Vec<String>) -> (r: Self)
        ensures
            r.columns == columns,
            r.values == values,
            r.selected_index == 0,
            r.scroll_offset == 0,
    {
        RecordDetailOverlay { columns, values, selected_index: 0, scroll_offset: 0 }
    }

    /// Move the cursor up one field.
    pub fn scroll_up(&mut self)
        ensures
            final(self).selected_index == if old(self).selected_index > 0 {
                old(self).selected_index - 1
            } else {
                0int
            },
            final(self).scroll_offset == old(self).scroll_offset,
            final(self).columns == old(self).columns,
            final(self).values == old(self).values,
    {
        if self.selected_index > 0 {
            self.selected_index -= 1;
        }
    }

    /// Move the cursor down one field, stopping at the last.
    pub fn scroll_down(&mut self)
        ensures
            final(self).selected_index == if old(self).selected_index + 1 < old(self).columns@.len() {
                old(self).selected_index + 1
            } else {
                old(self).selected_index as int
            },
            final(self).scroll_offset == old(self).scroll_offset,
            final(self).columns == old(self).columns,
            final(self).values == old(self).values,
    {
        let max_index = self.columns.len().saturating_sub(1);
        if self.selected_index < max_index {
            self.selected_index += 1;
        }
    }

    /// The lines shown in a popup of the given size; the first field shown
    /// moves so that the cursor stays visible.
    pub fn layout(&mut self, popup_width: u16, popup_height: u16) -> (r: DetailLayout)
        requires
            old(self).wf(),
        ensures
            final(self).wf(),
            final(self).columns == old(self).columns,
            final(self).values == old(self).values,
            final(self).selected_index == old(self).selected_index,
            final(self).scroll_offset == adjusted_offset(
                old(self).selected_index as nat,
                old(self).scroll_offset as nat,
                fields_fitting(popup_height as nat),
            ),
            ({
                let off = final(self).scroll_offset as nat;
                let vis = fields_fitting(popup_height as nat);
                let n = old(self).columns@.len();
                let end: nat = if off + vis < n { (off + vis) as nat } else { n };
                let mw = label_width(old(self).columns@);
                &&& r.lines@.len() == if end > off { end - off } else { 0 }
                &&& forall|k: int|
                    0 <= k < r.lines@.len() ==> {
                        let i = off + k;
                        &&& (#[trigger] r.lines@[k]).selected == (i == old(self).selected_index)
                        &&& r.lines@[k].label@ == label_text(old(self).columns@[i]@, mw)
                        &&& r.lines@[k].value@ == value_text(
                            old(self).values@[i]@,
                            popup_width as nat,
                            mw,
                        )
                    }
                &&& r.info@ == info_text(
                    old(self).selected_index as nat,
                    off,
                    end,
                    n,
                    vis,
                )
            }),
    {
        let content_height = popup_height.saturating_sub(8) as usize;
        let visible_fields = if content_height > 1 { content_height } else { 1 };
        if self.selected_index < self.scroll_offset {
            self.scroll_offset = self.selected_index;
        } else if self.selected_index as u128 >= self.scroll_offset as u128 + visible_fields as u128 {
            self.scroll_offset = self.selected_index - (visible_fields - 1);
        }
        let mw = self.label_column_width();
        let n = self.columns.len();
        let end = if (self.scroll_offset as u128) + (visible_fields as u128) < n as u128 {
            self.scroll_offset + visible_fields
        } else {
            n
        };
        let mut lines: Vec<DetailLine> = Vec::new();
        let mut i = self.scroll_offset;
        let ghost off = self.scroll_offset as nat;
        while i < end
            invariant
                self.wf(),
                n == self.columns@.len(),
                end <= n,
                off == self.scroll_offset,
                off <= i <= end,
                mw == label_width(self.columns@),
                mw <= 24,
                lines@.len() == i - off,
                forall|k: int|
                    0 <= k < lines@.len() ==> {
                        let j = off + k;
                        &&& (#[trigger] lines@[k]).selected == (j == self.selected_index)
                        &&& lines@[k].label@ == label_text(self.columns@[j]@, mw as nat)
                        &&& lines@[k].value@ == value_text(
                            self.values@[j]@,
                            popup_width as nat,
                            mw as nat,
                        )
                    },
            decreases end - i,
        {
            proof {
                lemma_widest(self.columns@, i as int);
            }
            let label = label_line(self.columns[i].as_str(), mw);
            let value = value_line(self.values[i].as_str(), popup_width, mw);
            lines.push(DetailLine { selected: i == self.selected_index, label, value });
            i = i + 1;
        }
        let info = info_line(self.selected_index, self.scroll_offset, end, n, visible_fields);
        DetailLayout { lines, info }
    }

    fn label_column_width(&self) -> (r: usize)
        ensures
            r == label_width(self.columns@),
            r <= 24,
    {
        let mut widest_so_far: usize = 0;
        let mut i: usize = 0;
        while i < self.columns.len()
            invariant
                0 <= i <= self.columns@.len(),
                widest_so_far == widest(self.columns@.take(i as int)),
            decreases self.columns@.len() - i,
        {
            assert(self.columns@.take(i + 1).drop_last() =~= self.columns@.take(i as int));
            let w = unicode_str_width(self.columns[i].as_str());
            if w > widest_so_far {
                widest_so_far = w;
            }
            i = i + 1;
        }
        assert(self.columns@.take(self.columns@.len() as int) =~= self.columns@);
        if widest_so_far < 24 {
            widest_so_far
        } else {
            24
        }
    }
}

fn label_line(col: &str, mw: usize) -> (r: String)
    requires
        mw <= 24,
        str_width(col@) > mw ==> mw >= 3,
    ensures
        r@ == label_text(col@, mw as nat),
{
    let shown = if unicode_str_width(col) > mw {
        cut_text(col, mw - 3)
    } else {
        col.to_string()
    };
    let sw = unicode_str_width(shown.as_str());
    let pad = mw.saturating_sub(sw);
    let mut out = String::new();
    push_repeated(&mut out, ' ', pad);
    append_str(&mut out, shown.as_str());
    out
}

fn value_line(val: &str, popup_width: u16, mw: usize) -> (r: String)
    requires
        mw <= 24,
    ensures
        r@ == value_text(val@, popup_width as nat, mw as nat),
{
    if val.is_empty() {
        proof {
            reveal_strlit("(empty)");
        }
        return "(empty)".to_string();
    }
    let room = popup_width.saturating_sub(mw as u16 + 10) as usize;
    if unicode_str_width(val) > room {
        cut_text(val, room)
    } else {
        val.to_string()
    }
}

fn info_line(selected: usize, offset: usize, end: usize, total: usize, visible: usize) -> (r: String)
    requires
        selected < usize::MAX / 2,
        offset < usize::MAX / 2,
    ensures
        r@ == info_text(selected as nat, offset as nat, end as nat, total as nat, visible as nat),
{
    proof {
        reveal_strlit("  Field ");
        reveal_strlit("/");
        reveal_strlit(" (scroll ");
        reveal_strlit("-");
        reveal_strlit(")");
        reveal_strlit("  No fields");
    }
    if total == 0 {
        return "  No fields".to_string();
    }
    let mut out = String::new();
    append_str(&mut out, "  Field ");
    push_decimal(&mut out, (selected + 1) as u64);
    append_str(&mut out, "/");
    push_decimal(&mut out, total as u64);
    if total > visible {
        append_str(&mut out, " (scroll ");
        push_decimal(&mut out, (offset + 1) as u64);
        append_str(&mut out, "-");
        push_decimal(&mut out, end as u64);
        append_str(&mut out, "/");
        push_decimal(&mut out, total as u64);
        append_str(&mut out, ")");
    }
    out
}

// === Status bar ===

/// A key and what it does, as the status bar lists it.
#[derive(Debug, Clone)]
pub struct KeyBinding {
    pub key: &'static str,
    pub action: &'static str,
}

impl KeyBinding {
    /// A binding.
    pub fn new(key: &'static str, action: &'static str) -> (r: Self)
        ensures
            r.key == key && r.action == action,
    {
        KeyBinding { key, action }
    }
}

/// The bottom line: key bindings, the selection count and a message.
pub struct StatusBar {
    pub message: String,
    pub bindings: Vec<KeyBinding>,
    pub selection_count: usize,
}

impl StatusBar {
    /// The status bar with the standard bindings, no message, nothing selected.
    pub fn new() -> (r: Self)
        ensures
            r.message@.len() == 0,
            r.selection_count == 0,
            r.bindings@.len() == 7,
            r.bindings@[0].key@ == "1/2/3"@ && r.bindings@[0].action@ == "Tab"@,
            r.bindings@[1].key@ == "↑↓"@ && r.bindings@[1].action@ == "Nav"@,
            r.bindings@[2].key@ == "←→"@ && r.bindings@[2].action@ == "Scroll"@,
            r.bindings@[3].key@ == "n/p"@ && r.bindings@[3].action@ == "Page"@,
            r.bindings@[4].key@ == "Enter"@ && r.bindings@[4].action@ == "Run"@,
            r.bindings@[5].key@ == "?"@ && r.bindings@[5].action@ == "Help"@,
            r.bindings@[6].key@ == "q"@ && r.bindings@[6].action@ == "Quit"@,
    {
        let mut bindings: Vec<KeyBinding> = Vec::new();
        bindings.push(KeyBinding::new("1/2/3", "Tab"));
        bindings.push(KeyBinding::new("↑↓", "Nav"));
        bindings.push(KeyBinding::new("←→", "Scroll"));
        bindings.push(KeyBinding::new("n/p", "Page"));
        bindings.push(KeyBinding::new("Enter", "Run"));
        bindings.push(KeyBinding::new("?", "Help"));
        bindings.push(KeyBinding::new("q", "Quit"));
        StatusBar { message: String::new(), bindings, selection_count: 0 }
    }

    /// Show a message.
    pub fn set_message(&mut self, message: String)
        ensures
            final(self).message == message,
            final(self).bindings == old(self).bindings,
            final(self).selection_count == old(self).selection_count,
    {
        self.message = message;
    }

    /// Show how many rows are selected.
    pub fn set_selection_count(&mut self, count: usize)
        ensures
            final(self).selection_count == count,
            final(self).message == old(self).message,
            final(self).bindings == old(self).bindings,
    {
        self.selection_count = count;
    }
}

/// How a piece of the status bar is drawn.
#[derive(Debug, Clone, Copy, PartialEq, Eq, Structural)]
pub enum StatusTone {
    Separator,
    Key,
    Plain,
    Count,
    Message,
}

/// A piece of the status bar.
pub struct StatusSpan {
    pub text: String,
    pub tone: StatusTone,
}

/// The texts and tones of status bar pieces.
pub open spec fn status_view(v: Seq<StatusSpan>) -> Seq<(Seq<char>, StatusTone)> {
    Seq::new(v.len(), |i: int| (v[i].text@, v[i].tone))
}

/// The pieces for the key bindings: each key padded by a space on both
/// sides and its action, with separators between bindings.
pub open spec fn binding_spans(b: Seq<KeyBinding>) -> Seq<(Seq<char>, StatusTone)>
    decreases b.len(),
{
    if b.len() == 0 {
        Seq::empty()
    } else {
        binding_spans(b.drop_last()) + (if b.len() > 1 {
            seq![(" │ "@, StatusTone::Separator)]
        } else {
            Seq::empty()
        }) + seq![(" "@ + b.last().key@ + " "@, StatusTone::Key), (b.last().action@, StatusTone::Plain)]
    }
}

/// Everything the status bar shows: the bindings, then the selection
/// count when rows are selected, then the message when there is one.
pub open spec fn status_spans_of(bindings: Seq<KeyBinding>, count: nat, message: Seq<char>) -> Seq<
    (Seq<char>, StatusTone),
> {
    binding_spans(bindings) + (if count > 0 {
        seq![
            (" │ "@, StatusTone::Separator),
            (" "@ + decimal(count) + " selected "@, StatusTone::Count),
        ]
    } else {
        Seq::empty()
    }) + (if message.len() > 0 {
        seq![(" │ "@, StatusTone::Separator), (message, StatusTone::Message)]
    } else {
        Seq::empty()
    })
}

fn push_span(spans: &mut Vec<StatusSpan>, text: String, tone: StatusTone)
    ensures
        status_view(final(spans)@) == status_view(old(spans)@).push((text@, tone)),
{
    spans.push(StatusSpan { text, tone });
    assert(status_view(spans@) =~= status_view(old(spans)@).push((text@, tone)));
}

impl StatusBar {
    /// The pieces the status bar shows, left to right.
    pub fn spans(&self) -> (r: Vec<StatusSpan>)
        ensures
            status_view(r@) == status_spans_of(
                self.bindings@,
                self.selection_count as nat,
                self.message@,
            ),
    {
        let mut spans: Vec<StatusSpan> = Vec::new();
        let mut i: usize = 0;
        assert(self.bindings@.take(0) =~= Seq::<KeyBinding>::empty());
        assert(status_view(spans@) =~= Seq::<(Seq<char>, StatusTone)>::empty());
        while i < self.bindings.len()
            invariant
                i <= self.bindings@.len(),
                status_view(spans@) == binding_spans(self.bindings@.take(i as int)),
            decreases self.bindings@.len() - i,
        {
            let ghost before = status_view(spans@);
            assert(self.bindings@.take(i + 1).drop_last() =~= self.bindings@.take(i as int));
            assert(self.bindings@.take(i + 1).last() == self.bindings@[i as int]);
            if i > 0 {
                push_span(&mut spans, " │ ".to_string(), StatusTone::Separator);
            }
            let b = &self.bindings[i];
            let mut key = String::new();
            append_str(&mut key, " ");
            append_str(&mut key, b.key);
            append_str(&mut key, " ");
            assert(Seq::<char>::empty() + " "@ =~= " "@);
            push_span(&mut spans, key, StatusTone::Key);
            push_span(&mut spans, b.action.to_string(), StatusTone::Plain);
            if i > 0 {
                assert(status_view(spans@) =~= before + seq![(" │ "@, StatusTone::Separator)] + seq![
                    (" "@ + b.key@ + " "@, StatusTone::Key),
                    (b.action@, StatusTone::Plain),
                ]);
            } else {
                assert(status_view(spans@) =~= before + Seq::<(Seq<char>, StatusTone)>::empty()
                    + seq![(" "@ + b.key@ + " "@, StatusTone::Key), (b.action@, StatusTone::Plain)]);
            }
            i = i + 1;
        }
        assert(self.bindings@.take(self.bindings@.len() as int) =~= self.bindings@);
        let ghost after_bindings = status_view(spans@);
        if self.selection_count > 0 {
            push_span(&mut spans, " │ ".to_string(), StatusTone::Separator);
            let mut count = String::new();
            append_str(&mut count, " ");
            push_decimal(&mut count, self.selection_count as u64);
            append_str(&mut count, " selected ");
            assert(Seq::<char>::empty() + " "@ =~= " "@);
            push_span(&mut spans, count, StatusTone::Count);
        }
        let ghost after_count = status_view(spans@);
        if !self.message.as_str().is_empty() {
            push_span(&mut spans, " │ ".to_string(), StatusTone::Separator);
            push_span(&mut spans, self.message.clone(), StatusTone::Message);
        }
        assert(status_view(spans@) =~= status_spans_of(
            self.bindings@,
            self.selection_count as nat,
            self.message@,
        ));
        spans
    }
}

// === Navigation menu ===

/// An entry of the navigation menu.
#[derive(Debug, Clone)]
pub struct MenuItem {
    pub label: String,
    pub icon: &'static str,
}

impl MenuItem {
    /// A menu entry.
    pub fn new(label: String, icon: &'static str) -> (r: Self)
        ensures
            r.label == label && r.icon == icon,
    {
        MenuItem { label, icon }
    }
}

// === Help ===

/// The help overlay, listing the key bindings.
pub struct HelpOverlay;

/// The texts of key and description pairs.
pub open spec fn key_texts(v: Seq<(&'static str, &'static str)>) -> Seq<(Seq<char>, Seq<char>)> {
    v.map_values(|p: (&'static str, &'static str)| (p.0@, p.1@))
}

impl HelpOverlay {
    /// Keys that work everywhere, with what they do.
    pub fn global_keys() -> (r: Vec<(&'static str, &'static str)>)
        ensures
            key_texts(r@) == seq![
                ("q / Esc"@, "Quit application"@),
                ("Tab"@, "Switch between panels"@),
                ("Shift+Tab"@, "Switch panels (reverse)"@),
                ("r"@, "Refresh data"@),
                ("?"@, "Toggle help"@),
            ],
    {
        let mut v: Vec<(&'static str, &'static str)> = Vec::new();
        v.push(("q / Esc", "Quit application"));
        v.push(("Tab", "Switch between panels"));
        v.push(("Shift+Tab", "Switch panels (reverse)"));
        v.push(("r", "Refresh data"));
        v.push(("?", "Toggle help"));
        assert(key_texts(v@) =~= seq![
            ("q / Esc"@, "Quit application"@),
            ("Tab"@, "Switch between panels"@),
            ("Shift+Tab"@, "Switch panels (reverse)"@),
            ("r"@, "Refresh data"@),
            ("?"@, "Toggle help"@),
        ]);
        v
    }

    /// Keys that move in lists, with what they do.
    pub fn navigation_keys() -> (r: Vec<(&'static str, &'static str)>)
        ensures
            key_texts(r@) == seq![
                ("↑ / k"@, "Move up"@),
                ("↓ / j"@, "Move down"@),
                ("Home / g"@, "Go to first item"@),
                ("End / G"@, "Go to last item"@),
                ("Enter"@, "Select item"@),
            ],
    {
        let mut v: Vec<(&'static str, &'static str)> = Vec::new();
        v.push(("↑ / k", "Move up"));
        v.push(("↓ / j", "Move down"));
        v.push(("Home / g", "Go to first item"));
        v.push(("End / G", "Go to last item"));
        v.push(("Enter", "Select item"));
        assert(key_texts(v@) =~= seq![
            ("↑ / k"@, "Move up"@),
            ("↓ / j"@, "Move down"@),
            ("Home / g"@, "Go to first item"@),
            ("End / G"@, "Go to last item"@),
            ("Enter"@, "Select item"@),
        ]);
        v
    }
}

/// A line of the help overlay.
pub enum HelpLine {
    Blank,
    /// A section heading.
    Heading(String),
    /// The rule under a heading.
    Rule(String),
    /// The indent, the key padded to its column, and what the key does.
    Binding(String, String, String),
    /// The closing hint.
    Hint(String),
}

/// The texts of a help line, span by span.
pub open spec fn help_line_texts(l: HelpLine) -> Seq<Seq<char>> {
    match l {
        HelpLine::Blank => Seq::empty(),
        HelpLine::Heading(t) => seq![t@],
        HelpLine::Rule(t) => seq![t@],
        HelpLine::Binding(i, k, a) => seq![i@, k@, a@],
        HelpLine::Hint(t) => seq![t@],
    }
}

/// `s` padded with spaces on the right to `w` characters.
pub open spec fn pad_right(s: Seq<char>, w: nat) -> Seq<char> {
    if s.len() < w {
        s + repeat_char(' ', (w - s.len()) as nat)
    } else {
        s
    }
}

/// The spans of a key binding line.
pub open spec fn binding_texts(key: Seq<char>, action: Seq<char>) -> Seq<Seq<char>> {
    seq!["    "@, pad_right(key, 14), action]
}

/// The rule under each heading.
pub open spec fn help_rule() -> Seq<char> {
    "  ──────────────────────────────────"@
}

/// The spans of the lines of a section: heading, rule, one line per key.
pub open spec fn section_texts(title: Seq<char>, keys: Seq<(Seq<char>, Seq<char>)>) -> Seq<Seq<Seq<char>>> {
    seq![seq![title], seq![help_rule()]] + bindings_texts(keys, keys.len())
}

/// The spans of the first `n` key binding lines.
pub open spec fn bindings_texts(keys: Seq<(Seq<char>, Seq<char>)>, n: nat) -> Seq<Seq<Seq<char>>> {
    Seq::new(n, |i: int| binding_texts(keys[i].0, keys[i].1))
}

/// The spans of every line of the help overlay.
pub open spec fn help_texts() -> Seq<Seq<Seq<char>>> {
    seq![Seq::<Seq<char>>::empty()] + section_texts("  Global"@, global_key_texts()) + seq![
        Seq::<Seq<char>>::empty(),
    ] + section_texts("  Navigation"@, navigation_key_texts()) + seq![
        Seq::<Seq<char>>::empty(),
        seq!["  Press ? or Esc to close"@],
    ]
}

/// The keys that work everywhere, as texts.
pub open spec fn global_key_texts() -> Seq<(Seq<char>, Seq<char>)> {
    seq![
        ("q / Esc"@, "Quit application"@),
        ("Tab"@, "Switch between panels"@),
        ("Shift+Tab"@, "Switch panels (reverse)"@),
        ("r"@, "Refresh data"@),
        ("?"@, "Toggle help"@),
    ]
}

/// The keys that move in lists, as texts.
pub open spec fn navigation_key_texts() -> Seq<(Seq<char>, Seq<char>)> {
    seq![
        ("↑ / k"@, "Move up"@),
        ("↓ / j"@, "Move down"@),
        ("Home / g"@, "Go to first item"@),
        ("End / G"@, "Go to last item"@),
        ("Enter"@, "Select item"@),
    ]
}

/// The spans of lines, line by line.
pub open spec fn help_lines_texts(v: Seq<HelpLine>) -> Seq<Seq<Seq<char>>> {
    Seq::new(v.len(), |i: int| help_line_texts(v[i]))
}

impl HelpOverlay {
    /// A key binding line: the key padded to fourteen characters, then
    /// what it does.
    pub fn format_keybinding(key: &str, action: &str) -> (r: HelpLine)
        ensures
            help_line_texts(r) == binding_texts(key@, action@),
    {
        let n = crate::strings::chars_of(key).len();
        let mut padded = String::new();
        append_str(&mut padded, key);
        if n < 14 {
            push_repeated(&mut padded, ' ', 14 - n);
        }
        assert(Seq::<char>::empty() + key@ =~= key@);
        HelpLine::Binding("    ".to_string(), padded, action.to_string())
    }

    fn push_section(
        lines: &mut Vec<HelpLine>,
        title: &str,
        keys: &Vec<(&'static str, &'static str)>,
    )
        ensures
            help_lines_texts(final(lines)@) == help_lines_texts(old(lines)@) + section_texts(
                title@,
                key_texts(keys@),
            ),
    {
        let ghost kt = key_texts(keys@);
        let ghost head = help_lines_texts(old(lines)@) + seq![seq![title@], seq![help_rule()]];
        lines.push(HelpLine::Heading(title.to_string()));
        lines.push(HelpLine::Rule("  ──────────────────────────────────".to_string()));
        assert(help_lines_texts(lines@) =~= head + bindings_texts(kt, 0));
        let mut i: usize = 0;
        while i < keys.len()
            invariant
                i <= keys@.len(),
                kt == key_texts(keys@),
                help_lines_texts(lines@) == head + bindings_texts(kt, i as nat),
            decreases keys@.len() - i,
        {
            let (k, a) = keys[i];
            let line = Self::format_keybinding(k, a);
            let ghost before = lines@;
            lines.push(line);
            assert(kt[i as int] == (k@, a@));
            assert(help_lines_texts(lines@) =~= help_lines_texts(before).push(help_line_texts(line)));
            assert(bindings_texts(kt, (i + 1) as nat) =~= bindings_texts(kt, i as nat).push(
                binding_texts(k@, a@),
            ));
            assert(help_lines_texts(lines@) =~= head + bindings_texts(kt, (i + 1) as nat));
            i = i + 1;
        }
        assert(head + bindings_texts(kt, kt.len()) =~= help_lines_texts(old(lines)@) + section_texts(
            title@,
            kt,
        ));
    }

    /// The lines of the help overlay: the global keys, the navigation keys
    /// and how to close it.
    pub fn help_lines() -> (r: Vec<HelpLine>)
        ensures
            help_lines_texts(r@) == help_texts(),
    {
        let mut lines: Vec<HelpLine> = Vec::new();
        lines.push(HelpLine::Blank);
        assert(help_lines_texts(lines@) =~= seq![Seq::<Seq<char>>::empty()]);
        let global = Self::global_keys();
        Self::push_section(&mut lines, "  Global", &global);
        let ghost g = lines@;
        lines.push(HelpLine::Blank);
        assert(help_lines_texts(lines@) =~= help_lines_texts(g).push(Seq::empty()));
        let navigation = Self::navigation_keys();
        Self::push_section(&mut lines, "  Navigation", &navigation);
        let ghost n = lines@;
        lines.push(HelpLine::Blank);
        lines.push(HelpLine::Hint("  Press ? or Esc to close".to_string()));
        assert(help_lines_texts(lines@) =~= help_lines_texts(n) + seq![
            Seq::<Seq<char>>::empty(),
            seq!["  Press ? or Esc to close"@],
        ]);
        assert(help_lines_texts(lines@) =~= help_texts());
        lines
    }
}

} // verus!
