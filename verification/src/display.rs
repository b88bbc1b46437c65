//! Text tables of questions and query results for the terminal, and the
//! headers printed above them.
use vstd::prelude::*;
use crate::error::AppError;
use crate::models::{JsonValue, QueryResult, Question};
use crate::strings::{append_str, decimal, push_decimal, push_repeated, repeat_char, utf8_len, utf8_len_wide, chars_of, contains_chars, contains_seq};
use crate::text::{truncate_text, truncate_unicode_spec};
use comfy_table::presets::UTF8_FULL;
use comfy_table::Attribute::{Bold, Italic};
use comfy_table::ContentArrangement::Dynamic;
use comfy_table::{Cell, Color, Table};
use self::CellColor::{Cyan, DarkGrey, Green};

verus! {

broadcast use vstd::std_specs::vec::group_vec_axioms;

/// Colors used in tables.
#[derive(Debug, Clone, Copy, PartialEq, Eq, Structural)]
pub enum CellColor {
    Cyan,
    Green,
    DarkGrey,
}

/// A table cell: text, color and attributes.
#[derive(Debug, Clone)]
pub struct StyledCell {
    pub text: String,
    pub color: Option<CellColor>,
    pub bold: bool,
    pub italic: bool,
}

/// The plain view of a cell.
pub open spec fn cell_view(c: StyledCell) -> (Seq<char>, Option<CellColor>, bool, bool) {
    (c.text@, c.color, c.bold, c.italic)
}

/// The plain view of a row of cells.
pub open spec fn row_view(r: Seq<StyledCell>) -> Seq<(Seq<char>, Option<CellColor>, bool, bool)> {
    r.map_values(|c: StyledCell| cell_view(c))
}

/// The plain view of rows of cells.
pub open spec fn rows_view(rs: Seq<Vec<StyledCell>>) -> Seq<Seq<(Seq<char>, Option<CellColor>, bool, bool)>> {
    rs.map_values(|r: Vec<StyledCell>| row_view(r@))
}

/// The text comfy-table draws, without cell styles, for a table with
/// dynamic content arrangement: the full UTF-8 style or the default ASCII
/// style, an optional total width, a header row and body rows.
pub uninterp spec fn table_text(
    utf8_style: bool,
    width: Option<u16>,
    header: Seq<(Seq<char>, Option<CellColor>, bool, bool)>,
    rows: Seq<Seq<(Seq<char>, Option<CellColor>, bool, bool)>>,
) -> Seq<char>;

/// Draws a table with comfy-table (`Table::new`, `force_no_tty`, then
/// `enforce_styling` when `styled`, `load_style`,
/// `set_content_arrangement(Dynamic)`, `set_width`, `set_header`,
/// `add_row`, `to_string`). With the terminal check switched off and no
/// styles written, the text depends on these arguments alone and is named
/// `table_text` of them. Styled text is not stated: crossterm leaves out the
/// colors when the environment sets `NO_COLOR`.
#[verifier::external_body]
fn draw_table(utf8: bool, styled: bool, width: Option<u16>, header: &Vec<StyledCell>, rows: &Vec<Vec<StyledCell>>) -> (r: String)
    ensures
        !styled ==> r@ == table_text(utf8, width, row_view(header@), rows_view(rows@)),
{
    let cell = |c: &StyledCell| { let mut x = Cell::new(&c.text); if c.bold { x = x.add_attribute(Bold); }
        if let Some(k) = c.color { x = x.fg(match k { Cyan => Color::Cyan, Green => Color::Green, DarkGrey => Color::DarkGrey }); }
        if c.italic { x = x.add_attribute(Italic); } x };
    let mut t = Table::new();
    t.force_no_tty();
    if styled { t.enforce_styling(); }
    if utf8 { t.load_style(UTF8_FULL); }
    t.set_content_arrangement(Dynamic);
    width.map(|w| t.set_width(w));
    t.set_header(header.iter().map(cell));
    for row in rows { t.add_row(row.iter().map(cell)); }
    t.to_string()
}

/// The terminal's size in columns and rows (`crossterm::terminal::size`),
/// `None` when it cannot be read. It depends on the terminal; nothing is
/// stated of it.
#[verifier::external_body]
fn terminal_size() -> (r: Option<(u16, u16)>) {
    crossterm::terminal::size().ok()
}

/// The system clock as `{:?}` prints `SystemTime::now()`. It depends on the
/// clock; nothing is stated of it.
#[verifier::external_body]
fn now_debug_text() -> (r: String) {
    format!("{:?}", std::time::SystemTime::now())
}

/// Heading of a question's results.
pub struct QuestionHeaderParams<'a> {
    pub question_id: u32,
    pub question_name: &'a str,
    pub total_records: usize,
    pub current_page: Option<usize>,
    pub total_pages: Option<usize>,
    pub start_row: Option<usize>,
    pub end_row: Option<usize>,
}

/// Paging shown in a header.
#[derive(Debug, Clone)]
pub struct PaginationInfo {
    pub current_page: usize,
    pub total_pages: usize,
    pub page_size: usize,
}

/// What a result header shows.
#[derive(Debug, Clone)]
pub struct TableHeaderInfo {
    pub data_source: String,
    pub source_id: Option<u32>,
    pub total_records: usize,
    pub start_position: usize,
    pub end_position: usize,
    pub offset: Option<usize>,
    pub is_filtered: bool,
    pub pagination_info: Option<PaginationInfo>,
}

/// Column widths of the question table.
#[derive(Debug, Clone, Copy, PartialEq, Eq, Structural)]
pub struct ColumnWidths {
    pub name: usize,
    pub collection: usize,
    pub description: usize,
}

/// Column widths for a terminal width.
pub open spec fn widths_for(w: nat) -> ColumnWidths {
    if w < 60 {
        ColumnWidths { name: 10, collection: 6, description: 15 }
    } else if w < 80 {
        ColumnWidths { name: 15, collection: 8, description: 20 }
    } else if w < 120 {
        ColumnWidths { name: 25, collection: 12, description: 25 }
    } else {
        ColumnWidths { name: 40, collection: 20, description: 35 }
    }
}

/// Width given to a UTF-8 table: six less than a width over 20, else at
/// least 40; 80 when unknown (as a 16-bit number).
pub open spec fn table_width(max_width: Option<usize>) -> u16 {
    match max_width {
        Some(w) => if w > 20 {
            ((w - 6) as usize) as u16
        } else if w < 40 {
            40u16
        } else {
            w as u16
        },
        None => 80u16,
    }
}

/// Where a question belongs: its collection's name, else `ID: n`, else `Root`.
pub open spec fn collection_label(q: Question) -> Seq<char> {
    match q.collection {
        Some(c) => c.name@,
        None => match q.collection_id {
            Some(id) => "ID: "@ + decimal(id as nat),
            None => "Root"@,
        },
    }
}

/// A cell with a color when colors are on.
pub open spec fn tinted(text: Seq<char>, color: CellColor, colors: bool) -> (Seq<char>, Option<CellColor>, bool, bool) {
    (text, if colors { Some(color) } else { None }, false, false)
}

/// A bold header cell, colored when colors are on.
pub open spec fn heading(text: Seq<char>, color: CellColor, colors: bool) -> (Seq<char>, Option<CellColor>, bool, bool) {
    (text, if colors { Some(color) } else { None }, true, false)
}

/// A plain cell.
pub open spec fn plain(text: Seq<char>) -> (Seq<char>, Option<CellColor>, bool, bool) {
    (text, None, false, false)
}

/// The header row of the question table.
pub open spec fn question_headers(colors: bool) -> Seq<(Seq<char>, Option<CellColor>, bool, bool)> {
    seq![
        heading("ID"@, CellColor::Cyan, colors),
        heading("Name"@, CellColor::Cyan, colors),
        heading("Collection"@, CellColor::Cyan, colors),
        heading("Description"@, CellColor::Cyan, colors),
    ]
}

/// The row of a question.
pub open spec fn question_row(q: Question, w: ColumnWidths, colors: bool) -> Seq<(Seq<char>, Option<CellColor>, bool, bool)> {
    seq![
        tinted(decimal(q.id as nat), CellColor::Cyan, colors),
        plain(truncate_unicode_spec(q.name@, w.name as nat)),
        plain(truncate_unicode_spec(collection_label(q), w.collection as nat)),
        tinted(
            truncate_unicode_spec(
                match q.description {
                    Some(d) => d@,
                    None => "N/A"@,
                },
                w.description as nat,
            ),
            CellColor::DarkGrey,
            colors,
        ),
    ]
}

/// The text of a result cell: `-` for null, strings (cut to 100 columns
/// when longer than 100 bytes), numbers and booleans as JSON writes them,
/// and the size of non-empty arrays and objects.
pub open spec fn cell_text_of(v: JsonValue) -> Seq<char> {
    match v {
        JsonValue::Null => "-"@,
        JsonValue::String(s) => if utf8_len(s@) > 100 {
            truncate_unicode_spec(s@, 100)
        } else {
            s@
        },
        JsonValue::Number(n) => n@,
        JsonValue::Bool(b) => if b {
            "true"@
        } else {
            "false"@
        },
        JsonValue::Array(xs) => if xs@.len() == 0 {
            "[]"@
        } else {
            "["@ + decimal(xs@.len()) + " items]"@
        },
        JsonValue::Object(kvs) => if kvs@.len() == 0 {
            "{}"@
        } else {
            "{"@ + decimal(kvs@.len()) + " items}"@
        },
    }
}

/// The header text of a question's results, given the clock text.
pub open spec fn question_header_text(p: QuestionHeaderParams, clock: Seq<char>) -> Seq<char> {
    "🚀 Question #"@ + decimal(p.question_id as nat) + ": "@ + p.question_name@ + "\n"@ + match (
        p.current_page,
        p.total_pages,
        p.start_row,
        p.end_row,
    ) {
        (Some(c), Some(t), Some(s), Some(e)) => "📊 Question execution result: "@ + decimal(
            p.total_records as nat,
        ) + " total | Page "@ + decimal((c + 1) as nat) + "/"@ + decimal(t as nat) + " ("@ + decimal((s + 1) as nat)
            + "-"@ + decimal(e as nat) + " / "@ + decimal(p.total_records as nat) + " records)\n"@,
        _ => "📊 Question execution result: "@ + decimal(p.total_records as nat) + " total records\n"@,
    } + "⏰ Execution time: "@ + clock + " | 💡 Tips: --format json/csv\n"@
        + "──────────────────────────────────────────────────────────\n"@
}

/// The label of a data source: `Question` when its name contains
/// "Question", else `Data`.
pub open spec fn source_label(source: Seq<char>) -> Seq<char> {
    if contains_seq(source, "Question"@) {
        "Question"@
    } else {
        "Data"@
    }
}

/// The first line of the comprehensive header: the source.
pub open spec fn header_source(info: TableHeaderInfo) -> Seq<char> {
    match info.source_id {
        Some(id) => "🚀 "@ + source_label(info.data_source@) + ": "@ + info.data_source@ + " (ID: "@
            + decimal(id as nat) + ")\n"@,
        None => "🚀 Data: "@ + info.data_source@ + "\n"@,
    }
}

/// The range shown.
pub open spec fn header_range(info: TableHeaderInfo) -> Seq<char> {
    if info.start_position == info.end_position {
        "Display: "@ + decimal(info.start_position as nat) + " record"@
    } else {
        "Display: records "@ + decimal(info.start_position as nat) + "-"@ + decimal(
            info.end_position as nat,
        )
    }
}

/// The offset note (only for an offset above zero).
pub open spec fn header_offset(info: TableHeaderInfo) -> Seq<char> {
    match info.offset {
        Some(o) => if o > 0 {
            " | Offset: +"@ + decimal(o as nat)
        } else {
            Seq::empty()
        },
        None => Seq::empty(),
    }
}

/// The second line: range, total, offset and filter note.
pub open spec fn header_counts(info: TableHeaderInfo) -> Seq<char> {
    "📊 "@ + header_range(info) + " | Total records: "@ + decimal(info.total_records as nat)
        + header_offset(info) + (if info.is_filtered {
        " | 🔍 Filter applied"@
    } else {
        Seq::empty()
    }) + "\n"@
}

/// The paging line, when paging is known.
pub open spec fn header_page(info: TableHeaderInfo) -> Seq<char> {
    match info.pagination_info {
        Some(p) => "📄 Page: "@ + decimal((p.current_page + 1) as nat) + "/"@ + decimal(
            p.total_pages as nat,
        ) + " | Page size: "@ + decimal(p.page_size as nat) + " records\n"@,
        None => Seq::empty(),
    }
}

/// The comprehensive header text, given the clock text.
pub open spec fn comprehensive_header_text(info: TableHeaderInfo, rule_width: nat, clock: Seq<char>) -> Seq<char> {
    header_source(info) + header_counts(info) + header_page(info) + "⏰ Execution time: "@ + clock
        + " | 💡 Tips: --limit, --offset, --format\n"@ + repeat_char('─', rule_width) + "\n"@
}

/// Plain rows of text cells.
pub open spec fn simple_rows(rows: Seq<Vec<String>>) -> Seq<Seq<(Seq<char>, Option<CellColor>, bool, bool)>> {
    Seq::new(rows.len(), |i: int| rows[i]@.map_values(|s: String| plain(s@)))
}

/// Tables for the terminal.
pub struct TableDisplay {
    /// Terminal width in columns, when known.
    pub max_width: Option<usize>,
    pub use_colors: bool,
    /// Whether standard output is a terminal: tables then carry their cell
    /// styles and, without a width of their own, fill the terminal.
    pub tty: bool,
    /// The terminal's columns, when they could be read.
    pub term_cols: Option<u16>,
}

/// The width taken from the terminal: its columns kept between 40 and 200,
/// or 80 when the size cannot be read.
pub open spec fn width_from_terminal(size: Option<(u16, u16)>) -> usize {
    width_from_cols(
        match size {
            Some((cols, _)) => Some(cols),
            None => None,
        },
    )
}

/// The width for the terminal's columns: kept between 40 and 200, or 80
/// when unknown.
pub open spec fn width_from_cols(cols: Option<u16>) -> usize {
    match cols {
        Some(cols) => if cols < 40 {
            40
        } else if cols > 200 {
            200
        } else {
            cols as usize
        },
        None => 80,
    }
}

impl TableDisplay {
    /// A display for the current terminal, with colors: its width comes
    /// from the terminal's columns, read once here.
    pub fn new() -> (r: Self)
        ensures
            r.use_colors,
            r.max_width == Some(width_from_cols(r.term_cols)),
            r.max_width matches Some(w) && 40 <= w <= 200,
    {
        let size = terminal_size();
        let tty = crate::cli::stdout_is_terminal();
        let term_cols = match size {
            Some((c, _)) => Some(c),
            None => None,
        };
        TableDisplay { max_width: Some(Self::width_from_size(size)), use_colors: true, tty, term_cols }
    }

    /// The width a table without a width of its own is drawn to: the
    /// terminal's columns when printing to a terminal, else none.
    pub open spec fn fallback_width(&self) -> Option<u16> {
        if self.tty {
            self.term_cols
        } else {
            None
        }
    }

    /// The width for a terminal size.
    pub fn width_from_size(size: Option<(u16, u16)>) -> (r: usize)
        ensures
            r == width_from_terminal(size),
            40 <= r <= 200,
    {
        match size {
            Some((cols, _)) => {
                let width = cols as usize;
                if width < 40 {
                    40
                } else if width > 200 {
                    200
                } else {
                    width
                }
            },
            None => 80,
        }
    }

    /// The same display with a given width.
    pub fn with_max_width(self, width: usize) -> (r: Self)
        ensures
            r.max_width == Some(width),
            r.use_colors == self.use_colors,
            r.tty == self.tty && r.term_cols == self.term_cols,
    {
        TableDisplay { max_width: Some(width), ..self }
    }

    /// The same display with colors on or off.
    pub fn with_colors(self, use_colors: bool) -> (r: Self)
        ensures
            r.use_colors == use_colors,
            r.max_width == self.max_width,
            r.tty == self.tty && r.term_cols == self.term_cols,
    {
        TableDisplay { use_colors, ..self }
    }

    /// Column widths of the question table for this display's width
    /// (80 when unknown).
    pub fn get_responsive_column_widths(&self) -> (r: ColumnWidths)
        ensures
            r == widths_for(
                match self.max_width {
                    Some(w) => w as nat,
                    None => 80,
                },
            ),
    {
        let w = match self.max_width {
            Some(w) => w,
            None => 80,
        };
        if w < 60 {
            ColumnWidths { name: 10, collection: 6, description: 15 }
        } else if w < 80 {
            ColumnWidths { name: 15, collection: 8, description: 20 }
        } else if w < 120 {
            ColumnWidths { name: 25, collection: 12, description: 25 }
        } else {
            ColumnWidths { name: 40, collection: 20, description: 35 }
        }
    }

    /// The width given to UTF-8 tables.
    pub fn configured_width(&self) -> (r: u16)
        ensures
            r == table_width(self.max_width),
    {
        match self.max_width {
            Some(w) => if w > 20 {
                #[verifier::truncate]
                ((w - 6) as u16)
            } else if w < 40 {
                40u16
            } else {
                w as u16
            },
            None => 80u16,
        }
    }

    fn colored_cell(&self, text: String, color: CellColor) -> (r: StyledCell)
        ensures
            cell_view(r) == tinted(text@, color, self.use_colors),
    {
        StyledCell { text, color: if self.use_colors { Some(color) } else { None }, bold: false, italic: false }
    }

    fn bold_header(&self, text: String, color: CellColor) -> (r: StyledCell)
        ensures
            cell_view(r) == heading(text@, color, self.use_colors),
    {
        StyledCell { text, color: if self.use_colors { Some(color) } else { None }, bold: true, italic: false }
    }

    /// Where a question belongs, as shown in the table.
    pub fn extract_collection_name(&self, question: &Question) -> (r: String)
        ensures
            r@ == collection_label(*question),
    {
        match &question.collection {
            Some(c) => c.name.clone(),
            None => match question.collection_id {
                Some(id) => {
                    let mut s = String::new();
                    append_str(&mut s, "ID: ");
                    push_decimal(&mut s, id as u64);
                    proof {
                        reveal_strlit("ID: ");
                    }
                    s
                },
                None => {
                    proof {
                        reveal_strlit("Root");
                    }
                    "Root".to_string()
                },
            },
        }
    }

    /// The rows of the question table.
    pub open spec fn question_rows(&self, questions: Seq<Question>) -> Seq<Seq<(Seq<char>, Option<CellColor>, bool, bool)>> {
        Seq::new(
            questions.len(),
            |i: int|
                question_row(
                    questions[i],
                    widths_for(
                        match self.max_width {
                            Some(w) => w as nat,
                            None => 80,
                        },
                    ),
                    self.use_colors,
                ),
        )
    }

    /// The question table: ID, name, collection and description, cut to
    /// the column widths of the terminal width.
    pub fn render_question_list(&self, questions: &[Question]) -> (r: Result<String, AppError>)
        ensures
            r is Ok,
            r matches Ok(s) && (!self.tty ==> s@ == table_text(
                true,
                Some(table_width(self.max_width)),
                question_headers(self.use_colors),
                self.question_rows(questions@),
            )),
    {
        let r = self.render_question_list_with_limit(questions, None);
        assert(questions@.take(questions@.len() as int) =~= questions@);
        assert(self.question_rows(questions@) + Seq::empty() =~= self.question_rows(questions@));
        r
    }

    /// The note after a question table cut at `limit` of `total` questions.
    pub open spec fn more_note_row(&self, total: nat, limit: nat) -> Seq<(Seq<char>, Option<CellColor>, bool, bool)> {
        let note = "... and "@ + decimal((total - limit) as nat) + " more questions (use --full to see all)"@;
        seq![
            plain(Seq::empty()),
            if self.use_colors {
                (note, Some(CellColor::DarkGrey), false, true)
            } else {
                plain(note)
            },
            plain(Seq::empty()),
            plain(Seq::empty()),
        ]
    }

    /// The question table with at most `limit` questions, and a note of how
    /// many more there are.
    pub fn render_question_list_with_limit(&self, questions: &[Question], limit: Option<usize>) -> (r: Result<String, AppError>)
        ensures
            ({
                let shown: nat = match limit {
                    Some(l) => if l < questions@.len() { l as nat } else { questions@.len() },
                    None => questions@.len(),
                };
                r matches Ok(s) && (!self.tty ==> s@ == table_text(
                    true,
                    Some(table_width(self.max_width)),
                    question_headers(self.use_colors),
                    self.question_rows(questions@.take(shown as int)) + match limit {
                        Some(l) => if questions@.len() > l {
                            seq![self.more_note_row(questions@.len(), l as nat)]
                        } else {
                            Seq::empty()
                        },
                        None => Seq::empty(),
                    },
                ))
            }),
    {
        proof {
            reveal_strlit("ID");
            reveal_strlit("Name");
            reveal_strlit("Collection");
            reveal_strlit("Description");
            reveal_strlit("N/A");
            reveal_strlit("");
            reveal_strlit("... and ");
            reveal_strlit(" more questions (use --full to see all)");
        }
        let shown = match limit {
            Some(l) => if l < questions.len() { l } else { questions.len() },
            None => questions.len(),
        };
        let mut header: Vec<StyledCell> = Vec::new();
        header.push(self.bold_header("ID".to_string(), CellColor::Cyan));
        header.push(self.bold_header("Name".to_string(), CellColor::Cyan));
        header.push(self.bold_header("Collection".to_string(), CellColor::Cyan));
        header.push(self.bold_header("Description".to_string(), CellColor::Cyan));
        let widths = self.get_responsive_column_widths();
        let ghost expected = Seq::new(
            questions@.len(),
            |i: int| question_row(questions@[i], widths, self.use_colors),
        );
        let mut rows: Vec<Vec<StyledCell>> = Vec::new();
        let mut i: usize = 0;
        while i < shown
            invariant
                0 <= i <= shown <= questions@.len(),
                expected == Seq::new(
                    questions@.len(),
                    |i: int| question_row(questions@[i], widths, self.use_colors),
                ),
                rows@.len() == i,
                forall|k: int| 0 <= k < i ==> row_view((#[trigger] rows@[k])@) == expected[k],
            decreases shown - i,
        {
            let q = &questions[i];
            let mut id_text = String::new();
            push_decimal(&mut id_text, q.id as u64);
            let collection_name = self.extract_collection_name(q);
            let description = match &q.description {
                Some(d) => d.as_str(),
                None => "N/A",
            };
            let mut row: Vec<StyledCell> = Vec::new();
            row.push(self.colored_cell(id_text, CellColor::Cyan));
            row.push(StyledCell { text: truncate_text(q.name.as_str(), widths.name), color: None, bold: false, italic: false });
            row.push(StyledCell { text: truncate_text(collection_name.as_str(), widths.collection), color: None, bold: false, italic: false });
            row.push(self.colored_cell(truncate_text(description, widths.description), CellColor::DarkGrey));
            assert(row_view(row@) =~= expected[i as int]);
            rows.push(row);
            i = i + 1;
        }
        assert(rows_view(rows@) =~= self.question_rows(questions@.take(shown as int)));
        if let Some(l) = limit {
            if questions.len() > l {
                let mut note = String::new();
                append_str(&mut note, "... and ");
                push_decimal(&mut note, (questions.len() - l) as u64);
                append_str(&mut note, " more questions (use --full to see all)");
                let mut row: Vec<StyledCell> = Vec::new();
                row.push(StyledCell { text: String::new(), color: None, bold: false, italic: false });
                if self.use_colors {
                    row.push(StyledCell { text: note, color: Some(CellColor::DarkGrey), bold: false, italic: true });
                } else {
                    row.push(StyledCell { text: note, color: None, bold: false, italic: false });
                }
                row.push(StyledCell { text: String::new(), color: None, bold: false, italic: false });
                row.push(StyledCell { text: String::new(), color: None, bold: false, italic: false });
                assert(row_view(row@) =~= self.more_note_row(questions@.len(), l as nat));
                let ghost before = rows_view(rows@);
                rows.push(row);
                assert(rows_view(rows@) =~= before + seq![self.more_note_row(questions@.len(), l as nat)]);
            }
        }
        assert(row_view(header@) =~= question_headers(self.use_colors));
        let width = self.configured_width();
        Ok(draw_table(true, self.tty, Some(width), &header, &rows))
    }

    /// The text of a result cell.
    pub fn format_cell_value(&self, value: &JsonValue) -> (r: String)
        ensures
            r@ == cell_text_of(*value),
    {
        proof {
            reveal_strlit("-");
            reveal_strlit("true");
            reveal_strlit("false");
            reveal_strlit("[]");
            reveal_strlit("{}");
            reveal_strlit("[");
            reveal_strlit(" items]");
            reveal_strlit("{");
            reveal_strlit(" items}");
        }
        match value {
            JsonValue::Null => "-".to_string(),
            JsonValue::String(s) => {
                let n = utf8_len_wide(&chars_of(s.as_str()));
                if n > 100 {
                    truncate_text(s.as_str(), 100)
                } else {
                    s.clone()
                }
            },
            JsonValue::Number(n) => n.clone(),
            JsonValue::Bool(b) => if *b {
                "true".to_string()
            } else {
                "false".to_string()
            },
            JsonValue::Array(xs) => if xs.len() == 0 {
                "[]".to_string()
            } else {
                let mut s = String::new();
                append_str(&mut s, "[");
                push_decimal(&mut s, xs.len() as u64);
                append_str(&mut s, " items]");
                s
            },
            JsonValue::Object(kvs) => if kvs.len() == 0 {
                "{}".to_string()
            } else {
                let mut s = String::new();
                append_str(&mut s, "{");
                push_decimal(&mut s, kvs.len() as u64);
                append_str(&mut s, " items}");
                s
            },
        }
    }

    /// The table of a query result (column display names in green, nulls
    /// dim and italic when colors are on), or a note for no rows.
    pub fn render_query_result(&self, result: &QueryResult) -> (r: Result<String, AppError>)
        ensures
            result.data.rows@.len() == 0 ==> (r matches Ok(s) && s@ == "Query returned no results."@),
            result.data.rows@.len() > 0 ==> (r matches Ok(s) && (!self.tty ==> s@ == table_text(
                false,
                None,
                self.result_headers(result.data.cols@),
                self.result_rows(result.data.rows@),
            ))),
    {
        let r = self.render_query_result_with_limit(result, None);
        assert(result.data.rows@.take(result.data.rows@.len() as int) =~= result.data.rows@);
        proof {
            reveal_strlit("");
        }
        assert(table_text(
            false,
            None,
            self.result_headers(result.data.cols@),
            self.result_rows(result.data.rows@),
        ) + Seq::<char>::empty() =~= table_text(
            false,
            None,
            self.result_headers(result.data.cols@),
            self.result_rows(result.data.rows@),
        ));
        r
    }

    /// The table of the first `limit` rows of a query result (all without
    /// a limit), with a note of how many were shown when not all; a note
    /// for no rows.
    pub fn render_query_result_with_limit(&self, result: &QueryResult, limit: Option<usize>) -> (r: Result<String, AppError>)
        ensures
            result.data.rows@.len() == 0 ==> (r matches Ok(s) && s@ == "Query returned no results."@),
            result.data.rows@.len() > 0 ==> ({
                let total = result.data.rows@.len();
                let shown: nat = match limit {
                    Some(l) => if l < total { l as nat } else { total },
                    None => total,
                };
                r matches Ok(s) && (!self.tty ==> s@ == table_text(
                    false,
                    None,
                    self.result_headers(result.data.cols@),
                    self.result_rows(result.data.rows@.take(shown as int)),
                ) + if shown != total {
                    "\nShowing "@ + decimal(shown) + " of "@ + decimal(total) + " rows"@
                } else {
                    Seq::empty()
                })
            }),
    {
        proof {
            reveal_strlit("Query returned no results.");
            reveal_strlit("\nShowing ");
            reveal_strlit(" of ");
            reveal_strlit(" rows");
        }
        if result.data.rows.len() == 0 {
            return Ok("Query returned no results.".to_string());
        }
        let total = result.data.rows.len();
        let shown = match limit {
            Some(l) => if l < total { l } else { total },
            None => total,
        };
        let mut header: Vec<StyledCell> = Vec::new();
        let mut j: usize = 0;
        while j < result.data.cols.len()
            invariant
                0 <= j <= result.data.cols@.len(),
                header@.len() == j,
                forall|k: int| 0 <= k < j ==> cell_view(#[trigger] header@[k]) == heading(
                    result.data.cols@[k].display_name@,
                    CellColor::Green,
                    self.use_colors,
                ),
            decreases result.data.cols@.len() - j,
        {
            header.push(self.bold_header(result.data.cols[j].display_name.clone(), CellColor::Green));
            j = j + 1;
        }
        let mut rows: Vec<Vec<StyledCell>> = Vec::new();
        let mut i: usize = 0;
        while i < shown
            invariant
                0 <= i <= shown <= result.data.rows@.len(),
                rows@.len() == i,
                forall|k: int| 0 <= k < i ==> row_view((#[trigger] rows@[k])@) == self.result_row(
                    result.data.rows@[k]@,
                ),
            decreases shown - i,
        {
            let src = &result.data.rows[i];
            let mut row: Vec<StyledCell> = Vec::new();
            let mut c: usize = 0;
            while c < src.len()
                invariant
                    0 <= c <= src@.len(),
                    row@.len() == c,
                    forall|k: int| 0 <= k < c ==> cell_view(#[trigger] row@[k]) == self.result_cell(
                        src@[k],
                    ),
                decreases src@.len() - c,
            {
                let v = &src[c];
                let text = self.format_cell_value(v);
                let dim = self.use_colors && matches!(v, JsonValue::Null);
                row.push(StyledCell {
                    text,
                    color: if dim { Some(CellColor::DarkGrey) } else { None },
                    bold: false,
                    italic: dim,
                });
                c = c + 1;
            }
            assert(row_view(row@) =~= self.result_row(src@));
            rows.push(row);
            i = i + 1;
        }
        assert(row_view(header@) =~= self.result_headers(result.data.cols@));
        assert(rows_view(rows@) =~= self.result_rows(result.data.rows@.take(shown as int)));
        let fallback = if self.tty { self.term_cols } else { None };
        let mut out = draw_table(false, self.tty, fallback, &header, &rows);
        if shown != total {
            append_str(&mut out, "\nShowing ");
            push_decimal(&mut out, shown as u64);
            append_str(&mut out, " of ");
            push_decimal(&mut out, total as u64);
            append_str(&mut out, " rows");
        }
        Ok(out)
    }

    /// The header row of a result table.
    pub open spec fn result_headers(&self, cols: Seq<crate::models::Column>) -> Seq<(Seq<char>, Option<CellColor>, bool, bool)> {
        Seq::new(cols.len(), |j: int| heading(cols[j].display_name@, CellColor::Green, self.use_colors))
    }

    /// The rows of a result table.
    pub open spec fn result_rows(&self, rows: Seq<Vec<JsonValue>>) -> Seq<Seq<(Seq<char>, Option<CellColor>, bool, bool)>> {
        Seq::new(rows.len(), |i: int| self.result_row(rows[i]@))
    }

    /// A result cell as drawn.
    pub open spec fn result_cell(&self, v: JsonValue) -> (Seq<char>, Option<CellColor>, bool, bool) {
        if self.use_colors && v is Null {
            (cell_text_of(v), Some(CellColor::DarkGrey), false, true)
        } else {
            (cell_text_of(v), None, false, false)
        }
    }

    /// A result row as drawn.
    pub open spec fn result_row(&self, row: Seq<JsonValue>) -> Seq<(Seq<char>, Option<CellColor>, bool, bool)> {
        row.map_values(|v: JsonValue| self.result_cell(v))
    }

    /// The header printed above a question's results; the execution time is
    /// the system clock's.
    #[verifier::spinoff_prover]
    #[verifier::rlimit(40)]
    pub fn render_question_header_with_results(&self, params: &QuestionHeaderParams) -> (r: String)
        requires
            params.current_page matches Some(c) ==> c < usize::MAX,
            params.start_row matches Some(s) ==> s < usize::MAX,
        ensures
            exists|clock: Seq<char>| r@ == #[trigger] question_header_text(*params, clock),
    {
        proof {
            reveal_strlit("🚀 Question #");
            reveal_strlit(": ");
            reveal_strlit("\n");
            reveal_strlit("📊 Question execution result: ");
            reveal_strlit(" total | Page ");
            reveal_strlit("/");
            reveal_strlit(" (");
            reveal_strlit("-");
            reveal_strlit(" / ");
            reveal_strlit(" records)\n");
            reveal_strlit(" total records\n");
            reveal_strlit("⏰ Execution time: ");
            reveal_strlit(" | 💡 Tips: --format json/csv\n");
            reveal_strlit("──────────────────────────────────────────────────────────\n");
        }
        let mut h = String::new();
        append_str(&mut h, "🚀 Question #");
        push_decimal(&mut h, params.question_id as u64);
        append_str(&mut h, ": ");
        append_str(&mut h, params.question_name);
        append_str(&mut h, "\n");
        match (params.current_page, params.total_pages, params.start_row, params.end_row) {
            (Some(c), Some(t), Some(s), Some(e)) => {
                append_str(&mut h, "📊 Question execution result: ");
                push_decimal(&mut h, params.total_records as u64);
                append_str(&mut h, " total | Page ");
                push_decimal(&mut h, (c + 1) as u64);
                append_str(&mut h, "/");
                push_decimal(&mut h, t as u64);
                append_str(&mut h, " (");
                push_decimal(&mut h, (s + 1) as u64);
                append_str(&mut h, "-");
                push_decimal(&mut h, e as u64);
                append_str(&mut h, " / ");
                push_decimal(&mut h, params.total_records as u64);
                append_str(&mut h, " records)\n");
            },
            _ => {
                append_str(&mut h, "📊 Question execution result: ");
                push_decimal(&mut h, params.total_records as u64);
                append_str(&mut h, " total records\n");
            },
        }
        let clock = now_debug_text();
        append_str(&mut h, "⏰ Execution time: ");
        append_str(&mut h, clock.as_str());
        append_str(&mut h, " | 💡 Tips: --format json/csv\n");
        append_str(&mut h, "──────────────────────────────────────────────────────────\n");
        assert(h@ == question_header_text(*params, clock@));
        h
    }

    /// Width of the rule under a header: the display's width, at most 80.
    pub open spec fn rule_width(&self) -> nat {
        match self.max_width {
            Some(w) => if w < 80 {
                w as nat
            } else {
                80
            },
            None => 80,
        }
    }

    /// The header printed above result tables; the execution time is the
    /// system clock's and the rule is as wide as the display, at most 80.
    #[verifier::spinoff_prover]
    #[verifier::rlimit(40)]
    pub fn render_comprehensive_header(&self, info: &TableHeaderInfo) -> (r: String)
        requires
            info.pagination_info matches Some(p) ==> p.current_page < usize::MAX,
        ensures
            exists|clock: Seq<char>| r@ == #[trigger] comprehensive_header_text(
                *info,
                self.rule_width(),
                clock,
            ),
    {
        proof {
            reveal_strlit("🚀 ");
            reveal_strlit(": ");
            reveal_strlit(" (ID: ");
            reveal_strlit(")\n");
            reveal_strlit("🚀 Data: ");
            reveal_strlit("\n");
            reveal_strlit("📊 ");
            reveal_strlit("Display: ");
            reveal_strlit(" record");
            reveal_strlit("Display: records ");
            reveal_strlit("-");
            reveal_strlit(" | Total records: ");
            reveal_strlit(" | Offset: +");
            reveal_strlit(" | 🔍 Filter applied");
            reveal_strlit("📄 Page: ");
            reveal_strlit("/");
            reveal_strlit(" | Page size: ");
            reveal_strlit(" records\n");
            reveal_strlit("⏰ Execution time: ");
            reveal_strlit(" | 💡 Tips: --limit, --offset, --format\n");
            reveal_strlit("Question");
            reveal_strlit("Data");
        }
        let mut h = String::new();
        match info.source_id {
            Some(id) => {
                let src = chars_of(info.data_source.as_str());
                let pat = chars_of("Question");
                let label = if contains_chars(&src, &pat) { "Question" } else { "Data" };
                append_str(&mut h, "🚀 ");
                append_str(&mut h, label);
                append_str(&mut h, ": ");
                append_str(&mut h, info.data_source.as_str());
                append_str(&mut h, " (ID: ");
                push_decimal(&mut h, id as u64);
                append_str(&mut h, ")\n");
            },
            None => {
                append_str(&mut h, "🚀 Data: ");
                append_str(&mut h, info.data_source.as_str());
                append_str(&mut h, "\n");
            },
        }
        assert(h@ == header_source(*info));
        let ghost h1 = h@;
        let mut c = String::new();
        append_str(&mut c, "📊 ");
        if info.start_position == info.end_position {
            append_str(&mut c, "Display: ");
            push_decimal(&mut c, info.start_position as u64);
            append_str(&mut c, " record");
        } else {
            append_str(&mut c, "Display: records ");
            push_decimal(&mut c, info.start_position as u64);
            append_str(&mut c, "-");
            push_decimal(&mut c, info.end_position as u64);
        }
        append_str(&mut c, " | Total records: ");
        push_decimal(&mut c, info.total_records as u64);
        if let Some(o) = info.offset {
            if o > 0 {
                append_str(&mut c, " | Offset: +");
                push_decimal(&mut c, o as u64);
            }
        }
        if info.is_filtered {
            append_str(&mut c, " | 🔍 Filter applied");
        }
        append_str(&mut c, "\n");
        assert(c@ == header_counts(*info));
        append_str(&mut h, c.as_str());
        let mut g = String::new();
        if let Some(p) = &info.pagination_info {
            append_str(&mut g, "📄 Page: ");
            push_decimal(&mut g, (p.current_page + 1) as u64);
            append_str(&mut g, "/");
            push_decimal(&mut g, p.total_pages as u64);
            append_str(&mut g, " | Page size: ");
            push_decimal(&mut g, p.page_size as u64);
            append_str(&mut g, " records\n");
        }
        assert(g@ == header_page(*info));
        append_str(&mut h, g.as_str());
        let clock = now_debug_text();
        append_str(&mut h, "⏰ Execution time: ");
        append_str(&mut h, clock.as_str());
        append_str(&mut h, " | 💡 Tips: --limit, --offset, --format\n");
        let rule = match self.max_width {
            Some(w) => if w < 80 { w } else { 80 },
            None => 80,
        };
        push_repeated(&mut h, '─', rule);
        append_str(&mut h, "\n");
        assert(h@ == comprehensive_header_text(*info, self.rule_width(), clock@));
        h
    }

    /// A builder of header information.
    pub fn create_header_info_builder() -> (r: TableHeaderInfoBuilder)
        ensures
            r == TableHeaderInfoBuilder::empty(),
    {
        TableHeaderInfoBuilder::new()
    }

    /// Bold cyan header cells.
    pub open spec fn simple_headers(&self, headers: Seq<&str>) -> Seq<(Seq<char>, Option<CellColor>, bool, bool)> {
        Seq::new(headers.len(), |j: int| heading(headers[j]@, CellColor::Cyan, self.use_colors))
    }

    /// A UTF-8 table with bold cyan headers and plain rows.
    pub fn render_simple_table(&self, headers: &[&str], rows: &[Vec<String>]) -> (r: String)
        ensures
            !self.tty ==> r@ == table_text(
                true,
                Some(table_width(self.max_width)),
                self.simple_headers(headers@),
                simple_rows(rows@),
            ),
    {
        let mut header: Vec<StyledCell> = Vec::new();
        let mut j: usize = 0;
        while j < headers.len()
            invariant
                0 <= j <= headers@.len(),
                header@.len() == j,
                forall|k: int| 0 <= k < j ==> cell_view(#[trigger] header@[k]) == heading(
                    headers@[k]@,
                    CellColor::Cyan,
                    self.use_colors,
                ),
            decreases headers@.len() - j,
        {
            header.push(self.bold_header(headers[j].to_string(), CellColor::Cyan));
            j = j + 1;
        }
        let mut body: Vec<Vec<StyledCell>> = Vec::new();
        let mut i: usize = 0;
        while i < rows.len()
            invariant
                0 <= i <= rows@.len(),
                body@.len() == i,
                forall|k: int| 0 <= k < i ==> row_view((#[trigger] body@[k])@) == rows@[k]@.map_values(
                    |s: String| plain(s@),
                ),
            decreases rows@.len() - i,
        {
            let mut row: Vec<StyledCell> = Vec::new();
            let mut c: usize = 0;
            while c < rows[i].len()
                invariant
                    0 <= i < rows@.len(),
                    0 <= c <= rows@[i as int]@.len(),
                    row@.len() == c,
                    forall|k: int| 0 <= k < c ==> cell_view(#[trigger] row@[k]) == plain(
                        rows@[i as int]@[k]@,
                    ),
                decreases rows@[i as int]@.len() - c,
            {
                row.push(StyledCell { text: rows[i][c].clone(), color: None, bold: false, italic: false });
                c = c + 1;
            }
            assert(row_view(row@) =~= rows@[i as int]@.map_values(|s: String| plain(s@)));
            body.push(row);
            i = i + 1;
        }
        assert(row_view(header@) =~= self.simple_headers(headers@));
        assert(rows_view(body@) =~= simple_rows(rows@));
        let width = self.configured_width();
        draw_table(true, self.tty, Some(width), &header, &body)
    }
}

/// Collects what a result header shows.
#[derive(Debug)]
pub struct TableHeaderInfoBuilder {
    pub data_source: Option<String>,
    pub source_id: Option<u32>,
    pub total_records: Option<usize>,
    pub start_position: Option<usize>,
    pub end_position: Option<usize>,
    pub offset: Option<usize>,
    pub is_filtered: bool,
    pub pagination_info: Option<PaginationInfo>,
}

impl TableHeaderInfoBuilder {
    /// A builder with nothing set.
    pub open spec fn empty() -> Self {
        TableHeaderInfoBuilder {
            data_source: None,
            source_id: None,
            total_records: None,
            start_position: None,
            end_position: None,
            offset: None,
            is_filtered: false,
            pagination_info: None,
        }
    }

    /// A builder with nothing set.
    pub fn new() -> (r: Self)
        ensures
            r == Self::empty(),
    {
        TableHeaderInfoBuilder {
            data_source: None,
            source_id: None,
            total_records: None,
            start_position: None,
            end_position: None,
            offset: None,
            is_filtered: false,
            pagination_info: None,
        }
    }

    /// Set the data source's name.
    pub fn data_source(self, source: String) -> (r: Self)
        ensures
            r == (TableHeaderInfoBuilder { data_source: Some(source), ..self }),
    {
        TableHeaderInfoBuilder { data_source: Some(source), ..self }
    }

    /// Set the source's id.
    pub fn source_id(self, id: u32) -> (r: Self)
        ensures
            r == (TableHeaderInfoBuilder { source_id: Some(id), ..self }),
    {
        TableHeaderInfoBuilder { source_id: Some(id), ..self }
    }

    /// Set the number of records.
    pub fn total_records(self, total: usize) -> (r: Self)
        ensures
            r == (TableHeaderInfoBuilder { total_records: Some(total), ..self }),
    {
        TableHeaderInfoBuilder { total_records: Some(total), ..self }
    }

    /// Set the range of records shown.
    pub fn display_range(self, start: usize, end: usize) -> (r: Self)
        ensures
            r == (TableHeaderInfoBuilder { start_position: Some(start), end_position: Some(end), ..self }),
    {
        TableHeaderInfoBuilder { start_position: Some(start), end_position: Some(end), ..self }
    }

    /// Set the offset.
    pub fn offset(self, offset: usize) -> (r: Self)
        ensures
            r == (TableHeaderInfoBuilder { offset: Some(offset), ..self }),
    {
        TableHeaderInfoBuilder { offset: Some(offset), ..self }
    }

    /// Mark the records as filtered.
    pub fn filtered(self) -> (r: Self)
        ensures
            r == (TableHeaderInfoBuilder { is_filtered: true, ..self }),
    {
        TableHeaderInfoBuilder { is_filtered: true, ..self }
    }

    /// Set the paging.
    pub fn pagination(self, current_page: usize, total_pages: usize, page_size: usize) -> (r: Self)
        ensures
            r == (TableHeaderInfoBuilder {
                pagination_info: Some(PaginationInfo { current_page, total_pages, page_size }),
                ..self
            }),
    {
        TableHeaderInfoBuilder {
            pagination_info: Some(PaginationInfo { current_page, total_pages, page_size }),
            ..self
        }
    }

    /// The header information; defaults: source `Unknown`, no records,
    /// range from 1 to the number of records.
    pub fn build(self) -> (r: TableHeaderInfo)
        ensures
            r.data_source@ == match self.data_source {
                Some(s) => s@,
                None => "Unknown"@,
            },
            r.source_id == self.source_id,
            r.total_records == match self.total_records {
                Some(t) => t,
                None => 0,
            },
            r.start_position == match self.start_position {
                Some(s) => s,
                None => 1,
            },
            r.end_position == match self.end_position {
                Some(e) => e,
                None => r.total_records,
            },
            r.offset == self.offset,
            r.is_filtered == self.is_filtered,
            r.pagination_info == self.pagination_info,
    {
        proof {
            reveal_strlit("Unknown");
        }
        let total_records = match self.total_records {
            Some(t) => t,
            None => 0,
        };
        TableHeaderInfo {
            data_source: match self.data_source {
                Some(s) => s,
                None => "Unknown".to_string(),
            },
            source_id: self.source_id,
            total_records,
            start_position: match self.start_position {
                Some(s) => s,
                None => 1,
            },
            end_position: match self.end_position {
                Some(e) => e,
                None => total_records,
            },
            offset: self.offset,
            is_filtered: self.is_filtered,
            pagination_info: self.pagination_info,
        }
    }
}

/// `parts` joined with `sep` between neighbours.
pub fn join_texts(parts: &Vec<String>, sep: &str) -> (r: String)
    ensures
        r@ == crate::clipboard::join(parts@.map_values(|p: String| p@), sep@),
{
    let ghost v = parts@.map_values(|p: String| p@);
    let mut r = String::new();
    let mut i: usize = 0;
    assert(v.take(0) =~= Seq::<Seq<char>>::empty());
    while i < parts.len()
        invariant
            i <= parts@.len(),
            v == parts@.map_values(|p: String| p@),
            r@ == crate::clipboard::join(v.take(i as int), sep@),
        decreases parts@.len() - i,
    {
        assert(v.take(i + 1).drop_last() =~= v.take(i as int));
        assert(v.take(i + 1).last() == parts@[i as int]@);
        if i > 0 {
            append_str(&mut r, sep);
        } else {
            assert(v.take(1) =~= seq![parts@[0]@]);
        }
        append_str(&mut r, parts[i].as_str());
        if i == 0 {
            assert(r@ =~= parts@[0]@);
        }
        i = i + 1;
    }
    assert(v.take(parts@.len() as int) =~= v);
    r
}

/// The cell texts of a row, as this display formats them.
pub open spec fn csv_cells(row: Seq<JsonValue>) -> Seq<Seq<char>> {
    row.map_values(|v: JsonValue| cell_text_of(v))
}

/// The display names of columns.
pub open spec fn column_display_names(cols: Seq<crate::models::Column>) -> Seq<Seq<char>> {
    cols.map_values(|c: crate::models::Column| c.display_name@)
}

impl TableDisplay {
    /// The CSV lines of a result: the column display names, then each
    /// row's cells as formatted for display, joined by commas.
    pub fn csv_lines(&self, result: &QueryResult) -> (r: Vec<String>)
        ensures
            r@.len() == result.data.rows@.len() + 1,
            r@[0]@ == crate::clipboard::join(column_display_names(result.data.cols@), ","@),
            forall|i: int|
                0 <= i < result.data.rows@.len() ==> #[trigger] r@[i + 1]@ == crate::clipboard::join(
                    csv_cells(result.data.rows@[i]@),
                    ","@,
                ),
    {
        let mut names: Vec<String> = Vec::new();
        let mut j: usize = 0;
        while j < result.data.cols.len()
            invariant
                j <= result.data.cols@.len(),
                names@.len() == j,
                forall|k: int| 0 <= k < j ==> #[trigger] names@[k]@ == result.data.cols@[k].display_name@,
            decreases result.data.cols@.len() - j,
        {
            names.push(result.data.cols[j].display_name.clone());
            j = j + 1;
        }
        assert(names@.map_values(|p: String| p@) =~= column_display_names(result.data.cols@));
        let mut lines: Vec<String> = Vec::new();
        lines.push(join_texts(&names, ","));
        let mut i: usize = 0;
        while i < result.data.rows.len()
            invariant
                i <= result.data.rows@.len(),
                lines@.len() == i + 1,
                lines@[0]@ == crate::clipboard::join(column_display_names(result.data.cols@), ","@),
                forall|k: int|
                    0 <= k < i ==> #[trigger] lines@[k + 1]@ == crate::clipboard::join(
                        csv_cells(result.data.rows@[k]@),
                        ","@,
                    ),
            decreases result.data.rows@.len() - i,
        {
            let row = &result.data.rows[i];
            let mut cells: Vec<String> = Vec::new();
            let mut c: usize = 0;
            while c < row.len()
                invariant
                    c <= row@.len(),
                    cells@.len() == c,
                    forall|k: int| 0 <= k < c ==> #[trigger] cells@[k]@ == cell_text_of(row@[k]),
                decreases row@.len() - c,
            {
                cells.push(self.format_cell_value(&row[c]));
                c = c + 1;
            }
            assert(cells@.map_values(|p: String| p@) =~= csv_cells(row@));
            lines.push(join_texts(&cells, ","));
            i = i + 1;
        }
        lines
    }
}

} // verus!
