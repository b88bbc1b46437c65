//! What the result table shows: the page of rows, the columns that fit the
//! width from the horizontal scroll on, the headers with the sort arrow,
//! and the title with the page, column and sort indicators.
use vstd::prelude::*;
use crate::content::{ContentPanel, SortOrder};
use crate::strings::{append_str, decimal, push_decimal};

verus! {

broadcast use vstd::std_specs::vec::group_vec_axioms;

/// The table of a result page as text.
pub struct ResultTableView {
    pub title: String,
    /// Headers of the columns shown, the sorted one with its arrow.
    pub headers: Vec<String>,
    /// The cells shown of each row of the page.
    pub rows: Vec<Vec<String>>,
    /// The columns share the width equally (three or fewer shown);
    /// otherwise each takes at least 15 cells.
    pub equal_widths: bool,
}

/// The first column shown: the horizontal scroll, kept on a column.
pub open spec fn window_start(scroll_x: nat, total: nat) -> nat {
    if total == 0 {
        0
    } else if scroll_x < total {
        scroll_x
    } else {
        (total - 1) as nat
    }
}

/// How many columns fit: 15 cells each in the width left by the borders
/// and the cursor mark, at least one, at most all of them.
pub open spec fn fitting_columns(total: nat, width: nat) -> nat {
    let avail: nat = if width >= 4 {
        (width - 4) as nat
    } else {
        0
    };
    let fit: nat = if avail / 15 >= 1 {
        avail / 15
    } else {
        1
    };
    if fit <= total {
        fit
    } else {
        total
    }
}

/// One past the last column shown.
pub open spec fn window_end(scroll_x: nat, total: nat, width: nat) -> nat {
    let end = window_start(scroll_x, total) + fitting_columns(total, width);
    if end <= total {
        end
    } else {
        total
    }
}

/// The mark after a sorted column's header.
pub open spec fn header_mark(o: SortOrder) -> Seq<char> {
    match o {
        SortOrder::Ascending => " ↑"@,
        SortOrder::Descending => " ↓"@,
        SortOrder::Unsorted => Seq::empty(),
    }
}

/// The arrow of a sort order in the title.
pub open spec fn title_arrow(o: SortOrder) -> Seq<char> {
    match o {
        SortOrder::Ascending => "↑"@,
        SortOrder::Descending => "↓"@,
        SortOrder::Unsorted => Seq::empty(),
    }
}

/// The shown cells of a row: from the first column shown up to the last
/// one shown or the row's end.
pub open spec fn shown_cells(row: Seq<String>, start: nat, end: nat) -> Seq<String> {
    row.subrange(start as int, if end <= row.len() { end as int } else { row.len() as int })
}

/// The column indicator: shown only when not all columns fit.
pub open spec fn column_indicator(start: nat, end: nat, total: nat, fit: nat) -> Seq<char> {
    if total > fit {
        " "@ + (if start > 0 {
            "← "@
        } else {
            "  "@
        }) + "Col "@ + decimal(start + 1) + "-"@ + decimal(end) + "/"@ + decimal(total) + (
        if end < total {
            " →"@
        } else {
            "  "@
        })
    } else {
        Seq::empty()
    }
}

/// The page indicator: the page and its rows when there are several
/// pages, else the number of rows.
pub open spec fn page_indicator(page: nat, pages: nat, start: nat, end: nat, total: nat) -> Seq<char> {
    if pages > 1 {
        " Page "@ + decimal(page + 1) + "/"@ + decimal(pages) + " (rows "@ + decimal(start + 1)
            + "-"@ + decimal(end) + " of "@ + decimal(total) + ")"@
    } else {
        " "@ + decimal(total) + " rows"@
    }
}

impl ContentPanel {
    /// The columns of the result, none without one.
    pub open spec fn result_columns(&self) -> Seq<String> {
        match self.query_result {
            Some(q) => q.columns@,
            None => Seq::empty(),
        }
    }

    /// The first row of the current page.
    pub open spec fn page_first(&self) -> nat {
        (self.result_page * self.rows_per_page) as nat
    }

    /// One past the last row of the current page, counted over all rows.
    pub open spec fn page_last(&self) -> nat {
        let end = self.page_first() + self.rows_per_page;
        if end <= self.result_rows().len() {
            end as nat
        } else {
            self.result_rows().len()
        }
    }

    /// The shown cells of the visible rows at positions `lo` up to `hi`.
    pub open spec fn shown_rows(&self, lo: nat, hi: nat, start: nat, end: nat) -> Seq<Seq<String>>
        decreases hi - lo,
    {
        if hi <= lo {
            Seq::empty()
        } else {
            let before = self.shown_rows(lo, (hi - 1) as nat, start, end);
            match self.visible_row_index((hi - 1) as nat) {
                Some(i) => before.push(shown_cells(self.result_rows()[i as int]@, start, end)),
                None => before,
            }
        }
    }

    /// Every visible row of the page reaches the first column shown.
    pub open spec fn page_rows_reach(&self, start: nat) -> bool {
        forall|k: nat|
            self.page_first() <= k < self.page_last() ==> match #[trigger] self.visible_row_index(k) {
                Some(i) => self.result_rows()[i as int]@.len() >= start,
                None => true,
            }
    }

    /// The headers of the columns `start` up to `end`, the sorted one with
    /// its mark.
    pub open spec fn shown_headers(&self, start: nat, end: nat) -> Seq<Seq<char>> {
        Seq::new(
            (end - start) as nat,
            |j: int|
                self.result_columns()[start + j]@ + if self.sort_column_index == Some(
                    (start + j) as usize,
                ) {
                    header_mark(self.sort_order)
                } else {
                    Seq::empty()
                },
        )
    }

    /// The sort indicator of the title, while a sort is in effect.
    pub open spec fn sort_indicator(&self) -> Seq<char> {
        match self.sort_column_index {
            Some(c) => if c < self.result_columns().len() && self.sort_order != SortOrder::Unsorted
                && self.query_result is Some {
                " [Sort: "@ + self.result_columns()[c as int]@ + " "@ + title_arrow(self.sort_order)
                    + "]"@
            } else {
                Seq::empty()
            },
            None => Seq::empty(),
        }
    }

    /// `t` is the result table for a width of `width` cells, titled after
    /// `label`.
    pub open spec fn table_shows(&self, t: ResultTableView, label: Seq<char>, width: nat) -> bool {
        let total = self.result_columns().len();
        let start = window_start(self.scroll_x as nat, total);
        let end = window_end(self.scroll_x as nat, total, width);
        &&& t.title@ == self.table_title(label, width)
        &&& texts_view(t.headers@) == self.shown_headers(start, end)
        &&& rows_view(t.rows@) == self.shown_rows(self.page_first(), self.page_last(), start, end)
        &&& t.equal_widths == (end - start <= 3)
    }

    /// The title of the result table, after the label.
    pub open spec fn table_title(&self, label: Seq<char>, width: nat) -> Seq<char> {
        let total = self.result_columns().len();
        let start = window_start(self.scroll_x as nat, total);
        let end = window_end(self.scroll_x as nat, total, width);
        " "@ + label + page_indicator(
            self.result_page as nat,
            self.page_count(),
            self.page_first(),
            self.page_last(),
            self.result_rows().len(),
        ) + column_indicator(start, end, total, fitting_columns(total, width)) + self.sort_indicator()
    }
}

/// The rows of a view as sequences of cells.
pub open spec fn rows_view(rows: Seq<Vec<String>>) -> Seq<Seq<String>> {
    rows.map_values(|r: Vec<String>| r@)
}

/// The texts of a list of strings.
pub open spec fn texts_view(v: Seq<String>) -> Seq<Seq<char>> {
    v.map_values(|s: String| s@)
}

fn header_of(col: &String, sorted: bool, order: SortOrder) -> (r: String)
    ensures
        r@ == col@ + if sorted {
            header_mark(order)
        } else {
            Seq::empty()
        },
{
    let mut r = col.clone();
    if sorted {
        match order {
            SortOrder::Ascending => append_str(&mut r, " ↑"),
            SortOrder::Descending => append_str(&mut r, " ↓"),
            SortOrder::Unsorted => {},
        }
    }
    proof {
        reveal_strlit(" ↑");
        reveal_strlit(" ↓");
    }
    assert(r@ =~= col@ + if sorted {
        header_mark(order)
    } else {
        Seq::empty()
    });
    r
}

fn cells_between(row: &Vec<String>, start: usize, end: usize) -> (r: Vec<String>)
    requires
        start <= row@.len(),
        start <= end,
    ensures
        r@ == shown_cells(row@, start as nat, end as nat),
{
    let stop = if end <= row.len() {
        end
    } else {
        row.len()
    };
    let mut out: Vec<String> = Vec::new();
    let mut k = start;
    while k < stop
        invariant
            start <= k <= stop <= row@.len(),
            out@ == row@.subrange(start as int, k as int),
        decreases stop - k,
    {
        out.push(row[k].clone());
        k = k + 1;
        assert(out@ =~= row@.subrange(start as int, k as int));
    }
    out
}

fn push_column_indicator(s: &mut String, start: usize, end: usize, total: usize, fit: usize)
    requires
        start < usize::MAX,
    ensures
        final(s)@ == old(s)@ + column_indicator(start as nat, end as nat, total as nat, fit as nat),
{
    proof {
        reveal_strlit(" ");
        reveal_strlit("← ");
        reveal_strlit("  ");
        reveal_strlit("Col ");
        reveal_strlit("-");
        reveal_strlit("/");
        reveal_strlit(" →");
    }
    let ghost s0 = s@;
    if total > fit {
        append_str(s, " ");
        if start > 0 {
            append_str(s, "← ");
        } else {
            append_str(s, "  ");
        }
        append_str(s, "Col ");
        push_decimal(s, (start + 1) as u64);
        append_str(s, "-");
        push_decimal(s, end as u64);
        append_str(s, "/");
        push_decimal(s, total as u64);
        if end < total {
            append_str(s, " →");
        } else {
            append_str(s, "  ");
        }
        assert(s@ =~= s0 + column_indicator(start as nat, end as nat, total as nat, fit as nat));
    } else {
        assert(s@ =~= s0 + column_indicator(start as nat, end as nat, total as nat, fit as nat));
    }
}

fn push_page_indicator(s: &mut String, page: usize, pages: usize, start: usize, end: usize, total: usize)
    requires
        page < usize::MAX,
        start < usize::MAX,
    ensures
        final(s)@ == old(s)@ + page_indicator(
            page as nat,
            pages as nat,
            start as nat,
            end as nat,
            total as nat,
        ),
{
    proof {
        reveal_strlit(" Page ");
        reveal_strlit("/");
        reveal_strlit(" (rows ");
        reveal_strlit("-");
        reveal_strlit(" of ");
        reveal_strlit(")");
        reveal_strlit(" ");
        reveal_strlit(" rows");
    }
    let ghost s0 = s@;
    if pages > 1 {
        append_str(s, " Page ");
        push_decimal(s, (page + 1) as u64);
        append_str(s, "/");
        push_decimal(s, pages as u64);
        append_str(s, " (rows ");
        push_decimal(s, (start + 1) as u64);
        append_str(s, "-");
        push_decimal(s, end as u64);
        append_str(s, " of ");
        push_decimal(s, total as u64);
        append_str(s, ")");
    } else {
        append_str(s, " ");
        push_decimal(s, total as u64);
        append_str(s, " rows");
    }
    assert(s@ =~= s0 + page_indicator(
        page as nat,
        pages as nat,
        start as nat,
        end as nat,
        total as nat,
    ));
}

impl ContentPanel {
    fn header_texts(&self, start: usize, end: usize) -> (r: Vec<String>)
        requires
            self.query_result is Some,
            start <= end <= self.result_columns().len(),
        ensures
            texts_view(r@) == self.shown_headers(start as nat, end as nat),
    {
        let result = self.query_result.as_ref().unwrap();
        let mut headers: Vec<String> = Vec::new();
        let mut j = start;
        while j < end
            invariant
                start <= j <= end <= result.columns@.len(),
                result.columns@ == self.result_columns(),
                headers@.len() == j - start,
                forall|k: int|
                    0 <= k < headers@.len() ==> (#[trigger] headers@[k])@ == self.shown_headers(
                        start as nat,
                        end as nat,
                    )[k],
            decreases end - j,
        {
            let sorted = match self.sort_column_index {
                Some(c) => c == j,
                None => false,
            };
            let h = header_of(&result.columns[j], sorted, self.sort_order);
            let ghost idx = j - start;
            assert(self.shown_headers(start as nat, end as nat)[idx] == h@);
            headers.push(h);
            j = j + 1;
        }
        assert(texts_view(headers@) =~= self.shown_headers(start as nat, end as nat));
        headers
    }

    fn page_row_cells(&self, page_start: usize, page_end: usize, start: usize, end: usize) -> (r: Vec<Vec<String>>)
        requires
            page_start == self.page_first(),
            page_end == self.page_last(),
            page_start <= page_end,
            start <= end,
            self.page_rows_reach(start as nat),
        ensures
            rows_view(r@) == self.shown_rows(page_start as nat, page_end as nat, start as nat, end as nat),
    {
        let mut rows: Vec<Vec<String>> = Vec::new();
        let mut k = page_start;
        while k < page_end
            invariant
                page_start == self.page_first(),
                page_end == self.page_last(),
                page_start <= k <= page_end,
                start <= end,
                self.page_rows_reach(start as nat),
                rows_view(rows@) == self.shown_rows(page_start as nat, k as nat, start as nat, end as nat),
            decreases page_end - k,
        {
            match self.get_visible_row(k) {
                Some(row) => {
                    assert(match self.visible_row_index(k as nat) {
                        Some(i) => self.result_rows()[i as int]@.len() >= start,
                        None => true,
                    });
                    let cells = cells_between(row, start, end);
                    rows.push(cells);
                },
                None => {},
            }
            k = k + 1;
            assert(rows_view(rows@) =~= self.shown_rows(
                page_start as nat,
                k as nat,
                start as nat,
                end as nat,
            ));
        }
        rows
    }

    /// The result table for a width of `width` cells, titled after `label`:
    /// the rows of the current page (through sort, filter and search) cut
    /// to the columns that fit from the horizontal scroll on, the headers
    /// with the sort mark, and the page, column and sort indicators.
    pub fn result_table_view(&self, width: u16, label: &str) -> (r: ResultTableView)
        requires
            self.wf(),
            self.query_result is Some,
            self.page_rows_reach(window_start(self.scroll_x as nat, self.result_columns().len())),
        ensures
            self.table_shows(r, label@, width as nat),
    {
        let result = self.query_result.as_ref().unwrap();
        let total_rows = result.rows.len();
        let page_start = self.result_page * self.rows_per_page;
        let page_end = if page_start + self.rows_per_page <= total_rows {
            page_start + self.rows_per_page
        } else {
            total_rows
        };
        let (start, end, fit) = column_window(self.scroll_x, result.columns.len(), width);
        let headers = self.header_texts(start, end);
        let rows = self.page_row_cells(page_start, page_end, start, end);
        let title = self.title_text(label, width, page_start, page_end, start, end, fit);
        ResultTableView { title, headers, rows, equal_widths: end - start <= 3 }
    }

    fn title_text(
        &self,
        label: &str,
        width: u16,
        page_start: usize,
        page_end: usize,
        start: usize,
        end: usize,
        fit: usize,
    ) -> (r: String)
        requires
            self.wf(),
            self.query_result is Some,
            page_start == self.page_first(),
            page_end == self.page_last(),
            start == window_start(self.scroll_x as nat, self.result_columns().len()),
            end == window_end(self.scroll_x as nat, self.result_columns().len(), width as nat),
            fit == fitting_columns(self.result_columns().len(), width as nat),
        ensures
            r@ == self.table_title(label@, width as nat),
    {
        let result = self.query_result.as_ref().unwrap();
        let total_pages = self.total_pages();
        assert(self.result_page <= self.result_page * self.rows_per_page) by (nonlinear_arith)
            requires
                self.rows_per_page >= 1,
        ;
        let mut title = String::new();
        append_str(&mut title, " ");
        append_str(&mut title, label);
        push_page_indicator(
            &mut title,
            self.result_page,
            total_pages,
            page_start,
            page_end,
            result.rows.len(),
        );
        push_column_indicator(&mut title, start, end, result.columns.len(), fit);
        match self.get_sort_info() {
            Some((name, order)) => {
                append_str(&mut title, " [Sort: ");
                append_str(&mut title, name.as_str());
                append_str(&mut title, " ");
                match order {
                    SortOrder::Ascending => append_str(&mut title, "↑"),
                    SortOrder::Descending => append_str(&mut title, "↓"),
                    SortOrder::Unsorted => {},
                }
                append_str(&mut title, "]");
            },
            None => {},
        }
        proof {
            reveal_strlit(" ");
            reveal_strlit(" [Sort: ");
            reveal_strlit("↑");
            reveal_strlit("↓");
            reveal_strlit("]");
        }
        assert(title@ =~= self.table_title(label@, width as nat));
        title
    }
}

/// How a line of a notice is shown.
#[derive(Debug, Clone, Copy, PartialEq, Eq, Structural)]
pub enum Tone {
    Plain,
    Muted,
    Warning,
    Error,
    Strong,
}

/// A line of a notice.
pub struct NoticeLine {
    pub text: String,
    pub tone: Tone,
}

/// What a result view shows: a notice (a title and lines) or the table.
pub enum ResultScreen {
    Notice { title: String, lines: Vec<NoticeLine> },
    Table(ResultTableView),
}

/// The lines of a notice as text and tone.
pub open spec fn lines_view(lines: Seq<NoticeLine>) -> Seq<(Seq<char>, Tone)> {
    lines.map_values(|l: NoticeLine| (l.text@, l.tone))
}

/// A notice is shown with this title and these lines.
pub open spec fn shows_notice(r: ResultScreen, title: Seq<char>, lines: Seq<(Seq<char>, Tone)>) -> bool {
    r matches ResultScreen::Notice { title: t, lines: l } && t@ == title && lines_view(l@) == lines
}

/// The lines shown for a result without rows.
pub open spec fn no_rows_lines(heading: Seq<char>, message: Seq<char>) -> Seq<(Seq<char>, Tone)> {
    seq![
        (Seq::empty(), Tone::Plain),
        (heading, Tone::Strong),
        (Seq::empty(), Tone::Plain),
        (message, Tone::Muted),
        (Seq::empty(), Tone::Plain),
        ("  Press Esc to go back"@, Tone::Warning),
    ]
}

fn line(text: String, tone: Tone) -> (r: NoticeLine)
    ensures
        r.text == text,
        r.tone == tone,
{
    NoticeLine { text, tone }
}

fn no_rows_notice(title: String, heading: String, message: &str) -> (r: ResultScreen)
    ensures
        shows_notice(r, title@, no_rows_lines(heading@, message@)),
{
    let mut lines: Vec<NoticeLine> = Vec::new();
    lines.push(line(String::new(), Tone::Plain));
    lines.push(line(heading, Tone::Strong));
    lines.push(line(String::new(), Tone::Plain));
    lines.push(line(message.to_string(), Tone::Muted));
    lines.push(line(String::new(), Tone::Plain));
    lines.push(line("  Press Esc to go back".to_string(), Tone::Warning));
    proof {
        reveal_strlit("  Press Esc to go back");
    }
    assert(lines_view(lines@) =~= no_rows_lines(heading@, message@));
    ResultScreen::Notice { title, lines }
}

/// The name of the table in a preview view, else `Unknown`.
pub open spec fn preview_name(view: crate::content::ContentView) -> Seq<char> {
    match view {
        crate::content::ContentView::TablePreview { table_name, .. } => table_name@,
        _ => "Unknown"@,
    }
}

impl ContentPanel {
    /// What the query result view shows for a width of `width` cells: a
    /// notice without a result or without rows, else the result table
    /// titled after the question.
    pub fn query_result_screen(&self, width: u16) -> (r: ResultScreen)
        requires
            self.wf(),
            self.page_rows_reach(window_start(self.scroll_x as nat, self.result_columns().len())),
        ensures
            match self.query_result {
                None => shows_notice(
                    r,
                    " Query Result "@,
                    seq![(Seq::empty(), Tone::Plain), ("  No query result available"@, Tone::Muted)],
                ),
                Some(q) => if q.rows@.len() == 0 {
                    shows_notice(
                        r,
                        " Query Result: "@ + q.question_name@ + " (0 rows) "@,
                        no_rows_lines("  Query: "@ + q.question_name@, "  No data returned"@),
                    )
                } else {
                    r matches ResultScreen::Table(t) && self.table_shows(
                        t,
                        q.question_name@,
                        width as nat,
                    )
                },
            },
    {
        proof {
            reveal_strlit(" Query Result ");
            reveal_strlit("  No query result available");
            reveal_strlit(" Query Result: ");
            reveal_strlit(" (0 rows) ");
            reveal_strlit("  Query: ");
            reveal_strlit("");
        }
        match &self.query_result {
            None => {
                let mut lines: Vec<NoticeLine> = Vec::new();
                lines.push(line(String::new(), Tone::Plain));
                lines.push(line("  No query result available".to_string(), Tone::Muted));
                assert(lines_view(lines@) =~= seq![
                    (Seq::<char>::empty(), Tone::Plain),
                    ("  No query result available"@, Tone::Muted),
                ]);
                ResultScreen::Notice { title: " Query Result ".to_string(), lines }
            },
            Some(result) => {
                if result.rows.len() == 0 {
                    let title = text3(" Query Result: ", result.question_name.as_str(), " (0 rows) ");
                    let heading = text3("  Query: ", result.question_name.as_str(), "");
                    no_rows_notice(title, heading, "  No data returned")
                } else {
                    ResultScreen::Table(self.result_table_view(width, result.question_name.as_str()))
                }
            },
        }
    }

    /// What the table preview shows for a width of `width` cells: a notice
    /// while loading or without rows, else the table titled after the
    /// table.
    pub fn table_preview_screen(&self, width: u16) -> (r: ResultScreen)
        requires
            self.wf(),
            self.page_rows_reach(window_start(self.scroll_x as nat, self.result_columns().len())),
        ensures
            match self.query_result {
                None => shows_notice(
                    r,
                    " "@ + preview_name(self.view) + " - Preview "@,
                    seq![
                        (Seq::empty(), Tone::Plain),
                        ("  Loading preview for '"@ + preview_name(self.view) + "'..."@, Tone::Warning),
                    ],
                ),
                Some(q) => if q.rows@.len() == 0 {
                    shows_notice(
                        r,
                        " "@ + preview_name(self.view) + " - Preview (0 rows) "@,
                        no_rows_lines("  Table: "@ + preview_name(self.view), "  No data in table"@),
                    )
                } else {
                    r matches ResultScreen::Table(t) && self.table_shows(
                        t,
                        preview_name(self.view) + " - Preview"@,
                        width as nat,
                    )
                },
            },
    {
        proof {
            reveal_strlit(" ");
            reveal_strlit(" - Preview ");
            reveal_strlit("  Loading preview for '");
            reveal_strlit("'...");
            reveal_strlit(" - Preview (0 rows) ");
            reveal_strlit("  Table: ");
            reveal_strlit("  No data in table");
            reveal_strlit(" - Preview");
            reveal_strlit("Unknown");
            reveal_strlit("");
        }
        let name: &str = match &self.view {
            crate::content::ContentView::TablePreview { table_name, .. } => table_name.as_str(),
            _ => "Unknown",
        };
        match &self.query_result {
            None => {
                let mut lines: Vec<NoticeLine> = Vec::new();
                lines.push(line(String::new(), Tone::Plain));
                lines.push(line(text3("  Loading preview for '", name, "'..."), Tone::Warning));
                assert(lines_view(lines@) =~= seq![
                    (Seq::<char>::empty(), Tone::Plain),
                    ("  Loading preview for '"@ + preview_name(self.view) + "'..."@, Tone::Warning),
                ]);
                ResultScreen::Notice { title: text3(" ", name, " - Preview "), lines }
            },
            Some(result) => {
                if result.rows.len() == 0 {
                    let title = text3(" ", name, " - Preview (0 rows) ");
                    let heading = text3("  Table: ", name, "");
                    no_rows_notice(title, heading, "  No data in table")
                } else {
                    let label = text3("", name, " - Preview");
                    ResultScreen::Table(self.result_table_view(width, label.as_str()))
                }
            },
        }
    }
}

impl ContentPanel {
    /// Whether every visible row of the page reaches the first column
    /// shown (the table cannot be cut otherwise).
    pub fn page_rows_reach_window(&self) -> (r: bool)
        requires
            self.wf(),
        ensures
            r == self.page_rows_reach(window_start(self.scroll_x as nat, self.result_columns().len())),
    {
        let (ncols, nrows) = match &self.query_result {
            Some(q) => (q.columns.len(), q.rows.len()),
            None => (0, 0),
        };
        let (start, _, _) = column_window(self.scroll_x, ncols, 0);
        let page_start = self.result_page * self.rows_per_page;
        let page_end = if page_start + self.rows_per_page <= nrows {
            page_start + self.rows_per_page
        } else {
            nrows
        };
        let mut k = page_start;
        while k < page_end
            invariant
                page_start == self.page_first(),
                page_end == self.page_last(),
                page_start <= k <= page_end,
                start == window_start(self.scroll_x as nat, self.result_columns().len()),
                forall|m: nat|
                    page_start <= m < k ==> match #[trigger] self.visible_row_index(m) {
                        Some(i) => self.result_rows()[i as int]@.len() >= start,
                        None => true,
                    },
            decreases page_end - k,
        {
            match self.get_visible_row(k) {
                Some(row) => {
                    if row.len() < start {
                        assert(match self.visible_row_index(k as nat) {
                            Some(i) => self.result_rows()[i as int]@.len() >= start,
                            None => true,
                        } == false);
                        return false;
                    }
                },
                None => {},
            }
            k = k + 1;
        }
        true
    }
}

fn text3(a: &str, b: &str, c: &str) -> (r: String)
    ensures
        r@ == a@ + b@ + c@,
{
    let mut s = String::new();
    append_str(&mut s, a);
    append_str(&mut s, b);
    append_str(&mut s, c);
    s
}

/// The first column shown, one past the last, and how many fit.
fn column_window(scroll_x: usize, total: usize, width: u16) -> (r: (usize, usize, usize))
    ensures
        r.0 == window_start(scroll_x as nat, total as nat),
        r.1 == window_end(scroll_x as nat, total as nat, width as nat),
        r.2 == fitting_columns(total as nat, width as nat),
        r.0 <= r.1 <= total,
        r.0 < usize::MAX,
{
    let start = if total == 0 {
        0
    } else if scroll_x < total {
        scroll_x
    } else {
        total - 1
    };
    let avail: usize = if width >= 4 {
        (width - 4) as usize
    } else {
        0
    };
    let fit0 = if avail / 15 >= 1 {
        avail / 15
    } else {
        1
    };
    let fit = if fit0 <= total {
        fit0
    } else {
        total
    };
    let end = if fit <= total - start {
        start + fit
    } else {
        total
    };
    (start, end, fit)
}

} // verus!
