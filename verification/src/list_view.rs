//! What the list views show: a title, and a notice (nothing loaded yet,
//! loading, an error, nothing found) or a table of the loaded items.
use vstd::prelude::*;
use crate::content::{ContentPanel, ContentView, InputMode};
use crate::models::{CollectionItem, Database, Question, TableInfo};
use crate::result_view::{lines_view, texts_view, rows_view, NoticeLine, Tone};
use crate::strings::{append_str, concat_str, decimal, push_decimal};
use crate::ui::LoadState;

verus! {

broadcast use vstd::std_specs::vec::group_vec_axioms;

/// The body of a list view.
pub enum ListBody {
    Notice(Vec<NoticeLine>),
    Table { headers: Vec<String>, rows: Vec<Vec<String>> },
}

/// What a list view shows.
pub struct ListScreen {
    pub title: String,
    pub body: ListBody,
}

/// The question search bar: its text, and whether the query is being typed.
pub struct SearchBar {
    pub text: String,
    pub typing: bool,
}

/// The dash shown for a missing value.
pub open spec fn dash() -> Seq<char> {
    "—"@
}

/// An optional text, or the dash.
pub open spec fn or_dash(s: Option<String>) -> Seq<char> {
    match s {
        Some(t) => t@,
        None => dash(),
    }
}

/// The lines of a list that is not loaded: a hint when idle, the loading
/// message, or the error with a hint to retry.
pub open spec fn state_lines<T>(s: LoadState<T>, idle: Seq<char>, loading: Seq<char>) -> Seq<(Seq<char>, Tone)> {
    match s {
        LoadState::Idle => seq![(Seq::empty(), Tone::Plain), ("  "@ + idle, Tone::Muted)],
        LoadState::Loading => seq![(Seq::empty(), Tone::Plain), ("  ⏳ "@ + loading, Tone::Warning)],
        LoadState::Error(m) => seq![
            (Seq::empty(), Tone::Plain),
            ("  ❌ Error: "@ + m@, Tone::Error),
            (Seq::empty(), Tone::Plain),
            ("  Press 'r' to retry"@, Tone::Muted),
        ],
        LoadState::Loaded(_) => Seq::empty(),
    }
}

/// The lines of an empty list, with a hint to go back when asked.
pub open spec fn empty_lines(message: Seq<char>, back_hint: bool) -> Seq<(Seq<char>, Tone)> {
    let first = seq![(Seq::empty(), Tone::Plain), ("  "@ + message, Tone::Muted)];
    if back_hint {
        first + seq![(Seq::empty(), Tone::Plain), ("  Press Esc to go back"@, Tone::Muted)]
    } else {
        first
    }
}

/// The screen shows `title` and a notice with `lines`.
pub open spec fn shows_lines(r: ListScreen, title: Seq<char>, lines: Seq<(Seq<char>, Tone)>) -> bool {
    &&& r.title@ == title
    &&& r.body matches ListBody::Notice(l) && lines_view(l@) == lines
}

/// The screen shows `title` and a table with `headers` and `rows`.
pub open spec fn shows_table(
    r: ListScreen,
    title: Seq<char>,
    headers: Seq<Seq<char>>,
    rows: Seq<Seq<Seq<char>>>,
) -> bool {
    &&& r.title@ == title
    &&& r.body matches ListBody::Table { headers: h, rows: t } && texts_view(h@) == headers
        && rows_view(t@).map_values(|row: Seq<String>| texts_view(row)) == rows
}

/// A question's row in the questions view: id, name, collection.
pub open spec fn question_row(q: Question) -> Seq<Seq<char>> {
    seq![
        decimal(q.id as nat),
        q.name@,
        match q.collection {
            Some(c) => c.name@,
            None => dash(),
        },
    ]
}

/// A question's row in a collection: id, name, description.
pub open spec fn collection_question_row(q: Question) -> Seq<Seq<char>> {
    seq![decimal(q.id as nat), q.name@, or_dash(q.description)]
}

/// A collection's row: id, name, location, description.
pub open spec fn collection_row(c: CollectionItem) -> Seq<Seq<char>> {
    seq![
        match c.id {
            Some(id) => decimal(id as nat),
            None => dash(),
        },
        c.name@,
        match c.location {
            Some(l) => l@,
            None => "/"@,
        },
        or_dash(c.description),
    ]
}

/// A database's row: id, name (marked when a sample), engine, description.
pub open spec fn database_row(d: Database) -> Seq<Seq<char>> {
    seq![
        decimal(d.id as nat),
        d.name@ + if d.is_sample {
            " (sample)"@
        } else {
            Seq::empty()
        },
        or_dash(d.engine),
        or_dash(d.description),
    ]
}

/// A schema's row: its position from one, its name.
pub open spec fn schema_row(i: nat, s: String) -> Seq<Seq<char>> {
    seq![decimal(i + 1), s@]
}

/// A table's row: id, name, display name (the name when none), description.
pub open spec fn table_row(t: TableInfo) -> Seq<Seq<char>> {
    seq![
        decimal(t.id as nat),
        t.name@,
        match t.display_name {
            Some(d) => d@,
            None => t.name@,
        },
        or_dash(t.description),
    ]
}

/// The title of the questions view.
pub open spec fn questions_title(questions: LoadState<Vec<Question>>, search: Option<String>) -> Seq<char> {
    match search {
        Some(q) => match questions {
            LoadState::Loaded(v) => " Questions ("@ + decimal(v@.len()) + ") - Search: \""@ + q@
                + "\" "@,
            _ => " Questions - Search: \""@ + q@ + "\" "@,
        },
        None => match questions {
            LoadState::Loaded(v) => " Questions ("@ + decimal(v@.len()) + ") "@,
            _ => " Questions "@,
        },
    }
}

/// The name in a drill-down view of the given kind, else `Unknown`.
pub open spec fn context_name(view: ContentView) -> Seq<char> {
    match view {
        ContentView::CollectionQuestions { name, .. } => name@,
        ContentView::DatabaseSchemas { db_name, .. } => db_name@,
        ContentView::SchemaTables { schema_name, .. } => schema_name@,
        _ => "Unknown"@,
    }
}

pub(crate) fn notice(lines: Vec<NoticeLine>, title: String) -> (r: ListScreen)
    ensures
        shows_lines(r, title@, lines_view(lines@)),
{
    ListScreen { title, body: ListBody::Notice(lines) }
}

pub(crate) fn push_text(lines: &mut Vec<NoticeLine>, text: String, tone: Tone)
    ensures
        lines_view(final(lines)@) == lines_view(old(lines)@).push((text@, tone)),
{
    lines.push(NoticeLine { text, tone });
    assert(lines_view(lines@) =~= lines_view(old(lines)@).push((text@, tone)));
}

pub(crate) fn push_blank(lines: &mut Vec<NoticeLine>)
    ensures
        lines_view(final(lines)@) == lines_view(old(lines)@).push((Seq::empty(), Tone::Plain)),
{
    push_text(lines, String::new(), Tone::Plain);
}

pub(crate) fn state_notice<T>(s: &LoadState<T>, idle: &str, loading: &str) -> (r: Vec<NoticeLine>)
    requires
        !(s is Loaded),
    ensures
        lines_view(r@) == state_lines(*s, idle@, loading@),
{
    proof {
        reveal_strlit("");
        reveal_strlit("  ");
        reveal_strlit("  ⏳ ");
        reveal_strlit("  ❌ Error: ");
        reveal_strlit("  Press 'r' to retry");
    }
    let mut lines: Vec<NoticeLine> = Vec::new();
    push_blank(&mut lines);
    match s {
        LoadState::Idle => push_text(&mut lines, concat_str("  ", idle), Tone::Muted),
        LoadState::Loading => push_text(&mut lines, concat_str("  ⏳ ", loading), Tone::Warning),
        LoadState::Error(m) => {
            push_text(&mut lines, concat_str("  ❌ Error: ", m.as_str()), Tone::Error);
            push_blank(&mut lines);
            push_text(&mut lines, "  Press 'r' to retry".to_string(), Tone::Muted);
        },
        LoadState::Loaded(_) => {},
    }
    assert(lines_view(lines@) =~= state_lines(*s, idle@, loading@));
    lines
}

pub(crate) fn empty_notice(message: &str, back_hint: bool) -> (r: Vec<NoticeLine>)
    ensures
        lines_view(r@) == empty_lines(message@, back_hint),
{
    proof {
        reveal_strlit("");
        reveal_strlit("  ");
        reveal_strlit("  Press Esc to go back");
    }
    let mut lines: Vec<NoticeLine> = Vec::new();
    push_blank(&mut lines);
    push_text(&mut lines, concat_str("  ", message), Tone::Muted);
    if back_hint {
        push_blank(&mut lines);
        push_text(&mut lines, "  Press Esc to go back".to_string(), Tone::Muted);
    }
    assert(lines_view(lines@) =~= empty_lines(message@, back_hint));
    lines
}

fn headers_of(names: &[&str]) -> (r: Vec<String>)
    ensures
        r@.len() == names@.len(),
        forall|i: int| 0 <= i < names@.len() ==> (#[trigger] r@[i])@ == names@[i]@,
{
    let mut out: Vec<String> = Vec::new();
    let mut i: usize = 0;
    while i < names.len()
        invariant
            0 <= i <= names@.len(),
            out@.len() == i,
            forall|k: int| 0 <= k < i ==> (#[trigger] out@[k])@ == names@[k]@,
        decreases names@.len() - i,
    {
        out.push(names[i].to_string());
        i = i + 1;
    }
    out
}

fn number_text(n: u64) -> (r: String)
    ensures
        r@ == decimal(n as nat),
{
    let mut s = String::new();
    push_decimal(&mut s, n);
    s
}

fn text_or_dash(s: &Option<String>) -> (r: String)
    ensures
        r@ == or_dash(*s),
{
    proof {
        reveal_strlit("—");
    }
    match s {
        Some(t) => t.clone(),
        None => "—".to_string(),
    }
}

fn text3(a: &str, b: &str, c: &str) -> (r: String)
    ensures
        r@ == a@ + b@ + c@,
{
    let mut s = String::new();
    append_str(&mut s, a);
    append_str(&mut s, b);
    append_str(&mut s, c);
    s
}

fn counted_title(a: &str, name: &str, b: &str, n: usize, c: &str) -> (r: String)
    ensures
        r@ == a@ + name@ + b@ + decimal(n as nat) + c@,
{
    let mut s = String::new();
    append_str(&mut s, a);
    append_str(&mut s, name);
    append_str(&mut s, b);
    push_decimal(&mut s, n as u64);
    append_str(&mut s, c);
    s
}

/// The rows of a table, cell by cell, as text.
pub open spec fn cell_rows(rows: Seq<Vec<String>>) -> Seq<Seq<Seq<char>>> {
    rows_view(rows).map_values(|row: Seq<String>| texts_view(row))
}

fn table(title: String, headers: Vec<String>, rows: Vec<Vec<String>>) -> (r: ListScreen)
    ensures
        shows_table(r, title@, texts_view(headers@), cell_rows(rows@)),
{
    ListScreen { title, body: ListBody::Table { headers, rows } }
}

fn row_of(cells: Vec<String>) -> (r: Vec<String>)
    ensures
        r == cells,
{
    cells
}

impl ContentPanel {
    /// The search bar above the questions: the query being typed after a
    /// slash, or the active search with a hint to clear it.
    pub fn search_bar(&self) -> (r: Option<SearchBar>)
        ensures
            self.input_mode == InputMode::Search ==> (r matches Some(b) && b.typing && b.text@
                == "/"@ + self.search_query@),
            self.input_mode != InputMode::Search ==> match self.active_search {
                Some(q) => r matches Some(b) && !b.typing && b.text@ == "Search: "@ + q@
                    + " (Esc to clear)"@,
                None => r is None,
            },
    {
        proof {
            reveal_strlit("/");
            reveal_strlit("");
            reveal_strlit("Search: ");
            reveal_strlit(" (Esc to clear)");
        }
        if matches!(self.input_mode, InputMode::Search) {
            Some(SearchBar { text: text3("/", self.search_query.as_str(), ""), typing: true })
        } else {
            match &self.active_search {
                Some(q) => Some(
                    SearchBar { text: text3("Search: ", q.as_str(), " (Esc to clear)"), typing: false },
                ),
                None => None,
            }
        }
    }

    fn questions_title_text(&self) -> (r: String)
        ensures
            r@ == questions_title(self.questions, self.active_search),
    {
        proof {
            reveal_strlit(" Questions (");
            reveal_strlit(") - Search: \"");
            reveal_strlit("\" ");
            reveal_strlit(" Questions - Search: \"");
            reveal_strlit(") ");
            reveal_strlit(" Questions ");
            reveal_strlit("");
        }
        match (&self.active_search, &self.questions) {
            (Some(q), LoadState::Loaded(v)) => {
                let mut s = counted_title(" Questions (", "", "", v.len(), ") - Search: \"");
                append_str(&mut s, q.as_str());
                append_str(&mut s, "\" ");
                s
            },
            (Some(q), _) => text3(" Questions - Search: \"", q.as_str(), "\" "),
            (None, LoadState::Loaded(v)) => counted_title(" Questions (", "", "", v.len(), ") "),
            (None, _) => " Questions ".to_string(),
        }
    }

    /// What the questions view shows: the title with the count and the
    /// active search, then a notice or the table of id, name and
    /// collection.
    pub fn questions_screen(&self) -> (r: ListScreen)
        ensures
            match self.questions {
                LoadState::Idle => shows_lines(
                    r,
                    questions_title(self.questions, self.active_search),
                    seq![
                        (Seq::empty(), Tone::Plain),
                        ("  Press 'r' to load questions, '/' to search"@, Tone::Muted),
                    ],
                ),
                LoadState::Loading => shows_lines(
                    r,
                    questions_title(self.questions, self.active_search),
                    seq![(Seq::empty(), Tone::Plain), ("  ⏳ Loading questions..."@, Tone::Warning)],
                ),
                LoadState::Error(m) => shows_lines(
                    r,
                    questions_title(self.questions, self.active_search),
                    state_lines(self.questions, Seq::empty(), Seq::empty()),
                ),
                LoadState::Loaded(v) => if v@.len() == 0 {
                    shows_lines(
                        r,
                        questions_title(self.questions, self.active_search),
                        seq![
                            (Seq::empty(), Tone::Plain),
                            (if self.active_search is Some {
                                "  No questions found matching your search"@
                            } else {
                                "  No questions found"@
                            }, Tone::Muted),
                            (Seq::empty(), Tone::Plain),
                            ("  Press '/' to search or Esc to clear search"@, Tone::Muted),
                        ],
                    )
                } else {
                    shows_table(
                        r,
                        questions_title(self.questions, self.active_search),
                        seq!["ID"@, "Name"@, "Collection"@],
                        v@.map_values(|q: Question| question_row(q)),
                    )
                },
            },
    {
        proof {
            reveal_strlit("");
            reveal_strlit("  Press 'r' to load questions, '/' to search");
            reveal_strlit("  ⏳ Loading questions...");
            reveal_strlit("  No questions found matching your search");
            reveal_strlit("  No questions found");
            reveal_strlit("  Press '/' to search or Esc to clear search");
            reveal_strlit("ID");
            reveal_strlit("Name");
            reveal_strlit("Collection");
            reveal_strlit("—");
        }
        let title = self.questions_title_text();
        match &self.questions {
            LoadState::Idle => {
                let mut lines: Vec<NoticeLine> = Vec::new();
                push_blank(&mut lines);
                push_text(&mut lines, "  Press 'r' to load questions, '/' to search".to_string(), Tone::Muted);
                assert(lines_view(lines@) =~= seq![
                    (Seq::<char>::empty(), Tone::Plain),
                    ("  Press 'r' to load questions, '/' to search"@, Tone::Muted),
                ]);
                notice(lines, title)
            },
            LoadState::Loading => {
                let mut lines: Vec<NoticeLine> = Vec::new();
                push_blank(&mut lines);
                push_text(&mut lines, "  ⏳ Loading questions...".to_string(), Tone::Warning);
                assert(lines_view(lines@) =~= seq![
                    (Seq::<char>::empty(), Tone::Plain),
                    ("  ⏳ Loading questions..."@, Tone::Warning),
                ]);
                notice(lines, title)
            },
            LoadState::Error(_) => notice(state_notice(&self.questions, "", ""), title),
            LoadState::Loaded(v) => {
                if v.len() == 0 {
                    let mut lines: Vec<NoticeLine> = Vec::new();
                    push_blank(&mut lines);
                    if self.active_search.is_some() {
                        push_text(&mut lines, "  No questions found matching your search".to_string(), Tone::Muted);
                    } else {
                        push_text(&mut lines, "  No questions found".to_string(), Tone::Muted);
                    }
                    push_blank(&mut lines);
                    push_text(&mut lines, "  Press '/' to search or Esc to clear search".to_string(), Tone::Muted);
                    assert(lines_view(lines@) =~= seq![
                        (Seq::<char>::empty(), Tone::Plain),
                        (if self.active_search is Some {
                            "  No questions found matching your search"@
                        } else {
                            "  No questions found"@
                        }, Tone::Muted),
                        (Seq::<char>::empty(), Tone::Plain),
                        ("  Press '/' to search or Esc to clear search"@, Tone::Muted),
                    ]);
                    notice(lines, title)
                } else {
                    let headers = headers_of(&["ID", "Name", "Collection"]);
                    let mut rows: Vec<Vec<String>> = Vec::new();
                    let mut i: usize = 0;
                    while i < v.len()
                        invariant
                            0 <= i <= v@.len(),
                            rows@.len() == i,
                            forall|k: int| 0 <= k < i ==> texts_view((#[trigger] rows@[k])@) == question_row(v@[k]),
                        decreases v@.len() - i,
                    {
                        let q = &v[i];
                        let collection = match &q.collection {
                            Some(c) => c.name.clone(),
                            None => "—".to_string(),
                        };
                        let row = row_of(vec![number_text(q.id as u64), q.name.clone(), collection]);
                        assert(texts_view(row@) =~= question_row(v@[i as int]));
                        rows.push(row);
                        i = i + 1;
                    }
                    assert(cell_rows(rows@) =~= v@.map_values(|q: Question| question_row(q)));
                    assert(texts_view(headers@) =~= seq!["ID"@, "Name"@, "Collection"@]);
                    table(title, headers, rows)
                }
            },
        }
    }
}

/// The loaded items, none when not loaded.
pub open spec fn loaded_items<T>(s: LoadState<Vec<T>>) -> Seq<T> {
    match s {
        LoadState::Loaded(v) => v@,
        _ => Seq::empty(),
    }
}

/// The rows of collections.
pub open spec fn collection_rows(items: Seq<CollectionItem>) -> Seq<Seq<Seq<char>>> {
    Seq::new(items.len(), |i: int| collection_row(items[i]))
}

/// The rows of databases.
pub open spec fn database_rows(items: Seq<Database>) -> Seq<Seq<Seq<char>>> {
    Seq::new(items.len(), |i: int| database_row(items[i]))
}

/// The rows of a collection's questions.
pub open spec fn collection_question_rows(items: Seq<Question>) -> Seq<Seq<Seq<char>>> {
    Seq::new(items.len(), |i: int| collection_question_row(items[i]))
}

/// The rows of schemas, numbered from one.
pub open spec fn schema_rows(items: Seq<String>) -> Seq<Seq<Seq<char>>> {
    Seq::new(items.len(), |i: int| schema_row(i as nat, items[i]))
}

/// The rows of tables.
pub open spec fn table_rows(items: Seq<TableInfo>) -> Seq<Seq<Seq<char>>> {
    Seq::new(items.len(), |i: int| table_row(items[i]))
}

/// What a list view of `s` shows: while not loaded, `title` with the
/// state's lines; when empty, `empty_title` with `empty`; else the table
/// titled after the count, with `headers` and `rows`.
pub open spec fn list_shows<T>(
    r: ListScreen,
    s: LoadState<Vec<T>>,
    title: Seq<char>,
    idle: Seq<char>,
    loading: Seq<char>,
    empty_title: Seq<char>,
    empty: Seq<(Seq<char>, Tone)>,
    table_title: spec_fn(nat) -> Seq<char>,
    headers: Seq<Seq<char>>,
    rows: Seq<Seq<Seq<char>>>,
) -> bool {
    match s {
        LoadState::Loaded(v) => if v@.len() == 0 {
            shows_lines(r, empty_title, empty)
        } else {
            shows_table(r, table_title(v@.len()), headers, rows)
        },
        _ => shows_lines(r, title, state_lines(s, idle, loading)),
    }
}

impl ContentPanel {
    /// What the collections view shows.
    pub fn collections_screen(&self) -> (r: ListScreen)
        ensures
            list_shows(
                r,
                self.collections,
                " Collections "@,
                "Press 'r' to load collections"@,
                "Loading collections..."@,
                " Collections (0) "@,
                empty_lines("No collections found"@, false),
                |n: nat| " Collections ("@ + decimal(n) + ") "@,
                seq!["ID"@, "Name"@, "Location"@, "Description"@],
                collection_rows(loaded_items(self.collections)),
            ),
    {
        proof {
            reveal_strlit(" Collections (");
            reveal_strlit(") ");
            reveal_strlit("");
            reveal_strlit("ID");
            reveal_strlit("Name");
            reveal_strlit("Location");
            reveal_strlit("Description");
            reveal_strlit("—");
            reveal_strlit("/");
        }
        match &self.collections {
            LoadState::Loaded(v) => {
                if v.len() == 0 {
                    notice(empty_notice("No collections found", false), " Collections (0) ".to_string())
                } else {
                    let mut rows: Vec<Vec<String>> = Vec::new();
                    let mut i: usize = 0;
                    while i < v.len()
                        invariant
                            0 <= i <= v@.len(),
                            rows@.len() == i,
                            forall|k: int| 0 <= k < i ==> texts_view((#[trigger] rows@[k])@) == collection_row(v@[k]),
                        decreases v@.len() - i,
                    {
                        let c = &v[i];
                        let id = match c.id {
                            Some(id) => number_text(id as u64),
                            None => "—".to_string(),
                        };
                        let location = match &c.location {
                            Some(l) => l.clone(),
                            None => "/".to_string(),
                        };
                        let row = row_of(vec![id, c.name.clone(), location, text_or_dash(&c.description)]);
                        assert(texts_view(row@) =~= collection_row(v@[i as int]));
                        rows.push(row);
                        i = i + 1;
                    }
                    let title = counted_title(" Collections (", "", "", v.len(), ") ");
                    let headers = headers_of(&["ID", "Name", "Location", "Description"]);
                    assert(cell_rows(rows@) =~= collection_rows(v@));
                    assert(texts_view(headers@) =~= seq!["ID"@, "Name"@, "Location"@, "Description"@]);
                    table(title, headers, rows)
                }
            },
            _ => notice(
                state_notice(&self.collections, "Press 'r' to load collections", "Loading collections..."),
                " Collections ".to_string(),
            ),
        }
    }

    /// What the databases view shows.
    pub fn databases_screen(&self) -> (r: ListScreen)
        ensures
            list_shows(
                r,
                self.databases,
                " Databases "@,
                "Press 'r' to load databases"@,
                "Loading databases..."@,
                " Databases (0) "@,
                empty_lines("No databases found"@, false),
                |n: nat| " Databases ("@ + decimal(n) + ") "@,
                seq!["ID"@, "Name"@, "Engine"@, "Description"@],
                database_rows(loaded_items(self.databases)),
            ),
    {
        proof {
            reveal_strlit(" Databases (");
            reveal_strlit(") ");
            reveal_strlit("");
            reveal_strlit("ID");
            reveal_strlit("Name");
            reveal_strlit("Engine");
            reveal_strlit("Description");
            reveal_strlit(" (sample)");
        }
        match &self.databases {
            LoadState::Loaded(v) => {
                if v.len() == 0 {
                    notice(empty_notice("No databases found", false), " Databases (0) ".to_string())
                } else {
                    let mut rows: Vec<Vec<String>> = Vec::new();
                    let mut i: usize = 0;
                    while i < v.len()
                        invariant
                            0 <= i <= v@.len(),
                            rows@.len() == i,
                            forall|k: int| 0 <= k < i ==> texts_view((#[trigger] rows@[k])@) == database_row(v@[k]),
                        decreases v@.len() - i,
                    {
                        let d = &v[i];
                        let name = if d.is_sample {
                            concat_str(d.name.as_str(), " (sample)")
                        } else {
                            d.name.clone()
                        };
                        let row = row_of(vec![number_text(d.id as u64), name, text_or_dash(&d.engine), text_or_dash(&d.description)]);
                        assert(name@ =~= d.name@ + if d.is_sample { " (sample)"@ } else { Seq::empty() });
                        assert(texts_view(row@) =~= database_row(v@[i as int]));
                        rows.push(row);
                        i = i + 1;
                    }
                    let title = counted_title(" Databases (", "", "", v.len(), ") ");
                    let headers = headers_of(&["ID", "Name", "Engine", "Description"]);
                    assert(cell_rows(rows@) =~= database_rows(v@));
                    assert(texts_view(headers@) =~= seq!["ID"@, "Name"@, "Engine"@, "Description"@]);
                    table(title, headers, rows)
                }
            },
            _ => notice(
                state_notice(&self.databases, "Press 'r' to load databases", "Loading databases..."),
                " Databases ".to_string(),
            ),
        }
    }

    fn context_name_text(&self) -> (r: &str)
        ensures
            r@ == context_name(self.view),
    {
        proof {
            reveal_strlit("Unknown");
        }
        match &self.view {
            ContentView::CollectionQuestions { name, .. } => name.as_str(),
            ContentView::DatabaseSchemas { db_name, .. } => db_name.as_str(),
            ContentView::SchemaTables { schema_name, .. } => schema_name.as_str(),
            _ => "Unknown",
        }
    }

    /// What the questions of a collection show.
    pub fn collection_questions_screen(&self) -> (r: ListScreen)
        ensures
            list_shows(
                r,
                self.questions,
                " "@ + context_name(self.view) + " "@,
                "Loading questions from '"@ + context_name(self.view) + "'..."@,
                "Loading questions from '"@ + context_name(self.view) + "'..."@,
                " "@ + context_name(self.view) + " (0) "@,
                empty_lines("No questions found in '"@ + context_name(self.view) + "'"@, true),
                |n: nat| " "@ + context_name(self.view) + " ("@ + decimal(n) + ") - Press Esc to go back "@,
                seq!["ID"@, "Name"@, "Description"@],
                collection_question_rows(loaded_items(self.questions)),
            ),
    {
        proof {
            reveal_strlit(" ");
            reveal_strlit(" (");
            reveal_strlit(") - Press Esc to go back ");
            reveal_strlit("ID");
            reveal_strlit("Name");
            reveal_strlit("Description");
        }
        let name = self.context_name_text();
        match &self.questions {
            LoadState::Loaded(v) => {
                if v.len() == 0 {
                    notice(
                        empty_notice(text3("No questions found in '", name, "'").as_str(), true),
                        text3(" ", name, " (0) "),
                    )
                } else {
                    let mut rows: Vec<Vec<String>> = Vec::new();
                    let mut i: usize = 0;
                    while i < v.len()
                        invariant
                            0 <= i <= v@.len(),
                            rows@.len() == i,
                            forall|k: int| 0 <= k < i ==> texts_view((#[trigger] rows@[k])@) == collection_question_row(v@[k]),
                        decreases v@.len() - i,
                    {
                        let q = &v[i];
                        let row = row_of(vec![number_text(q.id as u64), q.name.clone(), text_or_dash(&q.description)]);
                        assert(texts_view(row@) =~= collection_question_row(v@[i as int]));
                        rows.push(row);
                        i = i + 1;
                    }
                    let title = counted_title(" ", name, " (", v.len(), ") - Press Esc to go back ");
                    let headers = headers_of(&["ID", "Name", "Description"]);
                    assert(cell_rows(rows@) =~= collection_question_rows(v@));
                    assert(texts_view(headers@) =~= seq!["ID"@, "Name"@, "Description"@]);
                    table(title, headers, rows)
                }
            },
            _ => {
                let m = text3("Loading questions from '", name, "'...");
                notice(state_notice(&self.questions, m.as_str(), m.as_str()), text3(" ", name, " "))
            },
        }
    }

    /// What the schemas of a database show.
    pub fn database_schemas_screen(&self) -> (r: ListScreen)
        ensures
            list_shows(
                r,
                self.schemas,
                " "@ + context_name(self.view) + " - Schemas "@,
                "Loading schemas from '"@ + context_name(self.view) + "'..."@,
                "Loading schemas from '"@ + context_name(self.view) + "'..."@,
                " "@ + context_name(self.view) + " - Schemas (0) "@,
                empty_lines("No schemas found in '"@ + context_name(self.view) + "'"@, true),
                |n: nat| " "@ + context_name(self.view) + " - Schemas ("@ + decimal(n) + ") - Press Esc to go back "@,
                seq!["#"@, "Schema Name"@],
                schema_rows(loaded_items(self.schemas)),
            ),
    {
        proof {
            reveal_strlit(" ");
            reveal_strlit(" - Schemas (");
            reveal_strlit(") - Press Esc to go back ");
            reveal_strlit("#");
            reveal_strlit("Schema Name");
        }
        let name = self.context_name_text();
        match &self.schemas {
            LoadState::Loaded(v) => {
                if v.len() == 0 {
                    notice(
                        empty_notice(text3("No schemas found in '", name, "'").as_str(), true),
                        text3(" ", name, " - Schemas (0) "),
                    )
                } else {
                    let mut rows: Vec<Vec<String>> = Vec::new();
                    let mut i: usize = 0;
                    while i < v.len()
                        invariant
                            0 <= i <= v@.len(),
                            rows@.len() == i,
                            forall|k: int| 0 <= k < i ==> texts_view((#[trigger] rows@[k])@) == schema_row(k as nat, v@[k]),
                        decreases v@.len() - i,
                    {
                        let row = row_of(vec![number_text((i as u64) + 1), v[i].clone()]);
                        assert(texts_view(row@) =~= schema_row(i as nat, v@[i as int]));
                        rows.push(row);
                        i = i + 1;
                    }
                    let title = counted_title(" ", name, " - Schemas (", v.len(), ") - Press Esc to go back ");
                    let headers = headers_of(&["#", "Schema Name"]);
                    assert(cell_rows(rows@) =~= schema_rows(v@));
                    assert(texts_view(headers@) =~= seq!["#"@, "Schema Name"@]);
                    table(title, headers, rows)
                }
            },
            _ => {
                let m = text3("Loading schemas from '", name, "'...");
                notice(state_notice(&self.schemas, m.as_str(), m.as_str()), text3(" ", name, " - Schemas "))
            },
        }
    }

    /// What the tables of a schema show.
    pub fn schema_tables_screen(&self) -> (r: ListScreen)
        ensures
            list_shows(
                r,
                self.tables,
                " "@ + context_name(self.view) + " - Tables "@,
                "Loading tables from '"@ + context_name(self.view) + "'..."@,
                "Loading tables from '"@ + context_name(self.view) + "'..."@,
                " "@ + context_name(self.view) + " - Tables (0) "@,
                empty_lines("No tables found in '"@ + context_name(self.view) + "'"@, true),
                |n: nat| " "@ + context_name(self.view) + " - Tables ("@ + decimal(n) + ") - Press Esc to go back "@,
                seq!["ID"@, "Name"@, "Display Name"@, "Description"@],
                table_rows(loaded_items(self.tables)),
            ),
    {
        proof {
            reveal_strlit(" ");
            reveal_strlit(" - Tables (");
            reveal_strlit(") - Press Esc to go back ");
            reveal_strlit("ID");
            reveal_strlit("Name");
            reveal_strlit("Display Name");
            reveal_strlit("Description");
        }
        let name = self.context_name_text();
        match &self.tables {
            LoadState::Loaded(v) => {
                if v.len() == 0 {
                    notice(
                        empty_notice(text3("No tables found in '", name, "'").as_str(), true),
                        text3(" ", name, " - Tables (0) "),
                    )
                } else {
                    let mut rows: Vec<Vec<String>> = Vec::new();
                    let mut i: usize = 0;
                    while i < v.len()
                        invariant
                            0 <= i <= v@.len(),
                            rows@.len() == i,
                            forall|k: int| 0 <= k < i ==> texts_view((#[trigger] rows@[k])@) == table_row(v@[k]),
                        decreases v@.len() - i,
                    {
                        let t = &v[i];
                        let display = match &t.display_name {
                            Some(d) => d.clone(),
                            None => t.name.clone(),
                        };
                        let row = row_of(vec![number_text(t.id as u64), t.name.clone(), display, text_or_dash(&t.description)]);
                        assert(texts_view(row@) =~= table_row(v@[i as int]));
                        rows.push(row);
                        i = i + 1;
                    }
                    let title = counted_title(" ", name, " - Tables (", v.len(), ") - Press Esc to go back ");
                    let headers = headers_of(&["ID", "Name", "Display Name", "Description"]);
                    assert(cell_rows(rows@) =~= table_rows(v@));
                    assert(texts_view(headers@) =~= seq!["ID"@, "Name"@, "Display Name"@, "Description"@]);
                    table(title, headers, rows)
                }
            },
            _ => {
                let m = text3("Loading tables from '", name, "'...");
                notice(state_notice(&self.tables, m.as_str(), m.as_str()), text3(" ", name, " - Tables "))
            },
        }
    }
}

} // verus!
