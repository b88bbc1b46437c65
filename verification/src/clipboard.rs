//! Text forms of result records for the clipboard: JSON, CSV and TSV.
use vstd::prelude::*;
use crate::strings::{
    append_str, char_is_lowercase, char_is_uppercase, chars_of, is_lowercase, is_uppercase,
    push_char, ascii_lower, to_ascii_lowercase,
};

verus! {

broadcast use vstd::std_specs::vec::group_vec_axioms;

/// Formats a record can be copied in.
#[derive(Debug, Clone, Copy, PartialEq, Eq, Structural)]
pub enum CopyFormat {
    Json,
    Csv,
    Tsv,
}

impl CopyFormat {
    /// The format offered first.
    pub fn default_format() -> (r: Self)
        ensures
            r == CopyFormat::Json,
    {
        CopyFormat::Json
    }

    /// The name shown for the format.
    pub fn label(&self) -> (r: &'static str)
        ensures
            r@ == match *self {
                CopyFormat::Json => "JSON"@,
                CopyFormat::Csv => "CSV"@,
                CopyFormat::Tsv => "TSV"@,
            },
    {
        match self {
            CopyFormat::Json => "JSON",
            CopyFormat::Csv => "CSV",
            CopyFormat::Tsv => "TSV",
        }
    }

    /// The key that picks the format.
    pub fn key(&self) -> (r: char)
        ensures
            r == match *self {
                CopyFormat::Json => 'j',
                CopyFormat::Csv => 'c',
                CopyFormat::Tsv => 't',
            },
    {
        match self {
            CopyFormat::Json => 'j',
            CopyFormat::Csv => 'c',
            CopyFormat::Tsv => 't',
        }
    }
}

/// A clipboard failure, with its message.
#[derive(Debug, Clone)]
pub struct ClipboardError(pub String);

impl ClipboardError {
    /// The message.
    pub fn to_display_string(&self) -> (r: String)
        ensures
            r@ == self.0@,
    {
        self.0.clone()
    }
}

// === snake_case ===

/// A separator character of words.
pub open spec fn is_separator(c: char) -> bool {
    c == ' ' || c == '-' || c == '_'
}

/// The output after handling character `i` of `chars`, given the output
/// `acc` so far: separators become one `_` (never at the start, never
/// doubled); an upper-case letter is lower-cased and preceded by `_` when
/// the output is not empty, does not end in `_`, and the previous character
/// is lower-case or the next one is; other characters are copied.
pub open spec fn snake_step(chars: Seq<char>, i: int, acc: Seq<char>) -> Seq<char> {
    let c = chars[i];
    if is_separator(c) {
        if acc.len() > 0 && acc.last() != '_' {
            acc.push('_')
        } else {
            acc
        }
    } else if is_uppercase(c) {
        let needs = acc.len() > 0 && acc.last() != '_' && i > 0 && (is_lowercase(chars[i - 1]) || (
        i + 1 < chars.len() && is_lowercase(chars[i + 1])));
        (if needs {
            acc.push('_')
        } else {
            acc
        }).push(ascii_lower(c))
    } else {
        acc.push(c)
    }
}

/// The output after the first `n` characters.
pub open spec fn snake_prefix(chars: Seq<char>, n: nat) -> Seq<char>
    decreases n,
{
    if n == 0 {
        Seq::empty()
    } else {
        snake_step(chars, n - 1, snake_prefix(chars, (n - 1) as nat))
    }
}

/// `s` in snake_case.
pub open spec fn snake_case(s: Seq<char>) -> Seq<char> {
    snake_prefix(s, s.len())
}

/// Convert a name to snake_case ("UserId" → "user_id", "HTTPRequest" →
/// "http_request", "With Spaces" → "with_spaces").
pub fn to_snake_case(s: &str) -> (r: String)
    ensures
        r@ == snake_case(s@),
{
    let mut result = String::new();
    let chars = chars_of(s);
    let len = chars.len();
    let mut i: usize = 0;
    while i < len
        invariant
            len == chars@.len(),
            chars@ == s@,
            0 <= i <= len,
            result@ == snake_prefix(s@, i as nat),
        decreases len - i,
    {
        let c = chars[i];
        let ends_with_underscore = result.as_str().is_empty() == false && last_is_underscore(&result);
        if c == ' ' || c == '-' || c == '_' {
            if !result.as_str().is_empty() && !ends_with_underscore {
                push_char(&mut result, '_');
            }
        } else if char_is_uppercase(c) {
            let needs_underscore = !result.as_str().is_empty() && !ends_with_underscore && (i > 0
                && (char_is_lowercase(chars[i - 1]) || (i + 1 < len && char_is_lowercase(
                chars[i + 1],
            ))));
            if needs_underscore {
                push_char(&mut result, '_');
            }
            push_char(&mut result, to_ascii_lowercase(c));
        } else {
            push_char(&mut result, c);
        }
        i = i + 1;
    }
    result
}

fn last_is_underscore(s: &String) -> (r: bool)
    requires
        s@.len() > 0,
    ensures
        r == (s@.last() == '_'),
{
    let v = chars_of(s.as_str());
    v[v.len() - 1] == '_'
}

// === CSV and TSV ===

/// Join parts with a separator.
pub open spec fn join(parts: Seq<Seq<char>>, sep: Seq<char>) -> Seq<char>
    decreases parts.len(),
{
    if parts.len() == 0 {
        Seq::empty()
    } else if parts.len() == 1 {
        parts[0]
    } else {
        join(parts.drop_last(), sep) + sep + parts.last()
    }
}

/// `s` with every `"` doubled.
pub open spec fn double_quotes(s: Seq<char>) -> Seq<char>
    decreases s.len(),
{
    if s.len() == 0 {
        Seq::empty()
    } else {
        double_quotes(s.drop_last()) + if s.last() == '"' {
            seq!['"', '"']
        } else {
            seq![s.last()]
        }
    }
}

/// A CSV field needs quoting when it holds a comma, a quote, or a line break.
pub open spec fn needs_quotes(s: Seq<char>) -> bool {
    exists|i: int| 0 <= i < s.len() && (s[i] == ',' || s[i] == '"' || s[i] == '\n' || s[i] == '\r')
}

/// A value as a CSV field.
pub open spec fn csv_field(s: Seq<char>) -> Seq<char> {
    if needs_quotes(s) {
        seq!['"'] + double_quotes(s) + seq!['"']
    } else {
        s
    }
}

/// A value as a TSV field: tabs and line breaks become spaces.
pub open spec fn tsv_field(s: Seq<char>) -> Seq<char> {
    s.map_values(|c: char| if c == '\t' || c == '\n' || c == '\r' { ' ' } else { c })
}

/// The fields of a row, each formatted by `csv`.
pub open spec fn row_fields(values: Seq<String>, csv: bool) -> Seq<Seq<char>> {
    values.map_values(|v: String| if csv { csv_field(v@) } else { tsv_field(v@) })
}

/// A row of values as a CSV or TSV line.
pub open spec fn row_line(values: Seq<String>, csv: bool) -> Seq<char> {
    join(row_fields(values, csv), if csv { ","@ } else { "\t"@ })
}

fn csv_escape(v: &str) -> (r: String)
    ensures
        r@ == csv_field(v@),
{
    let cs = chars_of(v);
    let mut quote = false;
    let mut k: usize = 0;
    while k < cs.len()
        invariant
            cs@ == v@,
            0 <= k <= cs@.len(),
            quote == exists|i: int|
                0 <= i < k && (cs@[i] == ',' || cs@[i] == '"' || cs@[i] == '\n' || cs@[i] == '\r'),
        decreases cs@.len() - k,
    {
        let c = cs[k];
        if c == ',' || c == '"' || c == '\n' || c == '\r' {
            quote = true;
        }
        k = k + 1;
    }
    if !quote {
        return v.to_string();
    }
    let mut out = String::new();
    push_char(&mut out, '"');
    let mut i: usize = 0;
    while i < cs.len()
        invariant
            cs@ == v@,
            0 <= i <= cs@.len(),
            out@ == seq!['"'] + double_quotes(cs@.take(i as int)),
        decreases cs@.len() - i,
    {
        assert(cs@.take(i + 1).drop_last() =~= cs@.take(i as int));
        if cs[i] == '"' {
            push_char(&mut out, '"');
            push_char(&mut out, '"');
        } else {
            push_char(&mut out, cs[i]);
        }
        proof {
            let t = cs@.take(i + 1);
            assert(t.last() == cs@[i as int]);
            if cs@[i as int] == '"' {
                assert(double_quotes(t) == double_quotes(cs@.take(i as int)) + seq!['"', '"']);
            } else {
                assert(double_quotes(t) == double_quotes(cs@.take(i as int)) + seq![cs@[i as int]]);
            }
        }
        i = i + 1;
    }
    assert(cs@.take(cs@.len() as int) =~= cs@);
    push_char(&mut out, '"');
    out
}

fn tsv_escape(v: &str) -> (r: String)
    ensures
        r@ == tsv_field(v@),
{
    let cs = chars_of(v);
    let mut out = String::new();
    let mut i: usize = 0;
    while i < cs.len()
        invariant
            cs@ == v@,
            0 <= i <= cs@.len(),
            out@ =~= tsv_field(cs@.take(i as int)),
        decreases cs@.len() - i,
    {
        let c = cs[i];
        if c == '\t' || c == '\n' || c == '\r' {
            push_char(&mut out, ' ');
        } else {
            push_char(&mut out, c);
        }
        i = i + 1;
    }
    assert(cs@.take(cs@.len() as int) =~= cs@);
    out
}

fn escape_row(values: &[String], csv: bool) -> (r: String)
    ensures
        r@ == row_line(values@, csv),
{
    let mut out = String::new();
    let mut i: usize = 0;
    let ghost sep: Seq<char> = if csv { ","@ } else { "\t"@ };
    while i < values.len()
        invariant
            0 <= i <= values@.len(),
            sep == if csv { ","@ } else { "\t"@ },
            out@ == join(row_fields(values@.take(i as int), csv), sep),
        decreases values@.len() - i,
    {
        let field = if csv {
            csv_escape(values[i].as_str())
        } else {
            tsv_escape(values[i].as_str())
        };
        let ghost before = out@;
        if i > 0 {
            if csv {
                append_str(&mut out, ",");
            } else {
                append_str(&mut out, "\t");
            }
        }
        append_str(&mut out, field.as_str());
        proof {
            reveal_strlit(",");
            reveal_strlit("\t");
            let f = row_fields(values@.take(i + 1), csv);
            assert(f.drop_last() =~= row_fields(values@.take(i as int), csv));
            assert(f.last() == field@);
            if i == 0 {
                assert(f.len() == 1);
                assert(out@ =~= join(f, sep));
            } else {
                assert(out@ =~= join(f, sep));
            }
        }
        i = i + 1;
    }
    assert(values@.take(values@.len() as int) =~= values@);
    out
}

/// One record as CSV: the header line when asked, then the values line.
pub fn format_record_csv(columns: &[String], values: &[String], include_header: bool) -> (r: String)
    ensures
        r@ == if include_header {
            row_line(columns@, true) + "\n"@ + row_line(values@, true)
        } else {
            row_line(values@, true)
        },
{
    format_record(columns, values, include_header, true)
}

/// One record as TSV: the header line when asked, then the values line.
pub fn format_record_tsv(columns: &[String], values: &[String], include_header: bool) -> (r: String)
    ensures
        r@ == if include_header {
            row_line(columns@, false) + "\n"@ + row_line(values@, false)
        } else {
            row_line(values@, false)
        },
{
    format_record(columns, values, include_header, false)
}

fn format_record(columns: &[String], values: &[String], include_header: bool, csv: bool) -> (r: String)
    ensures
        r@ == if include_header {
            row_line(columns@, csv) + "\n"@ + row_line(values@, csv)
        } else {
            row_line(values@, csv)
        },
{
    let mut result = String::new();
    if include_header {
        let header = escape_row(columns, csv);
        append_str(&mut result, header.as_str());
        append_str(&mut result, "\n");
    }
    let line = escape_row(values, csv);
    append_str(&mut result, line.as_str());
    proof {
        reveal_strlit("\n");
    }
    result
}

/// The lines of several records: the first record's columns when asked,
/// then each record's values.
pub open spec fn record_lines(records: Seq<(Vec<String>, Vec<String>)>, include_header: bool, csv: bool) -> Seq<Seq<char>> {
    let body = records.map_values(|r: (Vec<String>, Vec<String>)| row_line(r.1@, csv));
    if include_header {
        seq![row_line(records[0].0@, csv)] + body
    } else {
        body
    }
}

/// Several records as lines joined by line breaks; nothing for no records.
pub open spec fn records_text(records: Seq<(Vec<String>, Vec<String>)>, include_header: bool, csv: bool) -> Seq<char> {
    if records.len() == 0 {
        Seq::empty()
    } else {
        join(record_lines(records, include_header, csv), "\n"@)
    }
}

fn format_records(records: &[(Vec<String>, Vec<String>)], include_header: bool, csv: bool) -> (r: String)
    ensures
        r@ == records_text(records@, include_header, csv),
{
    if records.len() == 0 {
        return String::new();
    }
    let ghost lines = record_lines(records@, include_header, csv);
    let ghost nl: Seq<char> = "\n"@;
    let mut result = String::new();
    let mut count: usize = 0;
    if include_header {
        let header = escape_row(records[0].0.as_slice(), csv);
        append_str(&mut result, header.as_str());
        count = 1;
        assert(result@ =~= join(lines.take(1), nl));
    } else {
        assert(result@ =~= join(lines.take(0), nl));
    }
    let ghost offset: nat = count as nat;
    let mut i: usize = 0;
    while i < records.len()
        invariant
            records@.len() > 0,
            lines == record_lines(records@, include_header, csv),
            nl == "\n"@,
            offset == (if include_header { 1nat } else { 0nat }),
            count == offset,
            lines.len() == records@.len() + offset,
            0 <= i <= records@.len(),
            result@ == join(lines.take(i + offset), nl),
        decreases records@.len() - i,
    {
        let line = escape_row(records[i].1.as_slice(), csv);
        if i > 0 || count > 0 {
            append_str(&mut result, "\n");
        }
        append_str(&mut result, line.as_str());
        proof {
            reveal_strlit("\n");
            let t = lines.take(i + 1 + offset);
            assert(t.drop_last() =~= lines.take(i + offset));
            assert(t.last() == lines[i + offset]);
            assert(lines[i + offset] == row_line(records@[i as int].1@, csv));
            if i + offset == 0 {
                assert(result@ =~= join(t, nl));
            } else {
                assert(result@ =~= join(t, nl));
            }
        }
        i = i + 1;
    }
    assert(lines.take((records@.len() + offset) as int) =~= lines);
    result
}

/// Several records as CSV lines (header from the first record's columns
/// when asked); empty for no records.
pub fn format_records_csv(records: &[(Vec<String>, Vec<String>)], include_header: bool) -> (r: String)
    ensures
        r@ == records_text(records@, include_header, true),
{
    format_records(records, include_header, true)
}

/// Several records as TSV lines (header from the first record's columns
/// when asked); empty for no records.
pub fn format_records_tsv(records: &[(Vec<String>, Vec<String>)], include_header: bool) -> (r: String)
    ensures
        r@ == records_text(records@, include_header, false),
{
    format_records(records, include_header, false)
}

// === JSON ===

/// Key/value pairs by their characters.
pub open spec fn pairs_view(pairs: Seq<(String, String)>) -> Seq<(Seq<char>, Seq<char>)> {
    pairs.map_values(|p: (String, String)| (p.0@, p.1@))
}

/// The text `serde_json::to_string_pretty` gives for a JSON object whose
/// members are these key/value strings, inserted in this order into an
/// `IndexMap` (a repeated key keeps its first position and takes the last
/// value).
pub uninterp spec fn pretty_json_object(pairs: Seq<(Seq<char>, Seq<char>)>) -> Seq<char>;

/// The text `serde_json::to_string_pretty` gives for a JSON array of such
/// objects, one per entry.
pub uninterp spec fn pretty_json_array(records: Seq<Seq<(Seq<char>, Seq<char>)>>) -> Seq<char>;

/// `serde_json::to_string_pretty` on an `IndexMap<String, Value>` built
/// from the pairs (values as JSON strings). Serializing a map with string
/// keys does not fail, so the text is always returned; it is named
/// `pretty_json_object` of the pairs.
#[verifier::external_body]
fn json_object_text(pairs: &Vec<(String, String)>) -> (r: Option<String>)
    ensures
        r.is_some(),
        r.unwrap()@ == pretty_json_object(pairs_view(pairs@)),
{
    let obj: indexmap::IndexMap<String, serde_json::Value> = pairs
        .iter()
        .map(|(k, v)| (k.clone(), serde_json::Value::String(v.clone())))
        .collect();
    serde_json::to_string_pretty(&obj).ok()
}

/// `serde_json::to_string_pretty` on a `Vec` of such maps, one per entry;
/// named `pretty_json_array` of the entries.
#[verifier::external_body]
fn json_array_text(records: &Vec<Vec<(String, String)>>) -> (r: Option<String>)
    ensures
        r.is_some(),
        r.unwrap()@ == pretty_json_array(records@.map_values(|p: Vec<(String, String)>| pairs_view(p@))),
{
    let array: Vec<indexmap::IndexMap<String, serde_json::Value>> = records
        .iter()
        .map(|pairs| pairs.iter().map(|(k, v)| (k.clone(), serde_json::Value::String(v.clone()))).collect())
        .collect();
    serde_json::to_string_pretty(&array).ok()
}

/// The JSON members of a record: snake_case column names with their
/// values, as far as both lists go.
pub open spec fn record_pairs(columns: Seq<String>, values: Seq<String>) -> Seq<(Seq<char>, Seq<char>)> {
    Seq::new(
        if columns.len() < values.len() { columns.len() } else { values.len() },
        |i: int| (snake_case(columns[i]@), values[i]@),
    )
}

fn snake_pairs(columns: &[String], values: &[String]) -> (r: Vec<(String, String)>)
    ensures
        pairs_view(r@) == record_pairs(columns@, values@),
{
    let n = if columns.len() < values.len() { columns.len() } else { values.len() };
    let mut out: Vec<(String, String)> = Vec::new();
    let mut i: usize = 0;
    while i < n
        invariant
            n == if columns@.len() < values@.len() { columns@.len() } else { values@.len() },
            0 <= i <= n,
            out@.len() == i,
            forall|k: int| 0 <= k < i ==> (#[trigger] out@[k]).0@ == snake_case(columns@[k]@)
                && out@[k].1@ == values@[k]@,
        decreases n - i,
    {
        let key = to_snake_case(columns[i].as_str());
        out.push((key, values[i].clone()));
        i = i + 1;
    }
    assert(pairs_view(out@) =~= record_pairs(columns@, values@));
    out
}

/// One record as a pretty-printed JSON object with snake_case keys, in
/// column order.
pub fn format_record_json(columns: &[String], values: &[String]) -> (r: String)
    ensures
        r@ == pretty_json_object(record_pairs(columns@, values@)),
{
    let pairs = snake_pairs(columns, values);
    match json_object_text(&pairs) {
        Some(t) => t,
        None => "{}".to_string(),
    }
}

/// Several records as a pretty-printed JSON array of objects.
pub fn format_records_json(records: &[(Vec<String>, Vec<String>)]) -> (r: String)
    ensures
        r@ == pretty_json_array(
            records@.map_values(|rec: (Vec<String>, Vec<String>)| record_pairs(rec.0@, rec.1@)),
        ),
{
    let mut all: Vec<Vec<(String, String)>> = Vec::new();
    let mut i: usize = 0;
    while i < records.len()
        invariant
            0 <= i <= records@.len(),
            all@.len() == i,
            forall|k: int| 0 <= k < i ==> pairs_view((#[trigger] all@[k])@) == record_pairs(
                records@[k].0@,
                records@[k].1@,
            ),
        decreases records@.len() - i,
    {
        let pairs = snake_pairs(records[i].0.as_slice(), records[i].1.as_slice());
        all.push(pairs);
        i = i + 1;
    }
    assert(all@.map_values(|p: Vec<(String, String)>| pairs_view(p@)) =~= records@.map_values(
        |rec: (Vec<String>, Vec<String>)| record_pairs(rec.0@, rec.1@),
    ));
    match json_array_text(&all) {
        Some(t) => t,
        None => "[]".to_string(),
    }
}

} // verus!
