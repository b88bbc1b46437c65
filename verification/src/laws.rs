//! Properties that relate several operations of the content panel and the
//! application: what one step undoes of another, and what a sequence of
//! steps leads to.
use vstd::prelude::*;
use crate::app_state::{next_request_id, App, DataRequest, Effect, Fetch};
use crate::content::{increasing, ContentPanel, ContentView, QueryResultData, SortOrder};
use crate::content_select::{lemma_increasing_count, toggled};
use crate::dup::Duplicate;
use crate::memory::chunked;
use crate::config::{url_choice, ConfigService};
use crate::content::rows_len;
use crate::models::QueryResult;
use crate::ui::LoadState;
use crate::content_result::{cell_number, cell_text};
use crate::rows::{key_order, CellOrder};

verus! {

/// Drilling down to a view and going back gives the previous view back,
/// with the remembered views as they were.
pub proof fn law_push_then_pop(
    a: ContentPanel,
    b: ContentPanel,
    c: ContentPanel,
    v: ContentView,
    r: Option<ContentView>,
)
    requires
        b.push_view_post(&a, v),
        c.pop_view_post(&b, r),
    ensures
        r == Some(a.view),
        c.view == a.view,
        c.navigation_stack@ == a.navigation_stack@,
{
    assert(b.navigation_stack@.drop_last() =~= a.navigation_stack@);
}

/// Entering a collection's questions and leaving them gives the previous
/// view back, with the remembered views as they were.
pub proof fn law_collection_round_trip(
    a: ContentPanel,
    b: ContentPanel,
    c: ContentPanel,
    id: u32,
    name: String,
)
    requires
        b.enter_collection_questions_post(&a, id, name),
        c.exit_collection_questions_post(&b),
    ensures
        c.view == a.view,
        c.navigation_stack@ == a.navigation_stack@,
{
    assert(b.navigation_stack@.drop_last() =~= a.navigation_stack@);
}

/// Entering a database's schemas and leaving them gives the previous view
/// back, with the remembered views as they were.
pub proof fn law_database_round_trip(
    a: ContentPanel,
    b: ContentPanel,
    c: ContentPanel,
    id: u32,
    name: String,
)
    requires
        b.enter_database_schemas_post(&a, id, name),
        c.exit_database_schemas_post(&b),
    ensures
        c.view == a.view,
        c.navigation_stack@ == a.navigation_stack@,
{
    assert(b.navigation_stack@.drop_last() =~= a.navigation_stack@);
}

/// Entering a schema's tables and leaving them gives the previous view
/// back, with the remembered views as they were.
pub proof fn law_schema_round_trip(
    a: ContentPanel,
    b: ContentPanel,
    c: ContentPanel,
    id: u32,
    schema: String,
)
    requires
        b.enter_schema_tables_post(&a, id, schema),
        c.exit_schema_tables_post(&b),
    ensures
        c.view == a.view,
        c.navigation_stack@ == a.navigation_stack@,
{
    assert(b.navigation_stack@.drop_last() =~= a.navigation_stack@);
}

/// Opening a table preview and leaving it gives the previous view back,
/// with the remembered views as they were, and no result kept.
pub proof fn law_preview_round_trip(
    a: ContentPanel,
    b: ContentPanel,
    c: ContentPanel,
    db: u32,
    table: u32,
    name: String,
)
    requires
        b.enter_table_preview_post(&a, db, table, name),
        c.exit_table_preview_post(&b),
    ensures
        c.view == a.view,
        c.navigation_stack@ == a.navigation_stack@,
        c.query_result is None,
        c.result_page == 0 && c.scroll_x == 0,
        c.sort_indices is None && c.sort_order == SortOrder::Unsorted,
        c.filter_indices is None && c.result_search_indices is None,
{
    assert(b.navigation_stack@.drop_last() =~= a.navigation_stack@);
}

/// Showing a query result and going back to the questions gives the
/// previous view back, at the same depth, and clears the result with its
/// page, scroll, sort, filter and search.
pub proof fn law_result_round_trip(
    a: ContentPanel,
    b: ContentPanel,
    c: ContentPanel,
    data: QueryResultData,
)
    requires
        b.set_query_result_post(&a, data),
        c.back_to_questions_post(&b),
    ensures
        c.view == a.view,
        c.navigation_stack@ == a.navigation_stack@,
        c.query_result is None,
        c.result_page == 0 && c.scroll_x == 0,
        c.sort_indices is None && c.sort_order == SortOrder::Unsorted,
        c.filter_indices is None && c.result_search_indices is None,
{
    assert(b.navigation_stack@.drop_last() =~= a.navigation_stack@);
}

/// Typing a character into the question search and deleting it gives the
/// query back.
pub proof fn law_search_type_then_delete(a: ContentPanel, b: ContentPanel, c: ContentPanel, ch: char)
    requires
        b.handle_search_input_post(&a, ch),
        c.handle_search_backspace_post(&b),
    ensures
        c.search_query@ == a.search_query@,
{
    assert(b.search_query@.drop_last() =~= a.search_query@);
}

/// Sorting by a column that is not sorted yet, three times with the same
/// column under the cursor: ascending, then descending, then unsorted.
pub proof fn law_sort_cycle(a: ContentPanel, b: ContentPanel, c: ContentPanel, d: ContentPanel)
    requires
        a.sort_column_index != Some(a.sort_modal_selection),
        b.apply_sort_post(&a),
        c.apply_sort_post(&b),
        d.apply_sort_post(&c),
    ensures
        b.sort_order == SortOrder::Ascending && b.sort_column_index == Some(a.sort_modal_selection),
        c.sort_order == SortOrder::Descending && c.sort_column_index == Some(a.sort_modal_selection),
        d.sort_order == SortOrder::Unsorted && d.sort_column_index is None,
{
}

/// Going to the next page and back returns to the page, when there was a
/// next page.
pub proof fn law_next_then_previous_page(a: ContentPanel, b: ContentPanel, c: ContentPanel)
    requires
        a.page_count() > 0,
        a.result_page + 1 < a.page_count(),
        b.next_page_post(&a),
        c.prev_page_post(&b),
    ensures
        c.result_page == a.result_page,
{
}

/// Only the latest question run is shown: once a run is started, the
/// answer to the run before it leaves the application unchanged.
pub proof fn law_stale_result_ignored(
    o: App,
    p: App,
    q: App,
    id: u32,
    data: QueryResultData,
)
    requires
        o.has_service,
        p.execute_question_post(&o, id),
        q.query_result_loaded_post(&p, o.current_request_id, data),
    ensures
        q.unchanged(&p),
{
    assert(next_request_id(o.current_request_id) != o.current_request_id);
}

/// The answer to the latest run is shown.
pub proof fn law_latest_result_shown(
    o: App,
    p: App,
    q: App,
    id: u32,
    data: QueryResultData,
)
    requires
        o.has_service,
        p.execute_question_post(&o, id),
        q.query_result_loaded_post(&p, p.current_request_id, data),
    ensures
        q.content.query_result == Some(data),
        q.content.view == ContentView::QueryResult,
{
}

/// At most one load of the questions is under way: asking for them a
/// second time before the first answer changes nothing.
pub proof fn law_one_questions_load(o: App, p: App, q: App)
    requires
        p.data_request_post(&o, DataRequest::Questions),
        q.data_request_post(&p, DataRequest::Questions),
        o.has_service,
    ensures
        q.unchanged(&p),
        p.effects@.len() <= o.effects@.len() + 1,
{
}

/// A refresh of the questions view fetches the questions anew, even when
/// they were loaded already.
pub proof fn law_refresh_fetches(o: App, p: App, q: App)
    requires
        o.has_service,
        o.content.view == ContentView::Questions,
        p.refresh_post(&o),
        q.data_request_post(&p, DataRequest::Questions),
    ensures
        q.data.questions is Loading,
        q.effects@.last() == Effect::Fetch(Fetch::Questions { search: None }),
{
    assert(p.data.questions == LoadState::<Vec<crate::models::Question>>::Idle);
}

/// Toggling the same row twice leaves the selection as it was, and each
/// toggle flips whether that row is selected.
pub proof fn law_toggle_twice(a: ContentPanel, b: ContentPanel, c: ContentPanel, row: usize)
    requires
        b.selection() == toggled(a.selection(), row),
        c.selection() == toggled(b.selection(), row),
    ensures
        b.selection().contains(row) == !a.selection().contains(row),
        c.selection() == a.selection(),
{
    assert(c.selection() =~= a.selection());
}

/// The selected indices name each selected row once: there are as many of
/// them as the selection count.
pub proof fn law_indices_match_count(p: ContentPanel, r: Seq<usize>)
    requires
        p.wf(),
        increasing(r),
        r.to_set() == p.selection(),
    ensures
        r.len() == p.selection().len(),
{
    lemma_increasing_count(r);
}

/// The rows of the chunks, one chunk after another.
pub open spec fn rows_in(chunks: Seq<QueryResult>) -> nat
    decreases chunks.len(),
{
    if chunks.len() == 0 {
        0
    } else {
        rows_in(chunks.drop_last()) + chunks.last().data.rows@.len()
    }
}

proof fn lemma_chunk_prefix(result: QueryResult, cs: usize, r: Seq<QueryResult>, m: nat)
    requires
        cs > 0,
        cs < result.data.rows@.len(),
        chunked(result, cs, r),
        m <= r.len(),
    ensures
        rows_in(r.take(m as int)) == if m * cs < result.data.rows@.len() {
            m * cs
        } else {
            result.data.rows@.len() as int
        },
    decreases m,
{
    let n = result.data.rows@.len();
    let c = cs as nat;
    if m == 0 {
        assert(r.take(0) =~= Seq::<QueryResult>::empty());
    } else {
        let p = (m - 1) as nat;
        lemma_chunk_prefix(result, cs, r, p);
        assert(r.take(m as int).drop_last() =~= r.take(p as int));
        assert(p * c < n) by {
            assert(p < (n + c - 1) / c as int);
            assert(p * c < n) by (nonlinear_arith)
                requires
                    p < (n + c - 1) / c as int,
                    c > 0,
            ;
        }
        let start = p * c;
        let end: int = if start + c < n { (start + c) as int } else { n as int };
        let k = p as int;
        assert(r[k].data.cols.same(&result.data.cols));
        assert(r[k].data.rows@.len() == end - start);
        assert(m * c == p * c + c) by (nonlinear_arith)
            requires
                m == p + 1,
        ;
    }
}

/// Splitting a result into chunks keeps every row: together the chunks
/// hold as many rows as the result.
pub proof fn law_chunks_keep_rows(result: QueryResult, chunk_size: usize, r: Seq<QueryResult>)
    requires
        chunk_size > 0 || result.data.rows@.len() == 0,
        chunked(result, chunk_size, r),
    ensures
        rows_in(r) == result.data.rows@.len(),
{
    let n = result.data.rows@.len();
    if chunk_size >= n {
        assert(r.drop_last() =~= Seq::<QueryResult>::empty());
        assert(r.last() == r[0]);
        assert(r[0].data.rows.same(&result.data.rows));
        assert(r[0].data.rows@.len() == n);
        assert(rows_in(r.drop_last()) == 0);
    } else {
        let c = chunk_size as nat;
        lemma_chunk_prefix(result, chunk_size, r, r.len());
        assert(r.take(r.len() as int) =~= r);
        assert(r.len() * c >= n) by (nonlinear_arith)
            requires
                r.len() == (n + c - 1) / c as int,
                c > 0,
        ;
    }
}

/// After the URL is set, it is the URL the service gives, whatever the
/// environment holds.
pub proof fn law_set_url_then_get(a: ConfigService, b: ConfigService, url: String)
    requires
        b.config.url == Some(url),
        b.env_url == a.env_url,
    ensures
        url_choice(b.config.url, b.env_url) == Some(url),
        url_choice(b.config.url, b.env_url) is Some,
{
}

/// Clearing the column filter shows again every row the search lets
/// through (all rows without a search).
pub proof fn law_clear_filter_shows_searched_rows(a: ContentPanel, b: ContentPanel)
    requires
        b.clear_filter_post(&a),
    ensures
        b.visible_count() == match a.result_search_indices {
            Some(s) => s@.len(),
            None => rows_len(a.query_result),
        },
{
}

/// The sort key of result row `i` for column `col`.
pub open spec fn row_key(p: ContentPanel, i: nat, col: nat) -> (Seq<char>, crate::rows::CellNumber) {
    (cell_text(p.result_rows(), i, col), cell_number(p.cell_numbers@, i, col))
}

/// Under a sort, the rows shown one after another (through the filter, or
/// the search, or neither) are in order of the sorted column.
pub proof fn law_visible_rows_sorted(p: ContentPanel, si: Vec<usize>, col: nat, k: int)
    requires
        p.wf(),
        p.sort_indices == Some(si),
        p.sorts_rows(si@, col),
        0 <= k,
        k + 1 < p.visible_count(),
    ensures
        p.visible_row_index(k as nat) matches Some(i) && p.visible_row_index((k + 1) as nat) matches Some(j)
            && key_order(row_key(p, i, col), row_key(p, j, col), p.sort_order == SortOrder::Descending)
            != CellOrder::Greater,
{
    let a = si@[k];
    let b = si@[k + 1];
    assert(a < p.visible_count() && b < p.visible_count());
    assert(p.sort_keys(col)[a as int] == row_key(p, p.sort_row(a as nat), col));
    assert(p.sort_keys(col)[b as int] == row_key(p, p.sort_row(b as nat), col));
}

/// A limit of zero megabytes is never met: every estimate is at least one
/// megabyte.
pub proof fn law_zero_limit_never_fits(q: crate::models::QueryData)
    ensures
        !(crate::memory::result_mb(q) <= 0),
        crate::memory::result_mb(q) >= 1,
{
}

proof fn lemma_megabytes_mono(a: nat, b: nat)
    requires
        a <= b,
    ensures
        crate::memory::megabytes(a) <= crate::memory::megabytes(b),
{
    vstd::arithmetic::div_mod::lemma_div_is_ordered(a as int, b as int, 1048576);
}

/// The parts of a memory report fit together: the column and row
/// megabytes are each at most the total, and the total at most the
/// estimate of the result (which adds a tenth); each is at least one.
pub proof fn law_memory_report_bounds(q: crate::models::QueryData)
    ensures
        crate::memory::megabytes(crate::memory::columns_bytes(q.cols@, q.cols@.len()))
            <= crate::memory::megabytes(crate::memory::data_bytes(q)),
        crate::memory::megabytes(crate::memory::rows_bytes(q.rows@, q.cols@.len()))
            <= crate::memory::megabytes(crate::memory::data_bytes(q)),
        crate::memory::megabytes(crate::memory::data_bytes(q)) <= crate::memory::result_mb(q),
        crate::memory::megabytes(crate::memory::columns_bytes(q.cols@, q.cols@.len())) >= 1,
        crate::memory::megabytes(crate::memory::rows_bytes(q.rows@, q.cols@.len())) >= 1,
{
    let c = crate::memory::columns_bytes(q.cols@, q.cols@.len());
    let r = crate::memory::rows_bytes(q.rows@, q.cols@.len());
    let d = crate::memory::data_bytes(q);
    lemma_megabytes_mono(c, d);
    lemma_megabytes_mono(r, d);
    lemma_megabytes_mono(d, d + d / 10);
}

/// Copying a single record as several gives the same text as copying it
/// alone, in CSV and in TSV, with or without the header.
pub proof fn law_one_record_as_many(columns: Vec<String>, values: Vec<String>, include_header: bool, csv: bool)
    ensures
        crate::clipboard::records_text(seq![(columns, values)], include_header, csv) == if include_header {
            crate::clipboard::row_line(columns@, csv) + "\n"@ + crate::clipboard::row_line(values@, csv)
        } else {
            crate::clipboard::row_line(values@, csv)
        },
{
    let recs = seq![(columns, values)];
    let lines = crate::clipboard::record_lines(recs, include_header, csv);
    let v = crate::clipboard::row_line(values@, csv);
    let body = recs.map_values(|r: (Vec<String>, Vec<String>)| crate::clipboard::row_line(r.1@, csv));
    assert(body =~= seq![v]);
    if include_header {
        let c = crate::clipboard::row_line(columns@, csv);
        assert(lines =~= seq![c, v]);
        assert(lines.drop_last() =~= seq![c]);
        assert(crate::clipboard::join(seq![c], "\n"@) == c);
    } else {
        assert(lines =~= seq![v]);
    }
}

} // verus!
