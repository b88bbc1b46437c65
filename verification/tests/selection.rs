use mbr::content::{ContentPanel, QueryResultData};

fn panel_with_rows(n: usize) -> ContentPanel {
    let mut panel = ContentPanel::new();
    let mut rows = Vec::new();
    for i in 0..n {
        rows.push(vec![format!("row{}", i), format!("{}", i * 10)]);
    }
    panel.set_query_result(QueryResultData {
        question_id: 1,
        question_name: "Rows".to_string(),
        columns: vec!["Name".to_string(), "Value".to_string()],
        rows,
    });
    panel
}

#[test]
fn selection_starts_empty() {
    let panel = panel_with_rows(3);
    assert!(!panel.has_selection());
    assert_eq!(panel.selected_count(), 0);
    assert!(panel.get_selected_indices().is_empty());
    assert!(panel.get_selected_records().is_empty());
}

#[test]
fn toggle_selects_then_deselects() {
    let mut panel = panel_with_rows(3);
    panel.toggle_row_selection(2);
    assert!(panel.is_row_selected(2));
    assert!(panel.has_selection());
    assert_eq!(panel.selected_count(), 1);
    panel.toggle_row_selection(2);
    assert!(!panel.is_row_selected(2));
    assert!(!panel.has_selection());
    assert_eq!(panel.selected_count(), 0);
}

#[test]
fn selected_indices_come_sorted() {
    let mut panel = panel_with_rows(5);
    panel.toggle_row_selection(4);
    panel.toggle_row_selection(0);
    panel.toggle_row_selection(2);
    assert_eq!(panel.get_selected_indices(), vec![0, 2, 4]);
    assert_eq!(panel.selected_count(), 3);
}

#[test]
fn clear_selection_forgets_rows() {
    let mut panel = panel_with_rows(3);
    panel.toggle_row_selection(0);
    panel.toggle_row_selection(1);
    panel.clear_selection();
    assert!(!panel.has_selection());
    assert_eq!(panel.get_selected_indices(), Vec::<usize>::new());
}

#[test]
fn select_all_without_result_changes_nothing() {
    let mut panel = ContentPanel::new();
    panel.select_all_rows();
    assert!(!panel.has_selection());
}

#[test]
fn select_all_takes_every_row() {
    let mut panel = panel_with_rows(4);
    panel.toggle_row_selection(1);
    panel.select_all_rows();
    assert_eq!(panel.get_selected_indices(), vec![0, 1, 2, 3]);
}

#[test]
fn select_all_follows_the_search() {
    let mut panel = panel_with_rows(4);
    panel.open_result_search();
    for c in "row2".chars() {
        panel.result_search_input_char(c);
    }
    panel.apply_result_search();
    panel.select_all_rows();
    assert_eq!(panel.get_selected_indices(), vec![2]);
}

#[test]
fn extend_selection_from_cursor() {
    let mut panel = panel_with_rows(6);
    // the cursor is on the first row, which becomes the anchor
    panel.extend_selection_to(3);
    assert_eq!(panel.get_selected_indices(), vec![0, 1, 2, 3]);
}

#[test]
fn extend_selection_backwards() {
    let mut panel = panel_with_rows(6);
    panel.select_result_next();
    panel.select_result_next();
    panel.select_result_next();
    panel.select_result_next();
    panel.extend_selection_to(2);
    assert_eq!(panel.get_selected_indices(), vec![2, 3, 4]);
}

#[test]
fn extend_selection_without_cursor_does_nothing() {
    let mut panel = ContentPanel::new();
    panel.extend_selection_to(3);
    assert!(!panel.has_selection());
}

#[test]
fn current_row_index_counts_pages() {
    let mut panel = panel_with_rows(120);
    assert_eq!(panel.get_current_row_index(), Some(0));
    panel.next_page();
    assert_eq!(panel.get_current_row_index(), Some(100));
    let empty = ContentPanel::new();
    assert_eq!(empty.get_current_row_index(), None);
}

#[test]
fn selected_records_pair_columns_and_cells() {
    let mut panel = panel_with_rows(3);
    panel.toggle_row_selection(2);
    panel.toggle_row_selection(0);
    panel.toggle_row_selection(9);
    let records = panel.get_selected_records();
    assert_eq!(records.len(), 2);
    assert_eq!(records[0].0, vec!["Name".to_string(), "Value".to_string()]);
    assert_eq!(records[0].1, vec!["row0".to_string(), "0".to_string()]);
    assert_eq!(records[1].1, vec!["row2".to_string(), "20".to_string()]);
}

#[test]
fn clearing_the_filter_shows_every_row_again() {
    let mut panel = panel_with_rows(5);
    panel.open_filter_modal();
    panel.filter_modal_next_step();
    for c in "row3".chars() {
        panel.filter_modal_input_char(c);
    }
    panel.apply_filter();
    assert_eq!(panel.visible_row_count(), 1);
    panel.clear_filter();
    assert_eq!(panel.visible_row_count(), 5);
}
