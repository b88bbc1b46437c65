use mbr::content::{ContentPanel, QueryResultData};
use mbr::modal_view::{FilterModal, ItemLook};
use mbr::overlays::{CopyMenu, CopyMenuLine, HelpLine, HelpOverlay, StatusBar, StatusTone};

fn panel() -> ContentPanel {
    let mut panel = ContentPanel::new();
    panel.set_query_result(QueryResultData {
        question_id: 3,
        question_name: "Q".to_string(),
        columns: vec!["id".to_string(), "name".to_string()],
        rows: vec![
            vec!["1".to_string(), "alpha".to_string()],
            vec!["2".to_string(), "beta".to_string()],
            vec!["3".to_string(), "alps".to_string()],
        ],
    });
    panel
}

#[test]
fn sort_modal_lists_columns_with_cursor() {
    let mut p = panel();
    p.open_sort_modal();
    let modal = p.sort_modal_view().unwrap();
    assert_eq!(modal.title, " Sort by Column ");
    assert_eq!(modal.items[0].text, "► id");
    assert_eq!(modal.items[0].look, ItemLook::Selected);
    assert_eq!(modal.items[1].text, "  name");
    assert_eq!(modal.items[1].look, ItemLook::Normal);
    assert_eq!(modal.hints, vec![("Enter", ": Select  "), ("Esc", ": Cancel")]);
}

#[test]
fn sort_modal_marks_the_sorted_column() {
    let mut p = panel();
    p.open_sort_modal();
    p.sort_modal_down();
    p.apply_sort();
    p.open_sort_modal();
    p.sort_modal_up();
    let modal = p.sort_modal_view().unwrap();
    assert_eq!(modal.items[1].text, "  name ↑");
    assert_eq!(modal.items[1].look, ItemLook::Marked);
}

#[test]
fn sort_modal_needs_a_result() {
    let p = ContentPanel::new();
    assert!(p.sort_modal_view().is_none());
    assert!(p.filter_modal_view().is_none());
}

#[test]
fn filter_modal_steps() {
    let mut p = panel();
    p.open_filter_modal();
    match p.filter_modal_view().unwrap() {
        FilterModal::Columns(m) => {
            assert_eq!(m.title, " Filter by Column ");
            assert_eq!(m.items[0].text, "► id");
        }
        FilterModal::Input(_) => panic!("expected the column list"),
    }
    p.filter_modal_down();
    p.filter_modal_next_step();
    p.filter_modal_input_char('a');
    p.filter_modal_input_char('l');
    match p.filter_modal_view().unwrap() {
        FilterModal::Input(f) => {
            assert_eq!(f.title, " Filter: name ");
            assert_eq!(f.lines[1], "  Enter filter text (case-insensitive):");
            assert_eq!(f.lines[3], "  al_");
            assert_eq!(f.hints.len(), 3);
        }
        FilterModal::Columns(_) => panic!("expected the text input"),
    }
}

#[test]
fn search_bar_counts_matches() {
    let mut p = panel();
    assert!(p.result_search_bar_view().is_none());
    p.open_result_search();
    p.result_search_input_char('a');
    p.result_search_input_char('l');
    p.result_search_input_char('p');
    let bar = p.result_search_bar_view().unwrap();
    assert_eq!(bar.title, " Search Results (editing) ");
    assert_eq!(bar.input, "alp_");
    p.apply_result_search();
    let bar = p.result_search_bar_view().unwrap();
    assert_eq!(bar.title, " Search Results ");
    assert_eq!(bar.input, "alp");
    assert_eq!(bar.found, " Found: 2 / 3 rows");
}

#[test]
fn help_binding_pads_the_key() {
    match HelpOverlay::format_keybinding("Tab", "Switch between panels") {
        HelpLine::Binding(indent, key, action) => {
            assert_eq!(indent, "    ");
            assert_eq!(key, "Tab           ");
            assert_eq!(key.chars().count(), 14);
            assert_eq!(action, "Switch between panels");
        }
        _ => panic!("expected a binding line"),
    }
    match HelpOverlay::format_keybinding("a key longer than fourteen", "x") {
        HelpLine::Binding(_, key, _) => assert_eq!(key, "a key longer than fourteen"),
        _ => panic!("expected a binding line"),
    }
}

#[test]
fn help_lines_list_both_sections() {
    let lines = HelpOverlay::help_lines();
    assert_eq!(lines.len(), 18);
    assert!(matches!(&lines[0], HelpLine::Blank));
    assert!(matches!(&lines[1], HelpLine::Heading(t) if t == "  Global"));
    assert!(matches!(&lines[2], HelpLine::Rule(_)));
    assert!(matches!(&lines[3], HelpLine::Binding(_, k, a) if k.trim_end() == "q / Esc" && a == "Quit application"));
    assert!(matches!(&lines[9], HelpLine::Heading(t) if t == "  Navigation"));
    assert!(matches!(&lines[15], HelpLine::Binding(_, k, _) if k.trim_end() == "Enter"));
    assert!(matches!(&lines[17], HelpLine::Hint(t) if t == "  Press ? or Esc to close"));
}

#[test]
fn status_bar_shows_bindings_count_and_message() {
    let mut bar = StatusBar::new();
    let texts: Vec<String> = bar.spans().into_iter().map(|s| s.text).collect();
    assert_eq!(texts.len(), 7 * 2 + 6);
    assert_eq!(texts[0], " 1/2/3 ");
    assert_eq!(texts[1], "Tab");
    assert_eq!(texts[2], " │ ");
    bar.set_selection_count(3);
    bar.set_message("Copied".to_string());
    let spans = bar.spans();
    let n = spans.len();
    assert_eq!(spans[n - 3].text, " 3 selected ");
    assert_eq!(spans[n - 3].tone, StatusTone::Count);
    assert_eq!(spans[n - 1].text, "Copied");
    assert_eq!(spans[n - 1].tone, StatusTone::Message);
}

#[test]
fn copy_menu_lines_follow_cursor_and_header() {
    let mut menu = CopyMenu::new(vec!["a".to_string()], vec!["1".to_string()]);
    menu.select_down();
    menu.toggle_header();
    let lines = menu.menu_lines();
    assert_eq!(lines.len(), 9);
    assert!(matches!(&lines[1], CopyMenuLine::Heading(t) if t == "  Format:"));
    assert!(matches!(&lines[2], CopyMenuLine::Format(m, k, l, false) if m == "    " && k == "[j] " && l == "JSON"));
    assert!(matches!(&lines[3], CopyMenuLine::Format(m, k, l, true) if m == "  ► " && k == "[c] " && l == "CSV"));
    assert!(matches!(&lines[6], CopyMenuLine::HeaderSwitch(t) if t == "[ ] Include header"));
    assert!(matches!(&lines[8], CopyMenuLine::Keys));
}

#[test]
fn sorting_under_a_search_orders_the_rows_shown() {
    let mut p = ContentPanel::new();
    p.set_query_result(QueryResultData {
        question_id: 1,
        question_name: "Q".to_string(),
        columns: vec!["name".to_string()],
        rows: vec![
            vec!["zeta".to_string()],
            vec!["bravo".to_string()],
            vec!["alpha".to_string()],
            vec!["yak".to_string()],
            vec!["delta".to_string()],
        ],
    });
    p.open_result_search();
    p.result_search_input_char('a');
    p.apply_result_search();
    p.open_sort_modal();
    p.apply_sort();
    let shown: Vec<String> = (0..p.visible_row_count())
        .map(|i| p.get_visible_row(i).unwrap()[0].clone())
        .collect();
    assert_eq!(shown, vec!["alpha", "bravo", "delta", "yak", "zeta"]);
}
