use mbr::app_keys::AppKey;
use mbr::app_state::{
    table_preview_data, App, AppAction, ConnectionStatus, ContentTarget, DataRequest, Effect,
    Fetch,
};
use mbr::content::{ContentView, QueryResultData, SortOrder};
use mbr::app_state::{column_names, scalar_cell_text};
use mbr::models::{CollectionItem, Column, CurrentUser, JsonValue, QueryData, QueryResult, Question};
use mbr::ui::{ActiveTab, KeyCode, KeyEvent, LoadState};

fn question(id: u32, name: &str) -> Question {
    Question {
        id,
        name: name.to_string(),
        description: None,
        collection_id: None,
        collection: None,
    }
}

fn result(rows: usize) -> QueryResultData {
    QueryResultData {
        question_id: 1,
        question_name: "Q1".to_string(),
        columns: vec!["ID".to_string(), "Name".to_string()],
        rows: (0..rows)
            .map(|i| vec![i.to_string(), format!("row {}", i)])
            .collect(),
    }
}

fn key(code: KeyCode) -> KeyEvent {
    KeyEvent::plain(code)
}

fn connected_app() -> App {
    App::new(true, ConnectionStatus::Connecting)
}

#[test]
fn new_app_starts_on_questions() {
    let app = connected_app();
    assert!(!app.should_quit);
    assert_eq!(app.active_tab, ActiveTab::Questions);
    assert_eq!(app.content.current_view(), ContentView::Questions);
    assert!(app.effects.is_empty());
}

#[test]
fn initial_load_asks_for_questions_once() {
    let mut app = connected_app();
    app.queue_initial_load();
    assert_eq!(
        app.effects,
        vec![Effect::Send(AppAction::LoadData(DataRequest::Questions))]
    );
}

#[test]
fn loading_questions_fetches_once_and_counts_them() {
    let mut app = connected_app();
    app.handle_action(AppAction::LoadData(DataRequest::Questions));
    assert_eq!(app.data.questions, LoadState::Loading);
    assert_eq!(app.status_bar.message, "Loading questions...");
    assert_eq!(app.effects, vec![Effect::Fetch(Fetch::Questions { search: None })]);

    // a second request while loading is dropped
    app.handle_action(AppAction::LoadData(DataRequest::Questions));
    assert_eq!(app.effects.len(), 1);

    app.handle_action(AppAction::QuestionsLoaded(vec![question(1, "A"), question(2, "B")]));
    assert_eq!(app.status_bar.message, "Loaded 2 questions");
    assert_eq!(app.content.table_state.selected(), Some(0));
}

#[test]
fn requests_without_server_report_it() {
    let mut app = App::new(false, ConnectionStatus::Error("no config".to_string()));
    app.handle_action(AppAction::LoadData(DataRequest::Databases));
    assert_eq!(app.status_bar.message, "Error: Not connected to Metabase");
    assert!(app.effects.is_empty());
    app.execute_question(3);
    assert_eq!(app.status_bar.message, "Error: Not connected to Metabase");
    assert_eq!(app.current_request_id, 0);
}

#[test]
fn search_request_message_and_fetch() {
    let mut app = connected_app();
    app.handle_action(AppAction::LoadData(DataRequest::SearchQuestions("sales".to_string())));
    assert_eq!(app.status_bar.message, "Searching for 'sales'...");
    assert_eq!(
        app.effects,
        vec![Effect::Fetch(Fetch::Questions {
            search: Some("sales".to_string())
        })]
    );
}

#[test]
fn other_requests_messages() {
    let mut app = connected_app();
    app.handle_action(AppAction::LoadData(DataRequest::QuestionDetails(12)));
    assert_eq!(app.status_bar.message, "Loading question #12...");
    app.handle_action(AppAction::LoadData(DataRequest::Execute(4)));
    assert_eq!(app.status_bar.message, "Executing query #4...");
    app.handle_action(AppAction::LoadData(DataRequest::Tables(2, "public".to_string())));
    assert_eq!(app.status_bar.message, "Loading tables in 'public'...");
    app.handle_action(AppAction::LoadData(DataRequest::TablePreview(2, 9)));
    assert_eq!(app.status_bar.message, "Loading table preview...");
    assert_eq!(
        app.effects.last(),
        Some(&Effect::Fetch(Fetch::TablePreview {
            database_id: 2,
            table_id: 9
        }))
    );
}

#[test]
fn tab_keys_switch_and_ask_for_data() {
    let mut app = connected_app();
    app.handle_key(key(KeyCode::Char('2')));
    assert_eq!(app.active_tab, ActiveTab::Collections);
    assert_eq!(app.content.current_view(), ContentView::Collections);
    assert_eq!(app.status_bar.message, "Viewing: 📁 Collections");
    assert_eq!(
        app.effects,
        vec![Effect::Send(AppAction::LoadData(DataRequest::Collections))]
    );

    app.handle_key(key(KeyCode::Tab));
    assert_eq!(app.active_tab, ActiveTab::Databases);
    app.handle_key(key(KeyCode::BackTab));
    assert_eq!(app.active_tab, ActiveTab::Collections);
    let shift_tab = KeyEvent {
        code: KeyCode::Tab,
        shift: true,
        control: false,
        alt: false,
    };
    app.handle_key(shift_tab);
    assert_eq!(app.active_tab, ActiveTab::Questions);
}

#[test]
fn next_panel_three_times_comes_back() {
    let mut app = connected_app();
    for _ in 0..3 {
        app.handle_action(AppAction::NextPanel);
    }
    assert_eq!(app.active_tab, ActiveTab::Questions);
    app.handle_action(AppAction::PreviousPanel);
    assert_eq!(app.active_tab, ActiveTab::Databases);
}

#[test]
fn quit_keys() {
    let mut app = connected_app();
    app.handle_key(key(KeyCode::Char('q')));
    assert!(app.should_quit);

    let mut app = connected_app();
    let ctrl_c = KeyEvent {
        code: KeyCode::Char('c'),
        shift: false,
        control: true,
        alt: false,
    };
    app.handle_key(ctrl_c);
    assert!(app.should_quit);

    // Esc on a top-level view without search quits
    let mut app = connected_app();
    app.handle_key(key(KeyCode::Esc));
    assert!(app.should_quit);
}

#[test]
fn help_overlay_takes_keys() {
    let mut app = connected_app();
    app.handle_key(key(KeyCode::Char('?')));
    assert!(app.show_help);
    app.handle_key(key(KeyCode::Char('q')));
    assert!(!app.should_quit);
    assert!(app.show_help);
    app.handle_key(key(KeyCode::Esc));
    assert!(!app.show_help);
}

#[test]
fn question_search_typed_and_sent() {
    let mut app = connected_app();
    app.handle_key(key(KeyCode::Char('/')));
    for c in "ab".chars() {
        app.handle_key(key(KeyCode::Char(c)));
    }
    // 'q' is typed, not quitting, while searching
    app.handle_key(key(KeyCode::Char('q')));
    assert!(!app.should_quit);
    assert_eq!(app.content.get_search_query(), "abq");
    app.handle_key(key(KeyCode::Backspace));
    assert_eq!(app.content.get_search_query(), "ab");
    app.handle_key(key(KeyCode::Enter));
    assert_eq!(
        app.effects.last(),
        Some(&Effect::Send(AppAction::LoadData(DataRequest::SearchQuestions(
            "ab".to_string()
        ))))
    );
    assert_eq!(app.content.get_active_search(), Some("ab"));

    // Esc then clears the active search and reloads
    app.handle_key(key(KeyCode::Esc));
    assert_eq!(app.content.get_active_search(), None);
    assert_eq!(
        app.effects.last(),
        Some(&Effect::Send(AppAction::LoadData(DataRequest::Questions)))
    );
    assert!(!app.should_quit);
}

#[test]
fn enter_on_question_runs_it() {
    let mut app = connected_app();
    app.handle_action(AppAction::QuestionsLoaded(vec![question(5, "Revenue"), question(6, "Costs")]));
    app.handle_key(key(KeyCode::Down));
    app.handle_key(key(KeyCode::Enter));
    assert_eq!(app.effects.last(), Some(&Effect::Send(AppAction::ExecuteQuestion(6))));

    app.handle_action(AppAction::ExecuteQuestion(6));
    assert_eq!(app.current_request_id, 1);
    assert_eq!(app.status_bar.message, "Executing 'Costs'...");
    assert_eq!(
        app.effects.last(),
        Some(&Effect::Fetch(Fetch::Execute {
            id: 6,
            request_id: 1,
            question_name: "Costs".to_string()
        }))
    );

    app.handle_action(AppAction::ExecuteQuestion(77));
    assert_eq!(app.status_bar.message, "Executing 'Question #77'...");
}

#[test]
fn only_latest_query_result_is_shown() {
    let mut app = connected_app();
    app.execute_question(1);
    app.execute_question(1);
    assert_eq!(app.current_request_id, 2);

    // answer to the first run: ignored
    app.handle_action(AppAction::QueryResultLoaded(1, result(3)));
    assert_eq!(app.content.current_view(), ContentView::Questions);
    assert!(app.data.query_result.is_none());
    app.handle_action(AppAction::QueryFailed(1, "boom".to_string()));
    assert_eq!(app.status_bar.message, "Executing 'Question #1'...");

    // answer to the latest run: shown
    app.handle_action(AppAction::QueryResultLoaded(2, result(3)));
    assert_eq!(app.content.current_view(), ContentView::QueryResult);
    assert_eq!(app.status_bar.message, "Query 'Q1': 3 rows");
    assert_eq!(app.data.query_result, Some(result(3)));

    app.handle_action(AppAction::QueryFailed(2, "boom".to_string()));
    assert_eq!(app.status_bar.message, "Query failed: boom");
}

#[test]
fn result_detail_opens_and_escape_goes_back() {
    let mut app = connected_app();
    app.execute_question(1);
    app.handle_action(AppAction::QueryResultLoaded(1, result(3)));
    app.handle_key(key(KeyCode::Down));
    app.handle_key(key(KeyCode::Enter));
    assert!(app.show_record_detail);
    let detail = app.record_detail.as_ref().unwrap();
    assert_eq!(detail.values, vec!["1".to_string(), "row 1".to_string()]);

    app.handle_key(key(KeyCode::Char('j')));
    assert_eq!(app.record_detail.as_ref().unwrap().selected_index, 1);
    app.handle_key(key(KeyCode::Char('j')));
    assert_eq!(app.record_detail.as_ref().unwrap().selected_index, 1);
    app.handle_key(key(KeyCode::Up));
    assert_eq!(app.record_detail.as_ref().unwrap().selected_index, 0);
    app.handle_key(key(KeyCode::Enter));
    assert!(!app.show_record_detail);
    assert!(app.record_detail.is_none());

    app.handle_key(key(KeyCode::Esc));
    assert_eq!(app.effects.last(), Some(&Effect::Send(AppAction::BackToQuestions)));
    app.handle_action(AppAction::BackToQuestions);
    assert_eq!(app.content.current_view(), ContentView::Questions);
    assert!(app.data.query_result.is_none());
    assert_eq!(app.status_bar.message, "Returned to Questions list");
}

#[test]
fn sort_dialog_blocks_tab_keys() {
    let mut app = connected_app();
    app.execute_question(1);
    app.handle_action(AppAction::QueryResultLoaded(1, result(2)));
    app.handle_key(key(KeyCode::Char('s')));
    assert!(app.is_modal_active());
    assert_eq!(app.key_step_of(key(KeyCode::Char('2'))), AppKey::Panel);
    app.handle_key(key(KeyCode::Char('2')));
    assert_eq!(app.active_tab, ActiveTab::Questions);
    app.handle_key(key(KeyCode::Enter));
    assert_eq!(app.content.sort_order, SortOrder::Ascending);
    assert!(!app.is_modal_active());
}

#[test]
fn collection_drill_down_and_back() {
    let mut app = connected_app();
    app.handle_key(key(KeyCode::Char('2')));
    let item = CollectionItem {
        id: Some(8),
        name: "Finance".to_string(),
        description: None,
        location: None,
        personal_owner_id: None,
        archived: false,
    };
    app.handle_action(AppAction::CollectionsLoaded(vec![item]));
    assert_eq!(app.status_bar.message, "Loaded 1 collections");
    app.handle_key(key(KeyCode::Enter));
    assert_eq!(
        app.effects.last(),
        Some(&Effect::Send(AppAction::DrillDownCollection(8, "Finance".to_string())))
    );
    app.handle_action(AppAction::DrillDownCollection(8, "Finance".to_string()));
    assert!(app.content.is_collection_questions_view());
    assert_eq!(app.status_bar.message, "Viewing questions in 'Finance'");
    assert_eq!(
        app.effects.last(),
        Some(&Effect::Send(AppAction::LoadData(
            DataRequest::FilterQuestionsByCollection(8)
        )))
    );
    app.handle_action(AppAction::LoadData(DataRequest::FilterQuestionsByCollection(8)));
    assert_eq!(
        app.effects.last(),
        Some(&Effect::Fetch(Fetch::CollectionQuestions { collection_id: 8 }))
    );
    app.handle_action(AppAction::BackToCollections);
    assert_eq!(app.content.current_view(), ContentView::Collections);
    assert_eq!(app.status_bar.message, "Returned to Collections list");
}

#[test]
fn database_schema_table_drill_down() {
    let mut app = connected_app();
    app.handle_action(AppAction::Navigate(ContentTarget::Databases));
    app.handle_action(AppAction::DrillDownDatabase(3, "Main".to_string()));
    assert_eq!(app.status_bar.message, "Viewing schemas in 'Main'");
    app.handle_action(AppAction::SchemasLoaded(vec!["public".to_string()]));
    assert_eq!(app.status_bar.message, "Loaded 1 schemas");
    app.handle_key(key(KeyCode::Enter));
    assert_eq!(
        app.effects.last(),
        Some(&Effect::Send(AppAction::DrillDownSchema("public".to_string())))
    );
    app.handle_action(AppAction::DrillDownSchema("public".to_string()));
    assert!(app.content.is_schema_tables_view());
    assert_eq!(
        app.effects.last(),
        Some(&Effect::Send(AppAction::LoadData(DataRequest::Tables(3, "public".to_string()))))
    );
    app.handle_action(AppAction::DrillDownTable(11, "users".to_string()));
    assert!(app.content.is_table_preview_view());
    assert_eq!(app.status_bar.message, "Loading preview for 'users'...");
    app.handle_action(AppAction::TablePreviewLoaded(table_preview_data(
        11,
        vec!["id".to_string()],
        vec![vec!["1".to_string()], vec!["2".to_string()]],
    )));
    assert_eq!(app.status_bar.message, "Preview: 2 rows loaded");
    assert_eq!(app.content.query_result.as_ref().unwrap().question_name, "Table #11");
    app.handle_action(AppAction::BackToTables);
    assert!(app.content.is_schema_tables_view());
    app.handle_action(AppAction::BackToSchemas);
    assert!(app.content.is_database_schemas_view());
    app.handle_action(AppAction::BackToDatabases);
    assert_eq!(app.content.current_view(), ContentView::Databases);
}

#[test]
fn drill_down_schema_without_database_does_nothing() {
    let mut app = connected_app();
    app.handle_action(AppAction::DrillDownSchema("public".to_string()));
    assert_eq!(app.content.current_view(), ContentView::Questions);
    assert!(app.effects.is_empty());
}

#[test]
fn failures_are_reported_on_their_list() {
    let mut app = connected_app();
    app.handle_action(AppAction::LoadFailed(DataRequest::Collections, "denied".to_string()));
    assert_eq!(app.data.collections, LoadState::Error("denied".to_string()));
    assert_eq!(app.status_bar.message, "Error: denied");

    app.handle_action(AppAction::ShowError("bad".to_string()));
    assert_eq!(app.data.questions, LoadState::Error("bad".to_string()));
    app.handle_action(AppAction::ClearError);
    assert_eq!(app.data.questions, LoadState::Idle);

    assert_eq!(
        Fetch::Execute {
            id: 1,
            request_id: 4,
            question_name: "x".to_string()
        }
        .failure("e".to_string()),
        AppAction::QueryFailed(4, "e".to_string())
    );
    assert_eq!(
        Fetch::Questions {
            search: Some("s".to_string())
        }
        .failure("e".to_string()),
        AppAction::LoadFailed(DataRequest::Questions, "e".to_string())
    );
}

#[test]
fn auth_outcomes() {
    let mut app = connected_app();
    let user = CurrentUser {
        id: 1,
        email: "a@b.c".to_string(),
        first_name: Some("Ann".to_string()),
        last_name: None,
        common_name: None,
        is_superuser: None,
    };
    app.handle_action(AppAction::AuthValidated(user));
    assert_eq!(app.connection_status, ConnectionStatus::Connected("Ann".to_string()));
    assert_eq!(app.status_bar.message, "Connected as Ann");

    app.handle_auth_failed("expired".to_string());
    assert_eq!(app.connection_status, ConnectionStatus::Error("expired".to_string()));
    assert_eq!(app.status_bar.message, "Auth failed: expired");
}

#[test]
fn refresh_reloads_the_view() {
    let mut app = connected_app();
    app.handle_action(AppAction::QuestionsLoaded(vec![question(1, "A")]));
    app.handle_key(key(KeyCode::Char('r')));
    assert_eq!(app.data.questions, LoadState::Idle);
    app.handle_action(AppAction::LoadData(DataRequest::Questions));
    assert_eq!(app.data.questions, LoadState::Loading);
    assert_eq!(app.effects.last(), Some(&Effect::Fetch(Fetch::Questions { search: None })));
}

#[test]
fn status_actions() {
    let mut app = connected_app();
    app.handle_action(AppAction::SetStatus("hello".to_string()));
    assert_eq!(app.status_bar.message, "hello");
    app.handle_action(AppAction::ClearStatus);
    assert_eq!(app.status_bar.message, "");
    app.handle_action(AppAction::Quit);
    assert!(app.should_quit);
}

#[test]
fn scalar_cells_read_as_text() {
    assert_eq!(scalar_cell_text(&JsonValue::Null), Some("—".to_string()));
    assert_eq!(scalar_cell_text(&JsonValue::Bool(true)), Some("true".to_string()));
    assert_eq!(scalar_cell_text(&JsonValue::Bool(false)), Some("false".to_string()));
    assert_eq!(scalar_cell_text(&JsonValue::Number("3.5".to_string())), Some("3.5".to_string()));
    assert_eq!(scalar_cell_text(&JsonValue::String("x y".to_string())), Some("x y".to_string()));
    assert_eq!(scalar_cell_text(&JsonValue::Array(vec![JsonValue::Null])), None);
    assert_eq!(scalar_cell_text(&JsonValue::Object(vec![])), None);
}

#[test]
fn column_names_follow_display_names() {
    let result = QueryResult {
        data: QueryData {
            cols: vec![
                Column { name: "id".to_string(), display_name: "ID".to_string(), base_type: "type/Integer".to_string() },
                Column { name: "nm".to_string(), display_name: "Name".to_string(), base_type: "type/Text".to_string() },
            ],
            rows: vec![],
        },
    };
    assert_eq!(column_names(&result), vec!["ID".to_string(), "Name".to_string()]);
}

#[test]
fn header_captions_and_connection_indicator() {
    assert_eq!(ActiveTab::Questions.caption(), " 1 📋 Questions ");
    assert_eq!(ActiveTab::Databases.caption(), " 3 🗄️ Databases ");
    assert_eq!(ConnectionStatus::Disconnected.indicator(), " ○ ");
    assert_eq!(ConnectionStatus::Connecting.indicator(), " ◐ ");
    assert_eq!(ConnectionStatus::Connected("me".to_string()).indicator(), " ● ");
    assert_eq!(ConnectionStatus::Error("x".to_string()).indicator(), " ✗ ");
}
