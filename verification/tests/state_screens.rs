use mbr::list_view::{ListBody, ListScreen};
use mbr::result_view::Tone;
use mbr::state_screens::{
    render_empty, render_empty_with_hint, render_error, render_idle, render_loading,
    render_non_loaded_state, LoadStateConfig,
};
use mbr::ui::LoadState;

fn notice_lines(screen: &ListScreen) -> Vec<(String, Tone)> {
    match &screen.body {
        ListBody::Notice(lines) => lines.iter().map(|l| (l.text.clone(), l.tone)).collect(),
        ListBody::Table { .. } => panic!("expected a notice"),
    }
}

#[test]
fn test_load_state_config_new() {
    let config = LoadStateConfig::new(" Test ", true);
    assert_eq!(config.title, " Test ");
    assert_eq!(config.idle_message, "Press 'r' to load data");
    assert_eq!(config.loading_message, "Loading...");
    assert!(config.focused);
}

#[test]
fn test_load_state_config_unfocused() {
    let config = LoadStateConfig::new(" Test ", false);
    assert!(!config.focused);
}

#[test]
fn test_load_state_config_with_messages() {
    let config = LoadStateConfig::new(" Test ", true)
        .with_idle_message("Custom idle")
        .with_loading_message("Custom loading");
    assert_eq!(config.idle_message, "Custom idle");
    assert_eq!(config.loading_message, "Custom loading");
}

#[test]
fn idle_screen_shows_the_hint() {
    let config = LoadStateConfig::new(" Questions ", true);
    let screen = render_idle(&config);
    assert_eq!(screen.title, " Questions ");
    assert_eq!(
        notice_lines(&screen),
        vec![
            (String::new(), Tone::Plain),
            ("  Press 'r' to load data".to_string(), Tone::Muted),
        ]
    );
}

#[test]
fn loading_screen_shows_the_message() {
    let config = LoadStateConfig::new(" T ", false).with_loading_message("Fetching");
    let screen = render_loading(&config);
    assert_eq!(notice_lines(&screen)[1], ("  ⏳ Fetching".to_string(), Tone::Warning));
}

#[test]
fn error_screen_offers_retry() {
    let config = LoadStateConfig::new(" T ", false);
    let screen = render_error(&config, "timeout");
    assert_eq!(
        notice_lines(&screen),
        vec![
            (String::new(), Tone::Plain),
            ("  ❌ Error: timeout".to_string(), Tone::Error),
            (String::new(), Tone::Plain),
            ("  Press 'r' to retry".to_string(), Tone::Muted),
        ]
    );
}

#[test]
fn empty_screens_show_message_and_hint() {
    let config = LoadStateConfig::new(" T ", false);
    let plain = render_empty(&config, "No items");
    assert_eq!(notice_lines(&plain)[1], ("  No items".to_string(), Tone::Muted));
    assert_eq!(notice_lines(&plain).len(), 2);
    let hinted = render_empty_with_hint(&config, "No items", "Try again");
    assert_eq!(notice_lines(&hinted).len(), 4);
    assert_eq!(notice_lines(&hinted)[3], ("  Try again".to_string(), Tone::Muted));
}

#[test]
fn non_loaded_state_only_when_not_loaded() {
    let config = LoadStateConfig::new(" T ", true).with_idle_message("Hit r");
    let loaded: LoadState<Vec<u32>> = LoadState::Loaded(vec![1]);
    assert!(render_non_loaded_state(&loaded, &config).is_none());
    let idle: LoadState<Vec<u32>> = LoadState::Idle;
    let screen = render_non_loaded_state(&idle, &config).unwrap();
    assert_eq!(notice_lines(&screen)[1], ("  Hit r".to_string(), Tone::Muted));
    let failed: LoadState<Vec<u32>> = LoadState::Error("boom".to_string());
    let screen = render_non_loaded_state(&failed, &config).unwrap();
    assert_eq!(notice_lines(&screen)[1], ("  ❌ Error: boom".to_string(), Tone::Error));
}
