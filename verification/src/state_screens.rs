//! What a list view shows while its data is not there: a hint before
//! loading, the loading message, an error with a hint to retry, or a
//! message for an empty list.
use vstd::prelude::*;
use crate::list_view::{
    empty_lines, empty_notice, notice, push_blank, push_text, shows_lines, state_lines,
    state_notice, ListScreen,
};
use crate::result_view::{lines_view, NoticeLine, Tone};
use crate::strings::concat_str;
use crate::ui::LoadState;

verus! {

/// The title and messages of a list view that may not be loaded yet.
pub struct LoadStateConfig<'a> {
    pub title: &'a str,
    /// Shown before loading starts.
    pub idle_message: &'a str,
    /// Shown while loading.
    pub loading_message: &'a str,
    /// Whether the border is drawn as focused.
    pub focused: bool,
}

impl<'a> LoadStateConfig<'a> {
    /// A configuration with the default messages.
    pub fn new(title: &'a str, focused: bool) -> (r: Self)
        ensures
            r.title == title,
            r.idle_message@ == "Press 'r' to load data"@,
            r.loading_message@ == "Loading..."@,
            r.focused == focused,
    {
        LoadStateConfig {
            title,
            idle_message: "Press 'r' to load data",
            loading_message: "Loading...",
            focused,
        }
    }

    /// The same configuration with another message before loading.
    pub fn with_idle_message(self, message: &'a str) -> (r: Self)
        ensures
            r == (LoadStateConfig { idle_message: message, ..self }),
    {
        LoadStateConfig { idle_message: message, ..self }
    }

    /// The same configuration with another loading message.
    pub fn with_loading_message(self, message: &'a str) -> (r: Self)
        ensures
            r == (LoadStateConfig { loading_message: message, ..self }),
    {
        LoadStateConfig { loading_message: message, ..self }
    }
}

/// The lines of an empty list with a hint below the message.
pub open spec fn hint_lines(message: Seq<char>, hint: Seq<char>) -> Seq<(Seq<char>, Tone)> {
    seq![
        (Seq::empty(), Tone::Plain),
        ("  "@ + message, Tone::Muted),
        (Seq::empty(), Tone::Plain),
        ("  "@ + hint, Tone::Muted),
    ]
}

/// The lines after a failed load: the error and a hint to retry.
pub open spec fn error_lines(message: Seq<char>) -> Seq<(Seq<char>, Tone)> {
    seq![
        (Seq::empty(), Tone::Plain),
        ("  ❌ Error: "@ + message, Tone::Error),
        (Seq::empty(), Tone::Plain),
        ("  Press 'r' to retry"@, Tone::Muted),
    ]
}

/// The view before loading: the idle message.
pub fn render_idle(config: &LoadStateConfig) -> (r: ListScreen)
    ensures
        shows_lines(r, config.title@, state_lines(LoadState::<()>::Idle, config.idle_message@, config.loading_message@)),
{
    let lines = state_notice(&LoadState::<()>::Idle, config.idle_message, config.loading_message);
    notice(lines, config.title.to_string())
}

/// The view while loading: the loading message.
pub fn render_loading(config: &LoadStateConfig) -> (r: ListScreen)
    ensures
        shows_lines(r, config.title@, state_lines(LoadState::<()>::Loading, config.idle_message@, config.loading_message@)),
{
    let lines = state_notice(&LoadState::<()>::Loading, config.idle_message, config.loading_message);
    notice(lines, config.title.to_string())
}

/// The view after a failed load: the error and a hint to retry.
pub fn render_error(config: &LoadStateConfig, error_msg: &str) -> (r: ListScreen)
    ensures
        shows_lines(r, config.title@, error_lines(error_msg@)),
{
    let state = LoadState::<()>::Error(error_msg.to_string());
    let lines = state_notice(&state, config.idle_message, config.loading_message);
    assert(state_lines(state, config.idle_message@, config.loading_message@) =~= error_lines(
        error_msg@,
    ));
    notice(lines, config.title.to_string())
}

/// The view of an empty list: its message.
pub fn render_empty(config: &LoadStateConfig, empty_message: &str) -> (r: ListScreen)
    ensures
        shows_lines(r, config.title@, empty_lines(empty_message@, false)),
{
    notice(empty_notice(empty_message, false), config.title.to_string())
}

/// The view of an empty list: its message and a hint.
pub fn render_empty_with_hint(config: &LoadStateConfig, empty_message: &str, hint_message: &str) -> (r:
    ListScreen)
    ensures
        shows_lines(r, config.title@, hint_lines(empty_message@, hint_message@)),
{
    proof {
        reveal_strlit("  ");
    }
    let mut lines: Vec<NoticeLine> = Vec::new();
    push_blank(&mut lines);
    push_text(&mut lines, concat_str("  ", empty_message), Tone::Muted);
    push_blank(&mut lines);
    push_text(&mut lines, concat_str("  ", hint_message), Tone::Muted);
    assert(lines_view(lines@) =~= hint_lines(empty_message@, hint_message@));
    notice(lines, config.title.to_string())
}

/// The view of data that is not loaded (before loading, while loading, or
/// after an error); `None` once it is loaded.
pub fn render_non_loaded_state<T>(state: &LoadState<T>, config: &LoadStateConfig) -> (r: Option<
    ListScreen,
>)
    ensures
        r is None <==> state is Loaded,
        r matches Some(s) ==> shows_lines(
            s,
            config.title@,
            state_lines(*state, config.idle_message@, config.loading_message@),
        ),
{
    match state {
        LoadState::Loaded(_) => None,
        _ => {
            let lines = state_notice(state, config.idle_message, config.loading_message);
            Some(notice(lines, config.title.to_string()))
        },
    }
}

} // verus!
