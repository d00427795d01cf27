use svtui::app_state::{App, MAX_SCROLL};
use svtui::event_loop::{Action, EventLoop, LoopState, START_PAGE};
use svtui::keys::{Event, Key};
use svtui::svt::{Data, FetchError, Meta, SubPage, SvtResponse};

fn page_of(texts: &[&str]) -> SvtResponse {
    let mut frames = Vec::new();
    for text in texts {
        frames.push(SubPage {
            sub_page_number: String::new(),
            gif_as_base64: String::new(),
            image_map: String::new(),
            alt_text: String::from(*text),
        });
    }
    SvtResponse {
        status: String::from("success"),
        data: Data {
            page_number: String::from("100"),
            prev_page: String::from("100"),
            next_page: String::from("101"),
            sub_pages: frames,
            meta: Meta { updated: String::new() },
        },
    }
}

fn running(input: &str, body: &str, scroll: u16) -> EventLoop {
    EventLoop {
        app: App { input: String::from(input), body: String::from(body), scroll },
        state: LoopState::Running,
    }
}

fn press(event_loop: &mut EventLoop, key: Key) -> Action {
    event_loop.step(Event::Input(key))
}

#[test]
fn the_loop_starts_by_fetching_the_start_page() {
    let (event_loop, action) = EventLoop::start();
    assert_eq!(START_PAGE, "100");
    assert_eq!(action, Action::Fetch(String::from("100")));
    assert_eq!(event_loop, running("100", "", 0));
    assert!(event_loop.is_running());
}

#[test]
fn the_start_page_is_shown_and_the_input_emptied() {
    let (mut event_loop, _) = EventLoop::start();
    let action = event_loop.fetched(&Ok(page_of(&["A", "B"])));
    assert_eq!(action, Action::Redraw);
    assert_eq!(event_loop, running("", "AB", 0));
}

#[test]
fn a_failed_start_names_the_start_page() {
    let (mut event_loop, _) = EventLoop::start();
    let action = event_loop.fetched(&Err(FetchError::Transport(String::from("offline"))));
    assert_eq!(action, Action::Redraw);
    assert_eq!(event_loop, running("", "Could not get page 100. Error: offline", 0));
}

#[test]
fn page_down_then_page_up_returns_to_the_offset() {
    let mut event_loop = running("12", "text", 3);
    for _ in 0..5 {
        assert_eq!(press(&mut event_loop, Key::PageDown), Action::Redraw);
    }
    assert_eq!(event_loop.app.scroll, 8);
    for _ in 0..5 {
        assert_eq!(press(&mut event_loop, Key::PageUp), Action::Redraw);
    }
    assert_eq!(event_loop, running("12", "text", 3));
}

#[test]
fn fewer_page_ups_than_page_downs_leave_the_difference() {
    let mut event_loop = running("", "text", 0);
    for _ in 0..4 {
        press(&mut event_loop, Key::PageDown);
    }
    press(&mut event_loop, Key::PageUp);
    assert_eq!(event_loop.app.scroll, 3);
}

#[test]
fn page_up_at_the_top_changes_nothing() {
    let mut event_loop = running("1", "text", 0);
    assert_eq!(press(&mut event_loop, Key::PageUp), Action::Redraw);
    assert_eq!(event_loop, running("1", "text", 0));
}

#[test]
fn page_down_stops_at_the_largest_offset() {
    let mut event_loop = running("", "", MAX_SCROLL - 1);
    assert_eq!(press(&mut event_loop, Key::PageDown), Action::Redraw);
    assert_eq!(event_loop.app.scroll, MAX_SCROLL);
    assert_eq!(press(&mut event_loop, Key::PageDown), Action::Redraw);
    assert_eq!(event_loop.app.scroll, MAX_SCROLL);
}

#[test]
fn characters_are_appended_to_the_input() {
    let mut event_loop = running("", "text", 2);
    assert_eq!(press(&mut event_loop, Key::Char('3')), Action::Redraw);
    assert_eq!(press(&mut event_loop, Key::Char('7')), Action::Redraw);
    assert_eq!(press(&mut event_loop, Key::Char('7')), Action::Redraw);
    assert_eq!(event_loop, running("377", "text", 2));
}

#[test]
fn backspace_removes_the_last_character() {
    let mut event_loop = running("37å", "text", 2);
    assert_eq!(press(&mut event_loop, Key::Backspace), Action::Redraw);
    assert_eq!(event_loop, running("37", "text", 2));
}

#[test]
fn backspace_on_an_empty_input_changes_nothing() {
    let mut event_loop = running("", "text", 2);
    assert_eq!(press(&mut event_loop, Key::Backspace), Action::Redraw);
    assert_eq!(event_loop, running("", "text", 2));
}

#[test]
fn other_keys_and_ticks_change_nothing_and_redraw() {
    let mut event_loop = running("37", "text", 2);
    assert_eq!(press(&mut event_loop, Key::Other), Action::Redraw);
    assert_eq!(event_loop.step(Event::Tick), Action::Redraw);
    assert_eq!(event_loop, running("37", "text", 2));
}

#[test]
fn confirm_empties_the_page_and_asks_for_the_input() {
    let mut event_loop = running("377", "old text", 5);
    assert_eq!(press(&mut event_loop, Key::Enter), Action::Fetch(String::from("377")));
    assert_eq!(event_loop, running("377", "", 0));
}

#[test]
fn confirm_with_an_empty_input_still_fetches() {
    let mut event_loop = running("", "old text", 5);
    assert_eq!(press(&mut event_loop, Key::Enter), Action::Fetch(String::new()));
    assert_eq!(event_loop, running("", "", 0));
    let action = event_loop.fetched(&Err(FetchError::Protocol(String::from("404"))));
    assert_eq!(action, Action::Redraw);
    assert_eq!(event_loop, running("", "Could not get page . Error: 404", 0));
}

#[test]
fn a_fetched_page_replaces_the_old_one() {
    let mut event_loop = running("101", "old text", 5);
    press(&mut event_loop, Key::Enter);
    let action = event_loop.fetched(&Ok(page_of(&["A", "B"])));
    assert_eq!(action, Action::Redraw);
    assert_eq!(event_loop, running("", "AB", 0));
}

#[test]
fn a_failed_fetch_shows_the_page_and_the_error_and_empties_the_input() {
    let mut event_loop = running("abc", "old text", 5);
    press(&mut event_loop, Key::Enter);
    let result = Err(FetchError::Decode(String::from("expected value at line 1")));
    assert_eq!(event_loop.fetched(&result), Action::Redraw);
    assert_eq!(event_loop.app.body, "Could not get page abc. Error: expected value at line 1");
    assert!(event_loop.app.body.contains("abc"));
    assert!(event_loop.app.body.contains("expected value at line 1"));
    assert_eq!(event_loop.app.input, "");
    assert_eq!(event_loop.app.scroll, 0);
    assert!(event_loop.is_running());
}

#[test]
fn the_loop_goes_on_after_a_failure() {
    let mut event_loop = running("9", "", 0);
    press(&mut event_loop, Key::Enter);
    event_loop.fetched(&Err(FetchError::Transport(String::from("reset"))));
    press(&mut event_loop, Key::Char('1'));
    assert_eq!(press(&mut event_loop, Key::Enter), Action::Fetch(String::from("1")));
    event_loop.fetched(&Ok(page_of(&["one"])));
    assert_eq!(event_loop, running("", "one", 0));
}

#[test]
fn q_leaves_and_is_not_typed() {
    let mut event_loop = running("37", "text", 2);
    assert_eq!(press(&mut event_loop, Key::Char('q')), Action::Leave);
    assert!(!event_loop.is_running());
    assert_eq!(event_loop.state, LoopState::Exiting);
    assert_eq!(event_loop, EventLoop { state: LoopState::Exiting, ..running("37", "text", 2) });
}

#[test]
fn nothing_is_taken_in_after_the_loop_has_ended() {
    let mut event_loop = running("37", "text", 2);
    press(&mut event_loop, Key::Char('q'));
    let ended = event_loop.clone();
    let keys = vec![
        Key::Char('q'),
        Key::Char('1'),
        Key::PageUp,
        Key::PageDown,
        Key::Enter,
        Key::Backspace,
        Key::Other,
    ];
    for key in keys {
        assert_eq!(press(&mut event_loop, key), Action::Nothing);
        assert_eq!(event_loop, ended);
    }
    assert_eq!(event_loop.step(Event::Tick), Action::Nothing);
    assert_eq!(event_loop.fetched(&Ok(page_of(&["A"]))), Action::Nothing);
    assert_eq!(event_loop.fetched(&Err(FetchError::Decode(String::from("d")))), Action::Nothing);
    assert_eq!(event_loop, ended);
}
