//! Tests of tab navigation, input modes, the tick counter and the bounded
//! history.

use proven_tui::app::App;
use proven_tui::app::Event;
use proven_tui::app::InputMode;
use proven_tui::app::Key;
use proven_tui::app::KeyPress;
use proven_tui::app::Tab;

fn key(code: Key) -> KeyPress {
    KeyPress { code, ctrl: false }
}

fn type_line(app: &mut App, text: &str) {
    for c in text.chars() {
        assert!(!app.handle_key(key(Key::Char(c))));
    }
    assert!(!app.handle_key(key(Key::Enter)));
}

#[test]
fn tab_next_cycles_in_five_steps() {
    for start in [Tab::Home, Tab::SafeMath, Tab::Validation, Tab::Bounded, Tab::About] {
        let mut t = start;
        for _ in 0..5 {
            t = t.next();
        }
        assert_eq!(t, start);
    }
}

#[test]
fn tab_previous_inverts_next() {
    for t in [Tab::Home, Tab::SafeMath, Tab::Validation, Tab::Bounded, Tab::About] {
        assert_eq!(t.next().previous(), t);
        assert_eq!(t.previous().next(), t);
    }
}

#[test]
fn tab_titles_and_order() {
    let all = Tab::all();
    assert_eq!(all.len(), 5);
    assert_eq!(all[0], Tab::Home);
    assert_eq!(all[4], Tab::About);
    assert_eq!(Tab::Home.title(), "Home");
    assert_eq!(Tab::SafeMath.title(), "Safe Math");
    assert_eq!(Tab::Bounded.title(), "Bounded Types");
}

#[test]
fn quit_keys_terminate() {
    let mut app = App::new();
    assert!(app.handle_key(key(Key::Char('q'))));
    let mut app = App::new();
    assert!(app.handle_key(KeyPress { code: Key::Char('c'), ctrl: true }));
    let mut app = App::new();
    assert!(!app.handle_key(key(Key::Char('c'))));
}

#[test]
fn digit_keys_jump_to_tabs() {
    let mut app = App::new();
    assert!(!app.handle_key(key(Key::Char('3'))));
    assert_eq!(app.current_tab, Tab::Validation);
    assert!(!app.handle_key(key(Key::Tab)));
    assert_eq!(app.current_tab, Tab::Bounded);
    assert!(!app.handle_key(key(Key::BackTab)));
    assert_eq!(app.current_tab, Tab::Validation);
}

#[test]
fn selected_item_never_goes_negative() {
    let mut app = App::new();
    assert_eq!(app.selected_item, 0);
    for _ in 0..3 {
        app.handle_key(key(Key::Up));
        assert_eq!(app.selected_item, 0);
        app.handle_key(key(Key::Char('k')));
        assert_eq!(app.selected_item, 0);
    }
    app.handle_key(key(Key::Down));
    app.handle_key(key(Key::Char('j')));
    assert_eq!(app.selected_item, 2);
    app.handle_key(key(Key::Up));
    assert_eq!(app.selected_item, 1);
}

#[test]
fn editing_starts_only_on_safe_math_tab() {
    let mut app = App::new();
    app.handle_key(key(Key::Char('i')));
    assert_eq!(app.input_mode, InputMode::Normal);
    app.handle_key(key(Key::Char('2')));
    app.handle_key(key(Key::Char('i')));
    assert_eq!(app.input_mode, InputMode::Editing);
    assert_eq!(
        app.status_message.as_deref(),
        Some("Enter expression (e.g., 42 + 7)")
    );
}

#[test]
fn help_key_sets_status() {
    let mut app = App::new();
    app.handle_key(key(Key::Char('?')));
    assert_eq!(
        app.status_message.as_deref(),
        Some("q=quit, Tab=next tab, 1-5=go to tab, i=edit, j/k=up/down")
    );
}

#[test]
fn editing_keys_build_and_erase_the_buffer() {
    let mut app = App::new();
    app.handle_key(key(Key::Char('2')));
    app.handle_key(key(Key::Enter));
    assert_eq!(app.input_mode, InputMode::Editing);
    for c in "1+2".chars() {
        app.handle_key(key(Key::Char(c)));
    }
    assert_eq!(app.input_buffer, vec!['1', '+', '2']);
    app.handle_key(key(Key::Backspace));
    assert_eq!(app.input_buffer, vec!['1', '+']);
    app.handle_key(key(Key::Esc));
    assert_eq!(app.input_mode, InputMode::Normal);
    assert!(app.input_buffer.is_empty());
    assert_eq!(app.status_message.as_deref(), Some("Cancelled"));
}

#[test]
fn submitting_an_expression_records_history() {
    let mut app = App::new();
    app.handle_key(key(Key::Char('2')));
    app.handle_key(key(Key::Char('i')));
    type_line(&mut app, "40 + 2");
    assert_eq!(app.input_mode, InputMode::Normal);
    assert!(app.input_buffer.is_empty());
    assert_eq!(app.status_message.as_deref(), Some("42 (safe)"));
    assert_eq!(app.calculation_history, vec!["40 + 2 = 42 (safe)".to_string()]);
}

#[test]
fn blank_submission_changes_nothing_but_the_mode() {
    let mut app = App::new();
    app.handle_key(key(Key::Char('2')));
    app.handle_key(key(Key::Char('i')));
    app.handle_key(key(Key::Char(' ')));
    let status_before = app.status_message.clone();
    app.handle_key(key(Key::Enter));
    assert_eq!(app.input_mode, InputMode::Normal);
    assert!(app.calculation_history.is_empty());
    assert_eq!(app.status_message, status_before);
    assert_eq!(app.input_buffer, vec![' ']);
}

#[test]
fn history_is_bounded_at_ten_most_recent() {
    let mut app = App::new();
    app.handle_key(key(Key::Char('2')));
    for n in 0..13 {
        app.handle_key(key(Key::Char('i')));
        type_line(&mut app, &format!("{} + 1", n));
    }
    assert_eq!(app.calculation_history.len(), 10);
    for (i, n) in (3..13).enumerate() {
        assert_eq!(
            app.calculation_history[i],
            format!("{} + 1 = {} (safe)", n, n + 1)
        );
    }
}

#[test]
fn expression_input_is_trimmed_in_history() {
    let mut app = App::new();
    app.handle_key(key(Key::Char('2')));
    app.handle_key(key(Key::Char('i')));
    type_line(&mut app, "  7 * 6 ");
    assert_eq!(app.calculation_history, vec!["7 * 6 = 42 (safe)".to_string()]);
}

#[test]
fn tick_advances_the_counter() {
    let mut app = App::new();
    assert_eq!(app.tick_count(), 0);
    app.tick();
    app.tick();
    assert_eq!(app.tick_count(), 2);
}

#[test]
fn tick_resets_at_the_checked_boundary() {
    let mut app = App::new();
    app.set_tick_count(u64::MAX - 1);
    app.tick();
    assert_eq!(app.tick_count(), u64::MAX);
    assert_eq!(
        app.status_message.as_deref(),
        Some("Welcome to Proven TUI! Press ? for help.")
    );
    app.tick();
    assert_eq!(app.tick_count(), 0);
    assert_eq!(
        app.status_message.as_deref(),
        Some("Tick counter reset (overflow protected)")
    );
    app.tick();
    assert_eq!(app.tick_count(), 1);
}

#[test]
fn events_drive_the_state_machine() {
    let mut app = App::new();
    assert!(!app.handle_event(Event::Tick));
    assert_eq!(app.tick_count(), 1);
    assert!(!app.handle_event(Event::Mouse));
    assert!(!app.handle_event(Event::Resize(80, 24)));
    assert_eq!(app.tick_count(), 1);
    assert!(app.handle_event(Event::Key(key(Key::Char('q')))));
}

#[test]
fn new_app_starts_at_home_in_normal_mode() {
    let app = App::new();
    assert_eq!(app.current_tab, Tab::Home);
    assert_eq!(app.input_mode, InputMode::Normal);
    assert_eq!(app.tick_count(), 0);
    assert_eq!(app.selected_item, 0);
    assert!(app.calculation_history.is_empty());
    assert!(app.input_buffer.is_empty());
    assert_eq!(
        app.status_message.as_deref(),
        Some("Welcome to Proven TUI! Press ? for help.")
    );
}
