use ramdis::App;
use ramdis::CurrentEditMode;
use ramdis::CurrentScreen;
use ramdis::Key;
use ramdis::KeyInput;
use ramdis::UserError;

fn ch(c: char) -> KeyInput {
    KeyInput { key: Key::Char(c), ctrl: false }
}

fn ctrl(c: char) -> KeyInput {
    KeyInput { key: Key::Char(c), ctrl: true }
}

fn named(k: Key) -> KeyInput {
    KeyInput { key: k, ctrl: false }
}

fn type_text(app: &mut App, s: &str) {
    for c in s.chars() {
        app.handle_key_picked(ch(c), 0).unwrap();
    }
}

/// Appends `text` at `index` through the creating screen.
fn add_choice(app: &mut App, text: &str, index: &str) {
    app.handle_key_picked(ch('n'), 0).unwrap();
    app.handle_key_picked(ctrl('d'), 0).unwrap();
    type_text(app, text);
    app.handle_key_picked(ctrl('i'), 0).unwrap();
    type_text(app, index);
    app.handle_key_picked(named(Key::Enter), 0).unwrap();
}

#[test]
fn starts_running_on_main_screen() {
    let app = App::new();
    assert!(app.running());
    assert_eq!(app.screen(), CurrentScreen::Main);
    assert_eq!(app.edit_mode(), CurrentEditMode::Idle);
    assert!(app.choice_texts().is_empty());
    assert_eq!(app.draws(), 0);
}

#[test]
fn creating_a_choice_through_keys() {
    let mut app = App::new();
    add_choice(&mut app, "cats", "0");
    assert_eq!(app.screen(), CurrentScreen::Main);
    assert_eq!(app.choice_texts(), vec!["cats".to_string()]);
    assert_eq!(app.name_text(), "");
    assert_eq!(app.index_text(), "");
}

#[test]
fn quit_needs_two_triggers_from_main() {
    let mut app = App::new();
    app.handle_key_picked(ctrl('c'), 0).unwrap();
    assert!(app.running());
    assert_eq!(app.screen(), CurrentScreen::ExitConfirm);
    app.handle_key_picked(ctrl('c'), 0).unwrap();
    assert!(!app.running());
}

#[test]
fn plain_q_also_quits_in_two_steps() {
    let mut app = App::new();
    app.handle_key_picked(ch('q'), 0).unwrap();
    assert!(app.running());
    assert_eq!(app.screen(), CurrentScreen::ExitConfirm);
    app.handle_key_picked(ch('Q'), 0).unwrap();
    assert!(!app.running());
}

#[test]
fn esc_cancels_exit_confirmation() {
    let mut app = App::new();
    app.handle_key_picked(ctrl('C'), 0).unwrap();
    assert_eq!(app.screen(), CurrentScreen::ExitConfirm);
    app.handle_key_picked(named(Key::Esc), 0).unwrap();
    assert!(app.running());
    assert_eq!(app.screen(), CurrentScreen::Main);
}

#[test]
fn quit_trigger_does_nothing_while_editing() {
    let mut app = App::new();
    app.handle_key_picked(ch('n'), 0).unwrap();
    app.handle_key_picked(ctrl('c'), 0).unwrap();
    assert!(app.running());
    assert_eq!(app.screen(), CurrentScreen::Creating);
}

#[test]
fn typed_q_goes_into_name_buffer_not_quit() {
    let mut app = App::new();
    app.handle_key_picked(ch('n'), 0).unwrap();
    app.handle_key_picked(ctrl('d'), 0).unwrap();
    type_text(&mut app, "q");
    assert!(app.running());
    assert_eq!(app.screen(), CurrentScreen::Creating);
    assert_eq!(app.name_text(), "q");
}

#[test]
fn alternating_oracle_splits_tally_evenly() {
    let mut app = App::new();
    add_choice(&mut app, "cats", "0");
    add_choice(&mut app, "dogs", "1");
    for i in 0..10 {
        app.handle_key_picked(ctrl('r'), i % 2).unwrap();
    }
    assert_eq!(app.screen(), CurrentScreen::Deciding);
    assert_eq!(app.tally_count(&"cats".to_string()), 5);
    assert_eq!(app.tally_count(&"dogs".to_string()), 5);
    assert_eq!(app.draws(), 10);
    let snap = app.tally_snapshot();
    assert_eq!(snap.len(), 2);
    let sum: u64 = snap.iter().map(|p| p.1).sum();
    assert_eq!(sum, 10);
}

#[test]
fn commit_with_index_past_length_is_rejected() {
    let mut app = App::new();
    add_choice(&mut app, "cats", "0");
    add_choice(&mut app, "dogs", "1");
    app.handle_key_picked(ch('n'), 0).unwrap();
    app.handle_key_picked(ctrl('d'), 0).unwrap();
    type_text(&mut app, "owls");
    app.handle_key_picked(ctrl('i'), 0).unwrap();
    type_text(&mut app, "5");
    let r = app.handle_key_picked(named(Key::Enter), 0);
    assert_eq!(r, Err(UserError::IndexOutOfRange));
    assert_eq!(app.screen(), CurrentScreen::Creating);
    assert_eq!(app.choice_texts(), vec!["cats".to_string(), "dogs".to_string()]);
    assert_eq!(app.name_text(), "owls");
    assert_eq!(app.index_text(), "5");
}

#[test]
fn commit_with_index_equal_length_appends() {
    let mut app = App::new();
    add_choice(&mut app, "cats", "0");
    add_choice(&mut app, "dogs", "1");
    app.handle_key_picked(ch('n'), 0).unwrap();
    app.handle_key_picked(ctrl('d'), 0).unwrap();
    type_text(&mut app, "owls");
    app.handle_key_picked(ctrl('i'), 0).unwrap();
    type_text(&mut app, "2");
    let r = app.handle_key_picked(named(Key::Enter), 0);
    assert_eq!(r, Ok(()));
    assert_eq!(app.screen(), CurrentScreen::Main);
    assert_eq!(
        app.choice_texts(),
        vec!["cats".to_string(), "dogs".to_string(), "owls".to_string()]
    );
}

#[test]
fn commit_with_index_below_length_replaces() {
    let mut app = App::new();
    add_choice(&mut app, "cats", "0");
    add_choice(&mut app, "dogs", "1");
    app.handle_key_picked(ch('e'), 0).unwrap();
    assert_eq!(app.screen(), CurrentScreen::Editing);
    app.handle_key_picked(ctrl('d'), 0).unwrap();
    type_text(&mut app, "owls");
    app.handle_key_picked(ctrl('i'), 0).unwrap();
    type_text(&mut app, "0");
    app.handle_key_picked(named(Key::Enter), 0).unwrap();
    assert_eq!(app.choice_texts(), vec!["owls".to_string(), "dogs".to_string()]);
}

#[test]
fn commit_with_empty_index_buffer_is_parse_failure() {
    let mut app = App::new();
    app.handle_key_picked(ch('n'), 0).unwrap();
    app.handle_key_picked(ctrl('d'), 0).unwrap();
    type_text(&mut app, "cats");
    let r = app.handle_key_picked(named(Key::Enter), 0);
    assert_eq!(r, Err(UserError::ParseFailure));
    assert_eq!(app.screen(), CurrentScreen::Creating);
    assert!(app.choice_texts().is_empty());
}

#[test]
fn index_buffer_takes_only_digits() {
    let mut app = App::new();
    app.handle_key_picked(ch('n'), 0).unwrap();
    app.handle_key_picked(ctrl('i'), 0).unwrap();
    assert_eq!(app.edit_mode(), CurrentEditMode::EditingIndex);
    type_text(&mut app, "a1b2");
    assert_eq!(app.index_text(), "12");
}

#[test]
fn draw_on_empty_list_is_a_visible_noop() {
    let mut app = App::new();
    let r = app.handle_key_picked(ctrl('r'), 0);
    assert_eq!(r, Err(UserError::EmptyListPick));
    assert_eq!(app.screen(), CurrentScreen::Deciding);
    assert_eq!(app.draws(), 0);
    assert!(app.tally_snapshot().is_empty());
    assert!(app.choice_texts().is_empty());
}

#[test]
fn real_oracle_draw_picks_an_existing_choice() {
    let mut app = App::new();
    add_choice(&mut app, "cats", "0");
    add_choice(&mut app, "dogs", "1");
    for _ in 0..20 {
        app.handle_key(ctrl('r')).unwrap();
    }
    assert_eq!(app.draws(), 20);
    let snap = app.tally_snapshot();
    let sum: u64 = snap.iter().map(|p| p.1).sum();
    assert_eq!(sum, 20);
    for (text, _) in &snap {
        assert!(text == "cats" || text == "dogs");
    }
}

#[test]
fn draw_trigger_ignored_while_editing() {
    let mut app = App::new();
    add_choice(&mut app, "cats", "0");
    app.handle_key_picked(ch('n'), 0).unwrap();
    let r = app.handle_key_picked(ctrl('r'), 0);
    assert_eq!(r, Ok(()));
    assert_eq!(app.screen(), CurrentScreen::Creating);
    assert_eq!(app.draws(), 0);
}

#[test]
fn esc_discards_edits_in_progress() {
    let mut app = App::new();
    app.handle_key_picked(ch('n'), 0).unwrap();
    app.handle_key_picked(ctrl('d'), 0).unwrap();
    type_text(&mut app, "cats");
    app.handle_key_picked(named(Key::Esc), 0).unwrap();
    assert_eq!(app.screen(), CurrentScreen::Main);
    assert_eq!(app.edit_mode(), CurrentEditMode::Idle);
    assert_eq!(app.name_text(), "");
    assert!(app.choice_texts().is_empty());
}

#[test]
fn mode_shortcuts_are_case_insensitive() {
    let mut app = App::new();
    app.handle_key_picked(ch('N'), 0).unwrap();
    assert_eq!(app.screen(), CurrentScreen::Creating);
    app.handle_key_picked(ctrl('D'), 0).unwrap();
    assert_eq!(app.edit_mode(), CurrentEditMode::EditingName);
    app.handle_key_picked(ctrl('I'), 0).unwrap();
    assert_eq!(app.edit_mode(), CurrentEditMode::EditingIndex);
}

#[test]
fn arrows_and_backspace_edit_at_the_cursor() {
    let mut app = App::new();
    app.handle_key_picked(ch('n'), 0).unwrap();
    app.handle_key_picked(ctrl('d'), 0).unwrap();
    type_text(&mut app, "cast");
    app.handle_key_picked(named(Key::Left), 0).unwrap();
    app.handle_key_picked(named(Key::Backspace), 0).unwrap();
    assert_eq!(app.name_text(), "cat");
    assert_eq!(app.name_cursor(), 2);
    app.handle_key_picked(named(Key::Right), 0).unwrap();
    type_text(&mut app, "s");
    assert_eq!(app.name_text(), "cats");
}

#[test]
fn tally_is_shared_by_equal_texts() {
    let mut app = App::new();
    add_choice(&mut app, "cats", "0");
    add_choice(&mut app, "cats", "1");
    app.handle_key_picked(ctrl('r'), 0).unwrap();
    app.handle_key_picked(ctrl('r'), 1).unwrap();
    assert_eq!(app.tally_count(&"cats".to_string()), 2);
    assert_eq!(app.tally_snapshot().len(), 1);
}
