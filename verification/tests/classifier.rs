use lyric_drill::keyboard_event::{
    multiplex_step, KeyboardActions, KeyboardEvent, States, TerminalInput,
};
use lyric_drill::keys::{key_ratio, KeyCode, KeyEvent, KeyLength, KeyModifier};

#[test]
fn control_chords_switch_the_state() {
    let mut st = States::START;
    let a = KeyboardActions::process_keyevent_for_actions(
        &KeyEvent::new(KeyCode::Char('s'), KeyModifier::Control),
        &mut st,
    );
    assert_eq!(st, States::SEARCH);
    assert_eq!(a.state, States::SEARCH);

    let mut st = States::TYPE;
    let a = KeyboardActions::process_keyevent_for_actions(
        &KeyEvent::new(KeyCode::Char('p'), KeyModifier::Control),
        &mut st,
    );
    assert_eq!(st, States::PAUSE);
    assert_eq!(a.state, States::PAUSE);

    let mut st = States::PAUSE;
    let a = KeyboardActions::process_keyevent_for_actions(
        &KeyEvent::new(KeyCode::Char('g'), KeyModifier::Control),
        &mut st,
    );
    assert_eq!(st, States::START);
    assert_eq!(a.state, States::START);
}

#[test]
fn escape_asks_to_exit_without_touching_the_state() {
    let mut st = States::TYPE;
    let a = KeyboardActions::process_keyevent_for_actions(
        &KeyEvent::new(KeyCode::Esc, KeyModifier::NoModifier),
        &mut st,
    );
    assert_eq!(a.state, States::EXIT);
    assert_eq!(st, States::TYPE);
}

#[test]
fn chord_letter_without_control_is_plain_typing() {
    let mut st = States::TYPE;
    let a = KeyboardActions::process_keyevent_for_actions(
        &KeyEvent::new(KeyCode::Char('s'), KeyModifier::NoModifier),
        &mut st,
    );
    assert_eq!(a.state, States::TYPE);
    assert_eq!(st, States::TYPE);
}

#[test]
fn enter_while_searching_commits() {
    let mut st = States::SEARCH;
    let a = KeyboardActions::process_keyevent_for_actions(
        &KeyEvent::new(KeyCode::Enter, KeyModifier::NoModifier),
        &mut st,
    );
    assert_eq!(a.state, States::SEARCHOFF);
    assert_eq!(st, States::SEARCHOFF);
}

#[test]
fn other_keys_while_searching_stay_search_input() {
    let mut st = States::SEARCH;
    let a = KeyboardActions::process_keyevent_for_actions(
        &KeyEvent::new(KeyCode::Char('s'), KeyModifier::Control),
        &mut st,
    );
    assert_eq!(a.state, States::SEARCH);
    assert_eq!(st, States::SEARCH);
}

#[test]
fn heartbeat_is_multiplexed_into_one_nopress() {
    let mut st = States::START;
    let out = multiplex_step(TerminalInput::Heartbeat, &mut st);
    assert_eq!(out, Some(KeyboardEvent::NoPress));
    assert_eq!(st, States::START);
}

#[test]
fn key_arrival_is_classified_and_emitted() {
    let mut st = States::START;
    let out = multiplex_step(
        TerminalInput::Key(KeyEvent::new(KeyCode::Char('x'), KeyModifier::NoModifier)),
        &mut st,
    );
    match out {
        Some(KeyboardEvent::KeyPress(a)) => {
            assert_eq!(a.state, States::TYPE);
            assert_eq!(a.key_event.code, KeyCode::Char('x'));
        }
        other => panic!("expected a classified keypress, got {:?}", other),
    }
}

#[test]
fn non_key_event_is_a_nopress_and_stream_end_stops() {
    let mut st = States::TYPE;
    assert_eq!(
        multiplex_step(TerminalInput::OtherEvent, &mut st),
        Some(KeyboardEvent::NoPress)
    );
    assert_eq!(multiplex_step(TerminalInput::Closed, &mut st), None);
    assert_eq!(st, States::TYPE);
}

#[test]
fn from_char_is_an_unmodified_typing_action() {
    let a = KeyboardActions::from_char('Q');
    assert_eq!(a.state, States::TYPE);
    assert_eq!(a.key_event.code, KeyCode::Char('Q'));
    assert_eq!(a.key_event.modifiers, KeyModifier::NoModifier);
}

#[test]
fn key_ratios_by_length() {
    assert_eq!(key_ratio(KeyLength::SHORT), (1, 10));
    assert_eq!(key_ratio(KeyLength::MEDIUM), (2, 10));
    assert_eq!(key_ratio(KeyLength::LONG), (3, 10));
}
