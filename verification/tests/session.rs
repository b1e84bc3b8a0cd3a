use lyric_drill::keyboard_event::{KeyboardActions, KeyboardEvent, States};
use lyric_drill::keys::{KeyCode, KeyEvent, KeyModifier};
use lyric_drill::song::{Song, SongStatus};
use lyric_drill::state::TypingState;

fn type_press(c: char) -> KeyboardEvent {
    KeyboardEvent::KeyPress(KeyboardActions {
        key_event: KeyEvent::new(KeyCode::Char(c), KeyModifier::NoModifier),
        state: States::TYPE,
    })
}

fn state_with_song(lines: Vec<&str>) -> TypingState {
    let mut state = TypingState::new();
    state.song = Some(Song::new(lines.into_iter().map(|l| l.to_string()).collect()));
    state
}

#[test]
fn hi_song_completes_with_perfect_score() {
    let mut state = state_with_song(vec!["Hi"]);
    let quit = state.process_events_or_exit(type_press('H'));
    assert!(!quit);
    assert_eq!(state.correct_hits, 1);
    assert_eq!(state.total_hits, 1);
    let quit = state.process_events_or_exit(type_press('I'));
    assert!(!quit);
    assert_eq!(state.correct_hits, 2);
    assert_eq!(state.total_hits, 2);
    assert_eq!(state.get_current_status(), Some(SongStatus::Completed));
    let score = (state.correct_hits as f32) / (state.total_hits as f32) * 10.0;
    assert_eq!(score, 10.0);
}

#[test]
fn typing_every_line_counts_every_character() {
    let mut state = state_with_song(vec!["ab", "", "c d"]);
    for c in ['a', 'b', 'c', ' ', 'd'] {
        state.process_events_or_exit(type_press(c));
    }
    assert_eq!(state.correct_hits, 5);
    assert_eq!(state.total_hits, 5);
    assert_eq!(state.get_current_status(), Some(SongStatus::Completed));
}

#[test]
fn uppercase_press_accepted_for_lowercase_expectation() {
    let mut state = state_with_song(vec!["a"]);
    let quit = state.process_events_or_exit(type_press('A'));
    assert!(!quit);
    assert_eq!(state.correct_hits, 1);
    assert_eq!(state.total_hits, 1);
    assert_eq!(
        state.keyboard_actions,
        Some(KeyboardActions::from_char('A'))
    );
    assert_eq!(state.get_current_status(), Some(SongStatus::Completed));
}

#[test]
fn wrong_key_rejected_and_still_counted() {
    let mut state = state_with_song(vec!["a"]);
    let quit = state.process_events_or_exit(type_press('b'));
    assert!(!quit);
    assert_eq!(state.correct_hits, 0);
    assert_eq!(state.total_hits, 1);
    assert!(!state.correct_hit);
    assert_eq!(state.get_current_char(), Some('a'));
    assert_eq!(
        state.keyboard_actions,
        Some(KeyboardActions::from_char('B'))
    );
}

#[test]
fn lowercase_press_for_uppercase_expectation_is_wrong() {
    let mut state = state_with_song(vec!["A"]);
    state.process_events_or_exit(type_press('a'));
    assert_eq!(state.correct_hits, 0);
    assert_eq!(state.total_hits, 1);
    assert_eq!(state.get_current_char(), Some('A'));
}

#[test]
fn whitespace_expects_exact_space() {
    let mut state = state_with_song(vec![" x"]);
    state.process_events_or_exit(type_press('x'));
    assert_eq!(state.correct_hits, 0);
    assert_eq!(state.total_hits, 1);
    assert_eq!(state.get_current_char(), Some(' '));
    state.process_events_or_exit(type_press(' '));
    assert_eq!(state.correct_hits, 1);
    assert_eq!(state.total_hits, 2);
    assert_eq!(state.get_current_char(), Some('x'));
}

#[test]
fn incorrect_whitespace_press_recorded_as_space() {
    let mut state = state_with_song(vec!["x"]);
    state.process_events_or_exit(type_press('\t'));
    assert_eq!(state.correct_hits, 0);
    assert_eq!(state.total_hits, 1);
    assert_eq!(
        state.keyboard_actions,
        Some(KeyboardActions::from_char(' '))
    );
}

#[test]
fn exit_terminates_without_mutation() {
    let mut state = state_with_song(vec!["ab"]);
    state.process_events_or_exit(type_press('a'));
    let before_correct = state.correct_hits;
    let before_total = state.total_hits;
    let quit = state.process_events_or_exit(KeyboardEvent::KeyPress(KeyboardActions {
        key_event: KeyEvent::new(KeyCode::Esc, KeyModifier::NoModifier),
        state: States::EXIT,
    }));
    assert!(quit);
    assert_eq!(state.correct_hits, before_correct);
    assert_eq!(state.total_hits, before_total);
}

#[test]
fn pause_changes_nothing() {
    let mut state = state_with_song(vec!["ab"]);
    let quit = state.process_events_or_exit(KeyboardEvent::KeyPress(KeyboardActions {
        key_event: KeyEvent::new(KeyCode::Char('p'), KeyModifier::Control),
        state: States::PAUSE,
    }));
    assert!(!quit);
    assert_eq!(state.total_hits, 0);
    assert_eq!(state.get_current_char(), Some('a'));
}

#[test]
fn heartbeat_mutates_no_counter_and_no_cursor() {
    let mut state = state_with_song(vec!["ab"]);
    state.process_events_or_exit(type_press('a'));
    let quit = state.process_events_or_exit(KeyboardEvent::NoPress);
    assert!(!quit);
    assert_eq!(state.correct_hits, 1);
    assert_eq!(state.total_hits, 1);
    assert_eq!(state.get_current_char(), Some('b'));
    assert_eq!(state.keyboard_actions, None);
    assert!(!state.correct_hit);
    assert!(!state.update_text_color);
}

#[test]
fn search_editing_appends_and_backspaces() {
    let mut state = TypingState::new();
    for c in ['n', 'i', 'b'] {
        state.process_events_or_exit(KeyboardEvent::KeyPress(KeyboardActions {
            key_event: KeyEvent::new(KeyCode::Char(c), KeyModifier::NoModifier),
            state: States::SEARCH,
        }));
    }
    state.process_events_or_exit(KeyboardEvent::KeyPress(KeyboardActions {
        key_event: KeyEvent::new(KeyCode::Backspace, KeyModifier::NoModifier),
        state: States::SEARCH,
    }));
    assert_eq!(state.search_request_build, Some(vec!['n', 'i']));
    state.process_events_or_exit(KeyboardEvent::KeyPress(KeyboardActions {
        key_event: KeyEvent::new(KeyCode::Enter, KeyModifier::NoModifier),
        state: States::SEARCHOFF,
    }));
    assert_eq!(state.search_request_build, None);
    assert_eq!(state.search_completed, Some(vec!['n', 'i']));
}

#[test]
fn backspace_on_empty_search_is_a_no_op() {
    let mut state = TypingState::new();
    state.process_events_or_exit(KeyboardEvent::KeyPress(KeyboardActions {
        key_event: KeyEvent::new(KeyCode::Backspace, KeyModifier::NoModifier),
        state: States::SEARCH,
    }));
    assert_eq!(state.search_request_build, None);
}

#[test]
fn control_modified_key_does_not_edit_search_text() {
    let mut state = TypingState::new();
    state.process_events_or_exit(KeyboardEvent::KeyPress(KeyboardActions {
        key_event: KeyEvent::new(KeyCode::Char('s'), KeyModifier::Control),
        state: States::SEARCH,
    }));
    assert_eq!(state.search_request_build, None);
}

#[test]
fn typing_without_song_changes_nothing() {
    let mut state = TypingState::new();
    let quit = state.process_events_or_exit(type_press('a'));
    assert!(!quit);
    assert_eq!(state.total_hits, 0);
    assert_eq!(state.correct_hits, 0);
}

#[test]
fn typing_on_completed_song_changes_nothing() {
    let mut state = state_with_song(vec!["a"]);
    state.process_events_or_exit(type_press('a'));
    assert_eq!(state.get_current_status(), Some(SongStatus::Completed));
    state.process_events_or_exit(type_press('a'));
    assert_eq!(state.total_hits, 1);
    assert_eq!(state.correct_hits, 1);
}

#[test]
fn provider_error_suppresses_typing() {
    let mut state = state_with_song(vec!["ab"]);
    state.error_string = Some("no lyrics found".to_string());
    state.process_events_or_exit(type_press('a'));
    assert_eq!(state.total_hits, 0);
    assert_eq!(state.correct_hits, 0);
    assert_eq!(state.get_current_char(), Some('a'));
}

#[test]
fn getters_report_sentence_and_cursor() {
    let mut state = state_with_song(vec!["", "hey"]);
    assert_eq!(state.get_sentence().map(|s| s.as_str()), Some("hey"));
    assert_eq!(state.get_current_cursor_location(), Some(0));
    assert_eq!(state.get_current_char(), Some('h'));
    assert_eq!(state.get_current_status(), Some(SongStatus::Continuing));
    state.process_events_or_exit(type_press('h'));
    assert_eq!(state.get_current_cursor_location(), Some(1));
    let empty = TypingState::new();
    assert_eq!(empty.get_sentence(), None);
    assert_eq!(empty.get_current_cursor_location(), None);
    assert_eq!(empty.get_current_char(), None);
    assert_eq!(empty.get_current_status(), None);
}
