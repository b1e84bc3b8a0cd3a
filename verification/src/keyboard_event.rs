//! Classifying raw keystrokes into semantic actions, and the one-step
//! decision of the event multiplexer that races keystrokes against a
//! heartbeat tick.

use vstd::prelude::*;

use crate::keys::{KeyCode, KeyEvent, KeyModifier};

verus! {

/// The session's lifecycle state, owned by the classifier and advanced as a
/// side effect of classification: idle at start, collecting a search query,
/// a search just committed, typing, paused, or about to exit.
#[derive(Clone, Copy, Debug, PartialEq, Eq, Structural)]
pub enum States {
    EXIT,
    PAUSE,
    SEARCH,
    SEARCHOFF,
    START,
    TYPE,
}

/// A classified keystroke: the raw key event together with the semantic
/// state it was classified under. This is what the state machine consumes
/// and what the render snapshot records.
#[derive(Clone, Copy, Debug, PartialEq, Eq, Structural)]
pub struct KeyboardActions {
    pub key_event: KeyEvent,
    pub state: States,
}

/// What classifying one keystroke yields: the action handed on, and the
/// classifier state to carry into the next keystroke.
pub open spec fn classify(key: KeyEvent, state: States) -> (KeyboardActions, States) {
    if state == States::SEARCH {
        if key == (KeyEvent { code: KeyCode::Enter, modifiers: KeyModifier::NoModifier }) {
            (KeyboardActions { key_event: key, state: States::SEARCHOFF }, States::SEARCHOFF)
        } else {
            (KeyboardActions { key_event: key, state: States::SEARCH }, States::SEARCH)
        }
    } else {
        if key == (KeyEvent { code: KeyCode::Char('s'), modifiers: KeyModifier::Control }) {
            (KeyboardActions { key_event: key, state: States::SEARCH }, States::SEARCH)
        } else if key == (KeyEvent { code: KeyCode::Esc, modifiers: KeyModifier::NoModifier }) {
            (KeyboardActions { key_event: key, state: States::EXIT }, state)
        } else if key == (KeyEvent { code: KeyCode::Char('p'), modifiers: KeyModifier::Control }) {
            (KeyboardActions { key_event: key, state: States::PAUSE }, States::PAUSE)
        } else if key == (KeyEvent { code: KeyCode::Char('g'), modifiers: KeyModifier::Control }) {
            (KeyboardActions { key_event: key, state: States::START }, States::START)
        } else {
            (KeyboardActions { key_event: key, state: States::TYPE }, state)
        }
    }
}

impl KeyboardActions {
    fn new(kkey_event: KeyEvent, k_action: States) -> (r: Self)
        ensures
            r == (KeyboardActions { key_event: kkey_event, state: k_action }),
    {
        KeyboardActions { key_event: kkey_event, state: k_action }
    }

    /// The typing action that records the given character, as the snapshot
    /// normalization uses it: an unmodified keystroke of that character.
    pub fn from_char(c: char) -> (r: Self)
        ensures
            r == spec_from_char(c),
    {
        let k = KeyEvent::from_code(KeyCode::Char(c));
        KeyboardActions { key_event: k, state: States::TYPE }
    }

    /// Classify one raw keystroke under the current classifier state and
    /// advance that state.
    ///
    /// While searching, Enter commits the query and every other key is
    /// passed through as search-text input. Otherwise the control chords
    /// Ctrl+S, Ctrl+P and Ctrl+G switch to searching, paused and started,
    /// Esc asks to exit without touching the state, and any other key is a
    /// typing action. A character that matches a chord's letter but lacks
    /// the control modifier falls through to a typing action.
    pub fn process_keyevent_for_actions(key_event: &KeyEvent, state: &mut States) -> (r: Self)
        ensures
            r == classify(*key_event, *old(state)).0,
            *final(state) == classify(*key_event, *old(state)).1,
    {
        if *state == States::SEARCH {
            if *key_event == KeyEvent::new(KeyCode::Enter, KeyModifier::NoModifier) {
                *state = States::SEARCHOFF;
                KeyboardActions::new(*key_event, *state)
            } else {
                *state = States::SEARCH;
                KeyboardActions::new(*key_event, *state)
            }
        } else {
            if *key_event == KeyEvent::new(KeyCode::Char('s'), KeyModifier::Control) {
                *state = States::SEARCH;
                KeyboardActions::new(*key_event, *state)
            } else if *key_event == KeyEvent::new(KeyCode::Esc, KeyModifier::NoModifier) {
                KeyboardActions::new(*key_event, States::EXIT)
            } else if *key_event == KeyEvent::new(KeyCode::Char('p'), KeyModifier::Control) {
                *state = States::PAUSE;
                KeyboardActions::new(*key_event, *state)
            } else if *key_event == KeyEvent::new(KeyCode::Char('g'), KeyModifier::Control) {
                *state = States::START;
                KeyboardActions::new(*key_event, *state)
            } else {
                KeyboardActions::new(*key_event, States::TYPE)
            }
        }
    }
}

/// The action `KeyboardActions::from_char` builds.
pub open spec fn spec_from_char(c: char) -> KeyboardActions {
    KeyboardActions {
        key_event: KeyEvent { code: KeyCode::Char(c), modifiers: KeyModifier::NoModifier },
        state: States::TYPE,
    }
}

/// One multiplexed event as the state machine receives it: a classified
/// keystroke, or the heartbeat saying that none arrived in time.
#[derive(Clone, Copy, Debug, PartialEq, Eq, Structural)]
pub enum KeyboardEvent {
    KeyPress(KeyboardActions),
    NoPress,
}

/// What the multiplexer observed in one iteration: the heartbeat timer fired
/// first, a keystroke arrived first, some other terminal event (a resize, a
/// mouse move) arrived first, or the terminal event stream ended.
#[derive(Clone, Copy, Debug, PartialEq, Eq, Structural)]
pub enum TerminalInput {
    Heartbeat,
    Key(KeyEvent),
    OtherEvent,
    Closed,
}

/// What one multiplexer iteration decided for the given observation.
pub open spec fn multiplex_spec(input: TerminalInput, state: States) -> (Option<
    KeyboardEvent,
>, States) {
    match input {
        TerminalInput::Heartbeat => (Some(KeyboardEvent::NoPress), state),
        TerminalInput::Key(k) => (
            Some(KeyboardEvent::KeyPress(classify(k, state).0)),
            classify(k, state).1,
        ),
        TerminalInput::OtherEvent => (Some(KeyboardEvent::NoPress), state),
        TerminalInput::Closed => (None, state),
    }
}

/// Decide one iteration of the event multiplexer.
///
/// The heartbeat firing first, and any non-key terminal event, emit exactly
/// one `NoPress`; a keystroke is classified and emitted as one `KeyPress`;
/// the end of the event stream emits nothing, which tells the caller to stop
/// its loop. The caller performs the waiting and pushes whatever is emitted
/// onto the session's channel.
pub fn multiplex_step(input: TerminalInput, state: &mut States) -> (r: Option<KeyboardEvent>)
    ensures
        r == multiplex_spec(input, *old(state)).0,
        *final(state) == multiplex_spec(input, *old(state)).1,
{
    match input {
        TerminalInput::Heartbeat => Some(KeyboardEvent::NoPress),
        TerminalInput::Key(k) => Some(
            KeyboardEvent::KeyPress(KeyboardActions::process_keyevent_for_actions(&k, state)),
        ),
        TerminalInput::OtherEvent => Some(KeyboardEvent::NoPress),
        TerminalInput::Closed => None,
    }
}

} // verus!
