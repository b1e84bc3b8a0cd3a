//! The session state machine: it owns the accuracy counters, the in-progress
//! search query, the loaded song and the render-facing snapshot, and advances
//! them one multiplexed event at a time. Every transition is stated by the
//! spec-level [`step`] function, which the executable `process_events_or_exit`
//! is proved to follow.

use vstd::prelude::*;

use crate::chars::{
    is_ascii_lower, is_ascii_upper, is_whitespace, is_whitespace_char, spec_to_upper,
    to_ascii_upper,
};
use crate::keyboard_event::{spec_from_char, KeyboardActions, KeyboardEvent, States};
use crate::keys::{KeyCode, KeyModifier};
use crate::song::{Song, SongStatus, SongView};

verus! {

/// The mathematical value of a [`TypingState`]: every field as a plain value
/// or sequence.
#[verifier::ext_equal]
pub struct StateView {
    pub correct_hit: bool,
    pub correct_hits: int,
    pub keyboard_actions: Option<KeyboardActions>,
    pub search_request_build: Option<Seq<char>>,
    pub error_string: Option<Seq<char>>,
    pub search_completed: Option<Seq<char>>,
    pub song: Option<SongView>,
    pub total_hits: int,
    pub update_text_color: bool,
}

impl StateView {
    /// The loaded song, if any, is a well-formed cursor, and the counters
    /// never show more correct hits than total hits.
    pub open spec fn wf(self) -> bool {
        &&& (self.song matches Some(sv) ==> sv.wf())
        &&& 0 <= self.correct_hits <= self.total_hits
    }

    /// The character the cursor of the loaded song rests on, if a song is
    /// loaded and not completed.
    pub open spec fn expected_char(self) -> Option<char> {
        match self.song {
            Some(sv) => sv.current_char(),
            None => None,
        }
    }
}

/// Whether a pressed key code counts as a correct hit for the expected
/// character `c`: whitespace and ASCII uppercase expect the exact character,
/// an ASCII lowercase character also accepts its uppercase counterpart (the
/// on-screen key caps are drawn uppercase), and any other character expects
/// itself exactly.
pub open spec fn is_match(c: char, code: KeyCode) -> bool {
    if is_whitespace_char(c) {
        code == KeyCode::Char(c)
    } else if is_ascii_upper(c) {
        code == KeyCode::Char(c)
    } else if is_ascii_lower(c) {
        code == KeyCode::Char(c) || code == KeyCode::Char(spec_to_upper(c))
    } else {
        code == KeyCode::Char(c)
    }
}

/// The snapshot recorded for a correct hit on expected character `c`: a hit
/// on an ASCII lowercase character is recorded as its uppercase counterpart,
/// so the renderer finds the uppercase key cap; any other hit is recorded as
/// the action that was pressed.
pub open spec fn record_correct(c: char, ka: KeyboardActions) -> KeyboardActions {
    if !is_whitespace_char(c) && !is_ascii_upper(c) && is_ascii_lower(c) {
        spec_from_char(spec_to_upper(c))
    } else {
        ka
    }
}

/// The snapshot recorded for an incorrect hit: a pressed whitespace character
/// is recorded as a plain space, any other pressed character as its ASCII
/// uppercase fold, and a pressed non-character key leaves the previous
/// snapshot standing.
pub open spec fn record_incorrect(prev: Option<KeyboardActions>, ka: KeyboardActions) -> Option<
    KeyboardActions,
> {
    match ka.key_event.code {
        KeyCode::Char(p) => if is_whitespace_char(p) {
            Some(spec_from_char(' '))
        } else {
            Some(spec_from_char(spec_to_upper(p)))
        },
        _ => prev,
    }
}

/// The search buffer after appending `c` to it (a missing buffer counts as
/// empty).
pub open spec fn search_push(q: Option<Seq<char>>, c: char) -> Seq<char> {
    match q {
        Some(t) => t.push(c),
        None => seq![c],
    }
}

/// The search buffer after removing its last character (no change if it is
/// empty or missing).
pub open spec fn search_pop(q: Option<Seq<char>>) -> Option<Seq<char>> {
    match q {
        Some(t) => if t.len() == 0 {
            Some(t)
        } else {
            Some(t.drop_last())
        },
        None => None,
    }
}

/// The state after a keystroke classified while searching: an unmodified
/// character is appended to the search buffer, Backspace removes its last
/// character, anything else only becomes the snapshot.
pub open spec fn search_step(s: StateView, ka: KeyboardActions) -> StateView {
    let edited = if ka.key_event.modifiers != KeyModifier::Control {
        match ka.key_event.code {
            KeyCode::Char(c) => StateView {
                search_request_build: Some(search_push(s.search_request_build, c)),
                ..s
            },
            KeyCode::Backspace => StateView {
                search_request_build: search_pop(s.search_request_build),
                ..s
            },
            _ => s,
        }
    } else {
        s
    };
    StateView { keyboard_actions: Some(ka), ..edited }
}

/// The state after a typing keystroke. With no song loaded, a completed
/// song, or a provider error on display, nothing changes. Otherwise the
/// total-hits counter grows by one; a correct hit also grows the correct-hits
/// counter, advances the cursor, and records the normalized key, while an
/// incorrect hit leaves both and only records the normalized key.
pub open spec fn type_step(s: StateView, ka: KeyboardActions) -> StateView {
    if s.error_string is Some {
        s
    } else {
        match s.expected_char() {
            None => s,
            Some(c) => if is_match(c, ka.key_event.code) {
                StateView {
                    total_hits: s.total_hits + 1,
                    correct_hits: s.correct_hits + 1,
                    correct_hit: true,
                    update_text_color: true,
                    song: Some(s.song->Some_0.advanced()),
                    keyboard_actions: Some(record_correct(c, ka)),
                    ..s
                }
            } else {
                StateView {
                    total_hits: s.total_hits + 1,
                    correct_hit: false,
                    update_text_color: true,
                    keyboard_actions: record_incorrect(s.keyboard_actions, ka),
                    ..s
                }
            },
        }
    }
}

/// One transition of the session state machine: the state after consuming
/// the event, and whether the session should terminate.
///
/// A heartbeat (`NoPress`) only clears the snapshot; an exit action changes
/// nothing and terminates; a committed search moves the search buffer into
/// `search_completed` for the lyrics provider to consume; a pause and a start
/// change nothing in the session state; search and typing keystrokes edit
/// the buffer and drive the cursor as [`search_step`] and [`type_step`] say.
pub open spec fn step(s: StateView, event: KeyboardEvent) -> (StateView, bool) {
    match event {
        KeyboardEvent::NoPress => (
            StateView { correct_hit: false, update_text_color: false, keyboard_actions: None, ..s },
            false,
        ),
        KeyboardEvent::KeyPress(ka) => match ka.state {
            States::SEARCHOFF => (
                StateView {
                    search_completed: s.search_request_build,
                    search_request_build: None,
                    ..s
                },
                false,
            ),
            States::EXIT => (s, true),
            States::PAUSE => (s, false),
            States::SEARCH => (search_step(s, ka), false),
            States::START => (s, false),
            States::TYPE => (type_step(s, ka), false),
        },
    }
}

/// The session state: accuracy counters, the render snapshot, the search
/// buffers, an optional provider error, and the loaded song.
#[derive(Debug)]
pub struct TypingState {
    pub correct_hit: bool,
    pub correct_hits: u32,
    pub keyboard_actions: Option<KeyboardActions>,
    pub search_request_build: Option<Vec<char>>,
    pub error_string: Option<String>,
    pub search_completed: Option<Vec<char>>,
    pub song: Option<Song>,
    pub total_hits: u32,
    pub update_text_color: bool,
}

impl View for TypingState {
    type V = StateView;

    open spec fn view(&self) -> StateView {
        StateView {
            correct_hit: self.correct_hit,
            correct_hits: self.correct_hits as int,
            keyboard_actions: self.keyboard_actions,
            search_request_build: match self.search_request_build {
                Some(q) => Some(q@),
                None => None,
            },
            error_string: match self.error_string {
                Some(e) => Some(e@),
                None => None,
            },
            search_completed: match self.search_completed {
                Some(q) => Some(q@),
                None => None,
            },
            song: match self.song {
                Some(s) => Some(s@),
                None => None,
            },
            total_hits: self.total_hits as int,
            update_text_color: self.update_text_color,
        }
    }
}

impl TypingState {
    /// The state a session starts in: zero counters, no snapshot, no search
    /// text, no error and no song.
    pub fn new() -> (s: TypingState)
        ensures
            s@ == (StateView {
                correct_hit: false,
                correct_hits: 0,
                keyboard_actions: None,
                search_request_build: None,
                error_string: None,
                search_completed: None,
                song: None,
                total_hits: 0,
                update_text_color: false,
            }),
            s@.wf(),
    {
        TypingState {
            correct_hit: false,
            correct_hits: 0,
            keyboard_actions: None,
            search_request_build: None,
            error_string: None,
            search_completed: None,
            song: None,
            total_hits: 0,
            update_text_color: false,
        }
    }

    /// The line the cursor is in, if a song is loaded and not completed.
    pub fn get_sentence(&self) -> (r: Option<&String>)
        requires
            self@.wf(),
        ensures
            match self@.song {
                Some(sv) => if sv.song_status == SongStatus::Continuing {
                    r matches Some(l) && l@ == sv.lines[sv.line_index]
                } else {
                    r is None
                },
                None => r is None,
            },
    {
        match &self.song {
            Some(s) => s.get_sentence_ref(),
            None => None,
        }
    }

    /// The character offset of the cursor within its current line, if a song
    /// is loaded.
    pub fn get_current_cursor_location(&self) -> (r: Option<usize>)
        ensures
            match self@.song {
                Some(sv) => r matches Some(l) && l == sv.cur_loc,
                None => r is None,
            },
    {
        match &self.song {
            Some(s) => Some(s.get_current_location()),
            None => None,
        }
    }

    /// The character the cursor rests on, if a song is loaded and not
    /// completed.
    pub fn get_current_char(&self) -> (r: Option<char>)
        requires
            self@.wf(),
        ensures
            r == self@.expected_char(),
    {
        match &self.song {
            Some(s) => s.get_current_char(),
            None => None,
        }
    }

    /// The traversal status of the loaded song, if one is loaded.
    pub fn get_current_status(&self) -> (r: Option<SongStatus>)
        ensures
            match self@.song {
                Some(sv) => r == Some(sv.song_status),
                None => r is None,
            },
    {
        match &self.song {
            Some(s) => Some(s.get_current_status()),
            None => None,
        }
    }

    /// Append `c` to the in-progress search text, starting a fresh buffer if
    /// none is in progress.
    fn build_search_request(&mut self, c: char)
        ensures
            final(self)@ == (StateView {
                search_request_build: Some(
                    search_push(old(self)@.search_request_build, c),
                ),
                ..old(self)@
            }),
    {
        let mut s = match self.search_request_build.take() {
            Some(t) => t,
            None => Vec::new(),
        };
        s.push(c);
        self.search_request_build = Some(s);
        proof {
            assert(self@ =~~= (StateView {
                search_request_build: Some(search_push(old(self)@.search_request_build, c)),
                ..old(self)@
            }));
        }
    }

    /// Remove the last character of the in-progress search text; editing an
    /// empty or missing buffer changes nothing.
    fn delete_chars_search_request(&mut self)
        ensures
            final(self)@ == (StateView {
                search_request_build: search_pop(old(self)@.search_request_build),
                ..old(self)@
            }),
    {
        if let Some(mut sr) = self.search_request_build.take() {
            sr.pop();
            self.search_request_build = Some(sr);
        }
        proof {
            assert(self@ =~~= (StateView {
                search_request_build: search_pop(old(self)@.search_request_build),
                ..old(self)@
            }));
        }
    }

    /// Consume one multiplexed event and say whether the session terminates.
    ///
    /// The transition taken is exactly [`step`] on the state's mathematical
    /// value; see there for the per-event behaviour.
    pub fn process_events_or_exit(&mut self, key_press_event: KeyboardEvent) -> (quit: bool)
        requires
            old(self)@.wf(),
            old(self)@.total_hits < u32::MAX,
        ensures
            final(self)@ == step(old(self)@, key_press_event).0,
            quit == step(old(self)@, key_press_event).1,
            final(self)@.wf(),
    {
        let ghost pre = self@;
        match key_press_event {
            KeyboardEvent::KeyPress(keyboard_actions) => {
                match keyboard_actions.state {
                    States::SEARCHOFF => {
                        self.search_completed = self.search_request_build.take();
                        proof {
                            assert(self@ =~~= step(pre, key_press_event).0);
                        }
                        false
                    },
                    States::EXIT => true,
                    States::PAUSE => false,
                    States::SEARCH => {
                        if keyboard_actions.key_event.modifiers != KeyModifier::Control {
                            match keyboard_actions.key_event.code {
                                KeyCode::Char(c) => self.build_search_request(c),
                                KeyCode::Backspace => self.delete_chars_search_request(),
                                _ => (),
                            }
                        }
                        self.keyboard_actions = Some(keyboard_actions);
                        proof {
                            assert(self@ =~~= step(pre, key_press_event).0);
                        }
                        false
                    },
                    States::START => false,
                    States::TYPE => {
                        if self.error_string.is_some() {
                            return false;
                        }
                        let c = match self.get_current_char() {
                            Some(c) => c,
                            None => {
                                return false;
                            },
                        };
                        self.total_hits = self.total_hits + 1;
                        let code = keyboard_actions.key_event.code;
                        if is_whitespace(c) && code == KeyCode::Char(c) {
                            self.correct_hits = self.correct_hits + 1;
                            self.correct_hit = true;
                            self.update_text_color = true;
                            if let Some(s) = &mut self.song {
                                s.update_sentence();
                            }
                            self.keyboard_actions = Some(keyboard_actions);
                        } else if c >= 'A' && c <= 'Z' && code == KeyCode::Char(c) {
                            self.correct_hits = self.correct_hits + 1;
                            self.correct_hit = true;
                            self.update_text_color = true;
                            if let Some(s) = &mut self.song {
                                s.update_sentence();
                            }
                            self.keyboard_actions = Some(keyboard_actions);
                        } else if c >= 'a' && c <= 'z' && (code == KeyCode::Char(c) || code
                            == KeyCode::Char(to_ascii_upper(c))) {
                            self.correct_hits = self.correct_hits + 1;
                            self.correct_hit = true;
                            self.update_text_color = true;
                            if let Some(s) = &mut self.song {
                                s.update_sentence();
                            }
                            let updated_keyboard_action = KeyboardActions::from_char(
                                to_ascii_upper(c),
                            );
                            self.keyboard_actions = Some(updated_keyboard_action);
                        } else if code == KeyCode::Char(c) {
                            self.correct_hits = self.correct_hits + 1;
                            self.correct_hit = true;
                            self.update_text_color = true;
                            if let Some(s) = &mut self.song {
                                s.update_sentence();
                            }
                            self.keyboard_actions = Some(keyboard_actions);
                        } else {
                            if let KeyCode::Char(incorrect_typed_char) = code {
                                if is_whitespace(incorrect_typed_char) {
                                    let updated_keyboard_action = KeyboardActions::from_char(' ');
                                    self.keyboard_actions = Some(updated_keyboard_action);
                                } else {
                                    let updated_keyboard_action = KeyboardActions::from_char(
                                        to_ascii_upper(incorrect_typed_char),
                                    );
                                    self.keyboard_actions = Some(updated_keyboard_action);
                                }
                            }
                            self.correct_hit = false;
                            self.update_text_color = true;
                        }
                        proof {
                            assert(self@ =~~= step(pre, key_press_event).0);
                        }
                        false
                    },
                }
            },
            KeyboardEvent::NoPress => {
                self.correct_hit = false;
                self.update_text_color = false;
                self.keyboard_actions = None;
                proof {
                    assert(self@ =~~= step(pre, key_press_event).0);
                }
                false
            },
        }
    }
}

} // verus!
