//! Session-wide laws, proved over the spec-level models: a perfect typing run
//! completes the song and counts every keystroke, exit and heartbeat events
//! mutate nothing, the matching policy is case-insensitive exactly for ASCII
//! lowercase expectations, the cursor never leaves the line range, and
//! committing a search moves the buffer wholesale.

use vstd::prelude::*;

use crate::chars::{is_ascii_lower, is_whitespace_char, spec_to_upper};
use crate::keyboard_event::{classify, spec_from_char, KeyboardActions, KeyboardEvent, States};
use crate::keyboard_event::{multiplex_spec, TerminalInput};
use crate::keys::{KeyCode, KeyEvent, KeyModifier};
use crate::song::{lemma_skip_empty, skip_empty, SongStatus, SongView};
use crate::state::{is_match, step, StateView};

verus! {

/// Every character of the lines from index `j` on, in order.
pub open spec fn rest_chars(lines: Seq<Seq<char>>, j: int) -> Seq<char>
    decreases lines.len() - j,
{
    if j < 0 || j >= lines.len() {
        Seq::empty()
    } else {
        lines[j] + rest_chars(lines, j + 1)
    }
}

/// The characters a cursor still has to cover: the rest of its current line,
/// then every later line. A completed cursor has none.
pub open spec fn remaining_of(sv: SongView) -> Seq<char> {
    if sv.song_status == SongStatus::Continuing && 0 <= sv.line_index < sv.lines.len() && 0
        <= sv.cur_loc <= sv.lines[sv.line_index].len() {
        sv.lines[sv.line_index].skip(sv.cur_loc) + rest_chars(sv.lines, sv.line_index + 1)
    } else {
        Seq::empty()
    }
}

/// The characters the session still has to cover, if a song is loaded.
pub open spec fn pending_chars(s: StateView) -> Seq<char> {
    match s.song {
        Some(sv) => remaining_of(sv),
        None => Seq::empty(),
    }
}

/// The multiplexed event for pressing the plain, unmodified key of `c`.
pub open spec fn type_event(c: char) -> KeyboardEvent {
    KeyboardEvent::KeyPress(
        KeyboardActions {
            key_event: KeyEvent { code: KeyCode::Char(c), modifiers: KeyModifier::NoModifier },
            state: States::TYPE,
        },
    )
}

/// The chars from `j` on are exactly the chars from the first non-empty line
/// at or after `j` on: skipped lines contribute nothing.
pub proof fn lemma_rest_chars_skip_empty(lines: Seq<Seq<char>>, j: int)
    requires
        0 <= j <= lines.len(),
    ensures
        skip_empty(lines, j) == lines.len() ==> rest_chars(lines, j) =~= Seq::<char>::empty(),
        skip_empty(lines, j) < lines.len() ==> rest_chars(lines, j) =~= lines[skip_empty(lines, j)]
            + rest_chars(lines, skip_empty(lines, j) + 1),
    decreases lines.len() - j,
{
    if j < lines.len() {
        if lines[j].len() == 0 {
            lemma_rest_chars_skip_empty(lines, j + 1);
            assert(rest_chars(lines, j) =~= rest_chars(lines, j + 1));
        }
    }
}

/// Advancing a well-formed, continuing cursor keeps it well formed and drops
/// exactly the first of its remaining characters, which is the character the
/// cursor rested on.
pub proof fn lemma_remaining_advanced(sv: SongView)
    requires
        sv.wf(),
        sv.song_status == SongStatus::Continuing,
    ensures
        remaining_of(sv).len() >= 1,
        remaining_of(sv)[0] == sv.current_char()->Some_0,
        sv.advanced().wf(),
        sv.advanced().lines == sv.lines,
        remaining_of(sv.advanced()) =~= remaining_of(sv).drop_first(),
        (sv.advanced().song_status == SongStatus::Completed <==> remaining_of(sv).len() == 1),
{
    let lines = sv.lines;
    let li = sv.line_index;
    let ci = sv.cur_loc;
    assert(remaining_of(sv) =~= lines[li].skip(ci) + rest_chars(lines, li + 1));
    if ci + 1 < lines[li].len() {
        assert(remaining_of(sv.advanced()) =~= remaining_of(sv).drop_first());
    } else {
        let j = skip_empty(lines, li + 1);
        lemma_skip_empty(lines, li + 1);
        lemma_rest_chars_skip_empty(lines, li + 1);
        if j == lines.len() {
            assert(remaining_of(sv).drop_first() =~= rest_chars(lines, li + 1));
            assert(remaining_of(sv.advanced()) =~= remaining_of(sv).drop_first());
        } else {
            assert(remaining_of(sv.advanced()) =~= lines[j].skip(0) + rest_chars(lines, j + 1));
            assert(lines[j].skip(0) =~= lines[j]);
            assert(remaining_of(sv).drop_first() =~= rest_chars(lines, li + 1));
            assert(remaining_of(sv.advanced()) =~= remaining_of(sv).drop_first());
            assert(remaining_of(sv.advanced()).len() >= lines[j].len() >= 1);
        }
    }
}

/// Typing the exact expected character is always a correct hit: both counters
/// grow by one, the cursor advances by one character, and nothing else of the
/// session changes.
pub proof fn lemma_exact_keystroke_is_correct(s: StateView)
    requires
        s.wf(),
        s.error_string is None,
        pending_chars(s).len() > 0,
    ensures
        s.expected_char() matches Some(c) && {
            let (s2, quit) = step(s, type_event(c));
            &&& !quit
            &&& s2.wf()
            &&& s2.error_string is None
            &&& s2.total_hits == s.total_hits + 1
            &&& s2.correct_hits == s.correct_hits + 1
            &&& s2.song is Some
            &&& pending_chars(s2) =~= pending_chars(s).drop_first()
            &&& s2.search_request_build == s.search_request_build
            &&& s2.search_completed == s.search_completed
        },
{
    let sv = s.song->Some_0;
    assert(sv.song_status == SongStatus::Continuing);
    let c = sv.lines[sv.line_index][sv.cur_loc];
    lemma_remaining_advanced(sv);
    assert(is_match(c, KeyCode::Char(c)));
}

/// The session state after typing, with exact case, every character the
/// loaded song still expects. A session with no song loaded, a provider
/// error shown, or an ill-formed state is left as it is.
pub open spec fn type_all(s: StateView) -> StateView
    decreases pending_chars(s).len(),
        via type_all_decreases
{
    if s.wf() && s.error_string is None && pending_chars(s).len() > 0 {
        type_all(step(s, type_event(s.expected_char()->Some_0)).0)
    } else {
        s
    }
}

#[via_fn]
proof fn type_all_decreases(s: StateView) {
    if s.wf() && s.error_string is None && pending_chars(s).len() > 0 {
        lemma_exact_keystroke_is_correct(s);
    }
}

/// Typing every character of every line with exact case yields as many
/// correct hits as total hits, namely one per remaining character, and ends
/// with the song completed.
pub proof fn lemma_perfect_typing_completes(s: StateView)
    requires
        s.wf(),
        s.error_string is None,
        s.song is Some,
    ensures
        ({
            let fin = type_all(s);
            let n = pending_chars(s).len();
            &&& fin.correct_hits == s.correct_hits + n
            &&& fin.total_hits == s.total_hits + n
            &&& fin.song matches Some(sv) && sv.song_status == SongStatus::Completed
        }),
    decreases pending_chars(s).len(),
{
    if pending_chars(s).len() > 0 {
        lemma_exact_keystroke_is_correct(s);
        let c = s.expected_char()->Some_0;
        lemma_perfect_typing_completes(step(s, type_event(c)).0);
    } else {
        let sv = s.song->Some_0;
        if sv.song_status == SongStatus::Continuing {
            assert(remaining_of(sv) =~= sv.lines[sv.line_index].skip(sv.cur_loc) + rest_chars(
                sv.lines,
                sv.line_index + 1,
            ));
            assert(remaining_of(sv).len() >= 1);
        }
    }
}

/// A freshly loaded song still expects every character of every line, in
/// order, and its cursor is well formed.
pub proof fn lemma_fresh_song_pending(lines: Seq<Seq<char>>)
    ensures
        SongView::fresh(lines).wf(),
        remaining_of(SongView::fresh(lines)) =~= rest_chars(lines, 0),
{
    lemma_skip_empty(lines, 0);
    lemma_rest_chars_skip_empty(lines, 0);
    let j = skip_empty(lines, 0);
    if j < lines.len() {
        assert(remaining_of(SongView::fresh(lines)) =~= lines[j].skip(0) + rest_chars(
            lines,
            j + 1,
        ));
        assert(lines[j].skip(0) =~= lines[j]);
    }
}

/// A session that starts at zero counters on a freshly loaded song and types
/// every character of every line with exact case ends with the song
/// completed and with correct hits equal to total hits equal to the song's
/// character count.
pub proof fn lemma_perfect_session(s: StateView, lines: Seq<Seq<char>>)
    requires
        s.wf(),
        s.error_string is None,
        s.correct_hits == 0,
        s.total_hits == 0,
        s.song == Some(SongView::fresh(lines)),
    ensures
        ({
            let fin = type_all(s);
            &&& fin.correct_hits == rest_chars(lines, 0).len()
            &&& fin.total_hits == rest_chars(lines, 0).len()
            &&& fin.song matches Some(sv) && sv.song_status == SongStatus::Completed
        }),
{
    lemma_fresh_song_pending(lines);
    lemma_perfect_typing_completes(s);
}

/// An exit action terminates the session from any state and mutates nothing:
/// no counter, no buffer, no song.
pub proof fn lemma_exit_changes_nothing(s: StateView, ka: KeyboardActions)
    requires
        ka.state == States::EXIT,
    ensures
        step(s, KeyboardEvent::KeyPress(ka)) == (s, true),
{
}

/// An expected whitespace character accepts exactly the one keypress of that
/// character: anything else is an incorrect hit that still counts one total
/// hit and moves neither the correct-hits counter nor the cursor.
pub proof fn lemma_whitespace_expects_exact_space(s: StateView, ka: KeyboardActions, c: char)
    requires
        s.wf(),
        s.error_string is None,
        ka.state == States::TYPE,
        s.expected_char() == Some(c),
        is_whitespace_char(c),
    ensures
        ({
            let (s2, quit) = step(s, KeyboardEvent::KeyPress(ka));
            &&& !quit
            &&& s2.total_hits == s.total_hits + 1
            &&& (s2.correct_hits == s.correct_hits + 1 <==> ka.key_event.code == KeyCode::Char(c))
            &&& (ka.key_event.code != KeyCode::Char(c) ==> s2.correct_hits == s.correct_hits
                && s2.song == s.song)
        }),
{
}

/// An expected ASCII lowercase character accepts its uppercase counterpart
/// as a correct hit, and the snapshot then records the uppercase form; a
/// keypress matching neither case is an incorrect hit that still counts one
/// total hit and moves neither the correct-hits counter nor the cursor.
pub proof fn lemma_lowercase_accepts_either_case(s: StateView, ka: KeyboardActions, c: char)
    requires
        s.wf(),
        s.error_string is None,
        ka.state == States::TYPE,
        s.expected_char() == Some(c),
        is_ascii_lower(c),
    ensures
        ({
            let (s2, quit) = step(s, KeyboardEvent::KeyPress(ka));
            &&& !quit
            &&& s2.total_hits == s.total_hits + 1
            &&& (s2.correct_hits == s.correct_hits + 1 <==> (ka.key_event.code == KeyCode::Char(c)
                || ka.key_event.code == KeyCode::Char(spec_to_upper(c))))
            &&& (ka.key_event.code == KeyCode::Char(c) || ka.key_event.code == KeyCode::Char(
                spec_to_upper(c),
            ) ==> s2.keyboard_actions == Some(spec_from_char(spec_to_upper(c))))
            &&& (!(ka.key_event.code == KeyCode::Char(c) || ka.key_event.code == KeyCode::Char(
                spec_to_upper(c),
            )) ==> s2.correct_hits == s.correct_hits && s2.song == s.song)
        }),
{
}

/// A well-formed cursor never reports a line index beyond the line count,
/// and advancing keeps it that way over the same lines.
pub proof fn lemma_cursor_stays_in_bounds(sv: SongView)
    requires
        sv.wf(),
    ensures
        0 <= sv.line_index <= sv.lines.len(),
        sv.advanced().wf(),
        0 <= sv.advanced().line_index <= sv.advanced().lines.len(),
        sv.advanced().lines == sv.lines,
{
    if sv.song_status == SongStatus::Continuing {
        lemma_remaining_advanced(sv);
    }
}

/// A song of empty lines only is completed the moment it is loaded, and
/// stays completed however often the cursor advances.
pub proof fn lemma_all_empty_song_is_completed(lines: Seq<Seq<char>>)
    requires
        forall|i: int| 0 <= i < lines.len() ==> lines[i].len() == 0,
    ensures
        SongView::fresh(lines).song_status == SongStatus::Completed,
        SongView::fresh(lines).advanced() == SongView::fresh(lines),
{
    lemma_skip_empty(lines, 0);
}

/// Pressing Enter while searching classifies as a search commit, and the
/// commit moves the whole in-progress search text into the completed slot,
/// clears the in-progress buffer, touches no counter and does not terminate.
pub proof fn lemma_enter_commits_search(s: StateView)
    ensures
        ({
            let enter = KeyEvent { code: KeyCode::Enter, modifiers: KeyModifier::NoModifier };
            let (action, st2) = classify(enter, States::SEARCH);
            let (s2, quit) = step(s, KeyboardEvent::KeyPress(action));
            &&& st2 == States::SEARCHOFF
            &&& action.state == States::SEARCHOFF
            &&& !quit
            &&& s2.search_completed == s.search_request_build
            &&& s2.search_request_build is None
            &&& s2.total_hits == s.total_hits
            &&& s2.correct_hits == s.correct_hits
            &&& s2.song == s.song
        }),
{
}

/// A heartbeat with no keypress is multiplexed into exactly one `NoPress`
/// without touching the classifier state, and consuming that event mutates
/// no counter, no search text and no cursor: it only clears the snapshot.
pub proof fn lemma_heartbeat_mutates_nothing(s: StateView, st: States)
    ensures
        multiplex_spec(TerminalInput::Heartbeat, st) == (
            Some(KeyboardEvent::NoPress),
            st,
        ),
        ({
            let (s2, quit) = step(s, KeyboardEvent::NoPress);
            &&& !quit
            &&& s2.total_hits == s.total_hits
            &&& s2.correct_hits == s.correct_hits
            &&& s2.song == s.song
            &&& s2.search_request_build == s.search_request_build
            &&& s2.search_completed == s.search_completed
            &&& s2.error_string == s.error_string
            &&& s2.keyboard_actions is None
        }),
{
}

} // verus!
