//! The lyric cursor: an ordered sequence of lyric lines and a position in it,
//! advanced one character at a time, skipping over empty lines, and marked
//! completed once the position leaves the last line.

use vstd::prelude::*;
use vstd::string::StrSliceExecFns;

verus! {

/// Whether the lyric traversal is still going or has covered the whole song.
#[derive(Clone, Copy, Debug, PartialEq, Eq, Structural)]
pub enum SongStatus {
    Completed,
    Continuing,
}

/// The mathematical value of a [`Song`]: its lines as character sequences,
/// the cursor position, and the traversal status.
#[verifier::ext_equal]
pub struct SongView {
    pub lines: Seq<Seq<char>>,
    pub line_index: int,
    pub cur_loc: int,
    pub song_status: SongStatus,
}

/// The first index at or after `i` of a non-empty line, or the number of
/// lines if every line from `i` on is empty.
pub open spec fn skip_empty(lines: Seq<Seq<char>>, i: int) -> int
    decreases lines.len() - i,
{
    if i >= lines.len() {
        lines.len() as int
    } else if lines[i].len() > 0 {
        i
    } else {
        skip_empty(lines, i + 1)
    }
}

impl SongView {
    /// The cursor either rests on a character of a non-empty line, or the
    /// song is completed and the position is pinned just past the last line.
    pub open spec fn wf(self) -> bool {
        match self.song_status {
            SongStatus::Continuing => 0 <= self.line_index < self.lines.len() && 0 <= self.cur_loc
                < self.lines[self.line_index].len(),
            SongStatus::Completed => self.line_index == self.lines.len() && self.cur_loc == 0,
        }
    }

    /// The freshly loaded cursor over the given lines: at the first character
    /// of the first non-empty line, or completed if every line is empty.
    pub open spec fn fresh(lines: Seq<Seq<char>>) -> SongView {
        let j = skip_empty(lines, 0);
        if j == lines.len() {
            SongView {
                lines,
                line_index: lines.len() as int,
                cur_loc: 0,
                song_status: SongStatus::Completed,
            }
        } else {
            SongView { lines, line_index: j, cur_loc: 0, song_status: SongStatus::Continuing }
        }
    }

    /// The character the cursor rests on, or nothing once the song is
    /// completed.
    pub open spec fn current_char(self) -> Option<char> {
        if self.song_status == SongStatus::Continuing {
            Some(self.lines[self.line_index][self.cur_loc])
        } else {
            None
        }
    }

    /// The cursor one character further: to the next character of the current
    /// line, else to the first character of the next non-empty line, else
    /// completed. A completed cursor stays as it is.
    pub open spec fn advanced(self) -> SongView {
        if self.song_status == SongStatus::Completed {
            self
        } else if self.cur_loc + 1 < self.lines[self.line_index].len() {
            SongView { cur_loc: self.cur_loc + 1, ..self }
        } else {
            let j = skip_empty(self.lines, self.line_index + 1);
            if j == self.lines.len() {
                SongView {
                    lines: self.lines,
                    line_index: self.lines.len() as int,
                    cur_loc: 0,
                    song_status: SongStatus::Completed,
                }
            } else {
                SongView {
                    lines: self.lines,
                    line_index: j,
                    cur_loc: 0,
                    song_status: SongStatus::Continuing,
                }
            }
        }
    }
}

/// The lines of a song as their character sequences.
pub open spec fn lines_view(lines: Seq<String>) -> Seq<Seq<char>> {
    lines.map_values(|l: String| l@)
}

/// An ordered sequence of lyric lines with a cursor over their characters.
#[derive(Debug)]
pub struct Song {
    pub lines: Vec<String>,
    pub line_index: usize,
    pub cur_loc: usize,
    pub song_status: SongStatus,
}

impl View for Song {
    type V = SongView;

    open spec fn view(&self) -> SongView {
        SongView {
            lines: lines_view(self.lines@),
            line_index: self.line_index as int,
            cur_loc: self.cur_loc as int,
            song_status: self.song_status,
        }
    }
}

/// Bounds within which `skip_empty` lands, and the emptiness of every line it
/// passed over.
pub proof fn lemma_skip_empty(lines: Seq<Seq<char>>, i: int)
    requires
        0 <= i <= lines.len(),
    ensures
        i <= skip_empty(lines, i) <= lines.len(),
        skip_empty(lines, i) < lines.len() ==> lines[skip_empty(lines, i)].len() > 0,
        forall|k: int| i <= k < skip_empty(lines, i) ==> lines[k].len() == 0,
    decreases lines.len() - i,
{
    if i < lines.len() && lines[i].len() == 0 {
        lemma_skip_empty(lines, i + 1);
    }
}

impl Song {
    /// Load a song: position the cursor at the first character of the first
    /// non-empty line, or mark the song completed outright if every line is
    /// empty (in particular if there are no lines at all).
    pub fn new(lines: Vec<String>) -> (s: Song)
        ensures
            s@ == SongView::fresh(lines_view(lines@)),
            s@.wf(),
    {
        let ghost lv = lines_view(lines@);
        let n = lines.len();
        let mut j: usize = 0;
        while j < n && lines[j].as_str().is_empty()
            invariant
                0 <= j <= n,
                n == lines.len(),
                lv == lines_view(lines@),
                skip_empty(lv, 0) == skip_empty(lv, j as int),
            decreases n - j,
        {
            j = j + 1;
        }
        proof {
            lemma_skip_empty(lv, j as int);
            assert(skip_empty(lv, j as int) == j as int);
        }
        if j < n {
            let s = Song {
                lines,
                line_index: j,
                cur_loc: 0,
                song_status: SongStatus::Continuing,
            };
            proof {
                assert(s@ =~= SongView::fresh(lv));
            }
            s
        } else {
            let s = Song {
                lines,
                line_index: n,
                cur_loc: 0,
                song_status: SongStatus::Completed,
            };
            proof {
                assert(s@ =~= SongView::fresh(lv));
            }
            s
        }
    }

    /// The line the cursor is in, or nothing once the song is completed.
    pub fn get_sentence_ref(&self) -> (r: Option<&String>)
        requires
            self@.wf(),
        ensures
            self@.song_status == SongStatus::Continuing ==> (r matches Some(l) && l@
                == self@.lines[self@.line_index]),
            self@.song_status == SongStatus::Completed ==> r is None,
    {
        match self.song_status {
            SongStatus::Continuing => Some(&self.lines[self.line_index]),
            SongStatus::Completed => None,
        }
    }

    /// The character the cursor rests on, or nothing once the song is
    /// completed.
    pub fn get_current_char(&self) -> (r: Option<char>)
        requires
            self@.wf(),
        ensures
            r == self@.current_char(),
    {
        match self.song_status {
            SongStatus::Continuing => Some(self.lines[self.line_index].as_str().get_char(self.cur_loc)),
            SongStatus::Completed => None,
        }
    }

    /// The character offset of the cursor within its current line.
    pub fn get_current_location(&self) -> (r: usize)
        ensures
            r == self@.cur_loc,
    {
        self.cur_loc
    }

    /// Whether the traversal is still going or the song is completed.
    pub fn get_current_status(&self) -> (r: SongStatus)
        ensures
            r == self@.song_status,
    {
        self.song_status
    }

    /// Advance the cursor one character: to the next character of the current
    /// line, else past any empty lines to the first character of the next
    /// non-empty line, else mark the song completed. Advancing a completed
    /// song changes nothing. The skip over empty lines stops at the line
    /// count, so it is finite even for a song of empty lines only.
    pub fn update_sentence(&mut self)
        requires
            old(self)@.wf(),
        ensures
            final(self)@ == old(self)@.advanced(),
            final(self)@.wf(),
    {
        let ghost pre = self@;
        match self.song_status {
            SongStatus::Completed => {
                proof {
                    assert(self@ =~= pre.advanced());
                }
            },
            SongStatus::Continuing => {
                let line_len = self.lines[self.line_index].as_str().unicode_len();
                if self.cur_loc + 1 < line_len {
                    self.cur_loc = self.cur_loc + 1;
                    proof {
                        assert(self@ =~= pre.advanced());
                    }
                } else {
                    let n = self.lines.len();
                    let mut j: usize = self.line_index + 1;
                    while j < n && self.lines[j].as_str().is_empty()
                        invariant
                            pre.line_index + 1 <= j <= n,
                            n == self.lines.len(),
                            self@ == pre,
                            skip_empty(pre.lines, pre.line_index + 1) == skip_empty(
                                pre.lines,
                                j as int,
                            ),
                        decreases n - j,
                    {
                        j = j + 1;
                    }
                    proof {
                        lemma_skip_empty(pre.lines, j as int);
                        assert(skip_empty(pre.lines, j as int) == j as int);
                    }
                    if j < n {
                        self.line_index = j;
                        self.cur_loc = 0;
                        proof {
                            assert(self@ =~= pre.advanced());
                        }
                    } else {
                        self.line_index = n;
                        self.cur_loc = 0;
                        self.song_status = SongStatus::Completed;
                        proof {
                            assert(self@ =~= pre.advanced());
                        }
                    }
                }
            },
        }
    }
}

} // verus!
