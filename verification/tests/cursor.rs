use lyric_drill::song::{Song, SongStatus};

fn song(lines: Vec<&str>) -> Song {
    Song::new(lines.into_iter().map(|l| l.to_string()).collect())
}

#[test]
fn cursor_walks_lines_and_skips_empty_ones() {
    let mut s = song(vec!["ab", "", "c"]);
    assert_eq!(s.line_index, 0);
    assert_eq!(s.get_current_char(), Some('a'));
    s.update_sentence();
    assert_eq!(s.get_current_char(), Some('b'));
    assert_eq!(s.get_current_location(), 1);
    s.update_sentence();
    assert_eq!(s.line_index, 2);
    assert_eq!(s.get_current_char(), Some('c'));
    s.update_sentence();
    assert_eq!(s.get_current_status(), SongStatus::Completed);
    assert_eq!(s.get_current_char(), None);
}

#[test]
fn new_song_skips_leading_empty_lines() {
    let s = song(vec!["", "", "hi"]);
    assert_eq!(s.line_index, 2);
    assert_eq!(s.get_current_char(), Some('h'));
    assert_eq!(s.get_current_status(), SongStatus::Continuing);
}

#[test]
fn song_of_no_lines_is_completed_at_once() {
    let s = song(vec![]);
    assert_eq!(s.get_current_status(), SongStatus::Completed);
    assert_eq!(s.get_current_char(), None);
    assert_eq!(s.get_sentence_ref(), None);
}

#[test]
fn all_empty_song_completes_within_line_count_advances() {
    let mut s = song(vec!["", "", ""]);
    let count = 3;
    for _ in 0..count {
        s.update_sentence();
    }
    assert_eq!(s.get_current_status(), SongStatus::Completed);
    assert!(s.line_index <= count);
}

#[test]
fn line_index_never_exceeds_line_count() {
    let mut s = song(vec!["ab", "c"]);
    for _ in 0..10 {
        s.update_sentence();
        assert!((s.line_index as usize) <= 2);
    }
    assert_eq!(s.get_current_status(), SongStatus::Completed);
}

#[test]
fn sentence_ref_names_the_current_line() {
    let s = song(vec!["one", "two"]);
    assert_eq!(s.get_sentence_ref().map(|l| l.as_str()), Some("one"));
}

#[test]
fn unicode_line_is_walked_by_characters() {
    let mut s = song(vec!["héé"]);
    assert_eq!(s.get_current_char(), Some('h'));
    s.update_sentence();
    assert_eq!(s.get_current_char(), Some('é'));
    s.update_sentence();
    assert_eq!(s.get_current_char(), Some('é'));
    s.update_sentence();
    assert_eq!(s.get_current_status(), SongStatus::Completed);
}
