use lyric_drill::query::build_lyrics_query;

fn chars(s: &str) -> Vec<char> {
    s.chars().collect()
}

fn built(s: &str) -> Option<Vec<(char, String)>> {
    build_lyrics_query(&chars(s)).map(|ps| {
        ps.into_iter()
            .map(|(m, v)| (m, v.into_iter().collect::<String>()))
            .collect()
    })
}

#[test]
fn title_and_artist_query_builds_two_pairs() {
    assert_eq!(
        built("t: Paranoid, a: Black Sabbath"),
        Some(vec![
            ('t', "Paranoid".to_string()),
            ('a', "Black Sabbath".to_string()),
        ])
    );
}

#[test]
fn marker_case_is_ignored_and_normalized() {
    assert_eq!(
        built("T:War Pigs,A:Black Sabbath"),
        Some(vec![
            ('t', "War Pigs".to_string()),
            ('a', "Black Sabbath".to_string()),
        ])
    );
}

#[test]
fn values_are_trimmed() {
    assert_eq!(
        built("a:  Dio , t:  Holy Diver  "),
        Some(vec![
            ('a', "Dio".to_string()),
            ('t', "Holy Diver".to_string()),
        ])
    );
}

#[test]
fn a_single_marker_is_not_enough() {
    assert_eq!(built("t: Paranoid"), None);
}

#[test]
fn three_markers_are_too_many() {
    assert_eq!(built("t: x, a: y, t: z"), None);
}

#[test]
fn a_trailing_marker_without_value_builds_nothing() {
    assert_eq!(built("a: y, t"), None);
}

#[test]
fn a_space_before_the_colon_unmarks_the_marker() {
    assert_eq!(built("t : x, a: y"), None);
}

#[test]
fn empty_query_builds_nothing() {
    assert_eq!(built(""), None);
}

#[test]
fn marker_value_pairs_keep_query_order() {
    assert_eq!(
        built("a: Rainbow, t: Stargazer"),
        Some(vec![
            ('a', "Rainbow".to_string()),
            ('t', "Stargazer".to_string()),
        ])
    );
}
