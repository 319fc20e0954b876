use mail_reader::text::{chars_of, find_first, has_substring, matches_at};

fn chars(s: &str) -> Vec<char> {
    s.chars().collect()
}

#[test]
fn chars_of_lists_the_characters() {
    assert_eq!(chars_of("añb"), vec!['a', 'ñ', 'b']);
    assert_eq!(chars_of(""), Vec::<char>::new());
}

#[test]
fn find_first_finds_the_first() {
    assert_eq!(find_first(&chars("a@b@c"), '@'), Some(1));
    assert_eq!(find_first(&chars("@"), '@'), Some(0));
    assert_eq!(find_first(&chars("abc"), '@'), None);
    assert_eq!(find_first(&chars(""), '@'), None);
}

#[test]
fn matches_at_compares_a_window() {
    assert!(matches_at(&chars("hello"), &chars("ell"), 1));
    assert!(!matches_at(&chars("hello"), &chars("ell"), 2));
    assert!(matches_at(&chars("hello"), &chars(""), 5));
    assert!(matches_at(&chars("hello"), &chars("hello"), 0));
}

#[test]
fn has_substring_searches_every_position() {
    assert!(has_substring(&chars("hello"), &chars("lo")));
    assert!(has_substring(&chars("hello"), &chars("he")));
    assert!(has_substring(&chars("hello"), &chars("")));
    assert!(has_substring(&chars(""), &chars("")));
    assert!(!has_substring(&chars("hello"), &chars("lol")));
    assert!(!has_substring(&chars("hi"), &chars("hello")));
    assert!(has_substring(&chars("aab"), &chars("ab")));
}
