use rocm_examine::number::{decimal, parse_u32};
use rocm_examine::order::{comes_first, sort};
use rocm_examine::split::{concat3, first_line_of, first_word_of, has_item, join, lines, replace, split, words};
use rocm_examine::text::{
    chars_of, clip, contains, cut_at_last, eq_ignore_ascii_case, find, is_whitespace, same_text,
    split_once, starts_with, string_of, strip_prefix, to_ascii_lower, to_digit, trim,
    trim_matches, trim_start,
};
use rocm_examine::textmap::TextMap;
use rocm_examine::utf16::decode_utf16le;

/// Texts with blanks, line ends, separators and characters of every width.
fn samples() -> Vec<String> {
    let mut out: Vec<String> = [
        "",
        " ",
        "\n",
        "\r\n",
        "\r",
        "a",
        "a\n",
        "a\r",
        "a\r\n\r\nb",
        "a\n\nb\n",
        "a b  c\td",
        "  lead and trail \u{3000}",
        "\u{a0}no-break\u{85}",
        "key=value=more",
        "=",
        "||",
        "|a||b|",
        "...6.4.1..",
        "abcabcabab",
        "\u{e9}t\u{e9} \u{65e5}\u{672c}\u{8a9e} \u{1f600}",
        "\u{1f600}\u{1f600}",
    ]
    .iter()
    .map(|s| (*s).to_owned())
    .collect();
    let joined = out.join("|");
    out.push(joined);
    out
}

#[test]
fn every_character_is_blank_exactly_where_std_says_so() {
    for code in 0..=0x10ffff_u32 {
        if let Some(c) = char::from_u32(code) {
            assert_eq!(is_whitespace(c), c.is_whitespace(), "{code:x}");
            assert_eq!(to_digit(c), c.to_digit(10), "{code:x}");
            assert_eq!(to_ascii_lower(c), c.to_ascii_lowercase(), "{code:x}");
        }
    }
}

#[test]
fn texts_are_trimmed_as_std_trims_them() {
    for s in samples() {
        assert_eq!(trim(&s), s.trim());
        assert_eq!(trim_start(&s), s.trim_start());
        assert_eq!(trim_matches(&s, '.'), s.trim_matches('.'));
        assert_eq!(trim_matches(&s, '|'), s.trim_matches('|'));
    }
}

#[test]
fn texts_are_split_as_std_splits_them() {
    for s in samples() {
        assert_eq!(lines(&s), s.lines().collect::<Vec<_>>(), "{s:?}");
        assert_eq!(words(&s), s.split_whitespace().collect::<Vec<_>>(), "{s:?}");
        for c in ['|', '=', '.', ':'] {
            assert_eq!(split(&s, c), s.split(c).collect::<Vec<_>>(), "{s:?}");
            assert_eq!(
                split_once(&s, c),
                s.split_once(c).map(|(a, b)| (a.to_owned(), b.to_owned()))
            );
            assert_eq!(cut_at_last(&s, c), s.rfind(c).map_or(s.as_str(), |i| &s[..i]));
        }
        assert_eq!(first_line_of(&s), s.lines().next().unwrap_or_default());
        assert_eq!(first_word_of(&s), s.split_whitespace().next().unwrap_or_default());
    }
}

#[test]
fn texts_are_searched_as_std_searches_them() {
    for s in samples() {
        for needle in ["", "a", "ab", "abab", "\u{e9}", "|", "\n", "zzz"] {
            assert_eq!(contains(&s, needle), s.contains(needle));
            assert_eq!(starts_with(&s, needle), s.starts_with(needle));
            assert_eq!(
                strip_prefix(&s, needle),
                s.strip_prefix(needle).map(str::to_owned)
            );
            assert_eq!(
                find(&s, needle),
                s.find(needle).map(|i| s[..i].chars().count())
            );
            if !needle.is_empty() {
                assert_eq!(replace(&s, needle, "<>"), s.replace(needle, "<>"));
            }
        }
    }
}

#[test]
fn texts_are_compared_as_std_compares_them() {
    let all = samples();
    for a in &all {
        for b in &all {
            assert_eq!(same_text(a, b), a == b);
            assert_eq!(eq_ignore_ascii_case(a, b), a.eq_ignore_ascii_case(b));
            assert_eq!(comes_first(a, b), a <= b, "{a:?} {b:?}");
        }
    }
    assert!(eq_ignore_ascii_case("Ubuntu", "UBUNTU"));
    assert!(!eq_ignore_ascii_case("\u{c9}", "\u{e9}"));
    let mut sorted = all.clone();
    sorted.sort();
    assert_eq!(sort(all), sorted);
}

#[test]
fn texts_are_put_together() {
    let parts = vec!["a".to_owned(), String::new(), "b".to_owned()];
    assert_eq!(join(&parts, ", "), "a, , b");
    assert_eq!(join(&parts[..1], ", "), "a");
    assert_eq!(join(&[], ", "), "");
    assert_eq!(concat3("a", "", "c"), "ac");
    assert!(has_item(&parts, ""));
    assert!(!has_item(&parts, "c"));
    let chars = chars_of("\u{1f600}bc");
    assert_eq!(string_of(&chars, 0, 2), "\u{1f600}b");
    assert_eq!(clip("\u{1f600}bc", 2), "\u{1f600}b");
    assert_eq!(clip("\u{1f600}bc", 4), "\u{1f600}bc");
    assert_eq!(clip("abc", 0), "");
}

#[test]
fn numbers_are_read_and_written_as_std_does() {
    for s in [
        "0", "7", "04", "24", "+24", "-1", "+", "", " 1", "1 ", "4294967295", "4294967296",
        "99999999999999999999", "1x", "\u{661}", "00000000000000000001",
    ] {
        assert_eq!(parse_u32(s), s.parse::<u32>().ok(), "{s:?}");
    }
    for n in [0, 1, -1, 9, 10, 124, 127, 255, -255, i32::MAX, i32::MIN] {
        assert_eq!(decimal(n), n.to_string());
    }
}

#[test]
fn utf16_is_decoded_as_std_decodes_it() {
    // Every unit before and after a surrogate of each kind, and at the end.
    let units = [
        0x0041_u16, 0x0000, 0xd7ff, 0xd800, 0xdbff, 0xdc00, 0xdfff, 0xe000, 0xfeff, 0xfffd, 0xffff,
    ];
    for a in units {
        for b in units {
            for c in units {
                let text = [0x0042, a, b, c];
                let bytes: Vec<u8> = text.iter().flat_map(|u| u.to_le_bytes()).collect();
                assert_eq!(decode_utf16le(&bytes), String::from_utf16_lossy(&text));
            }
        }
    }
    assert_eq!(decode_utf16le(&[0xff]), "");
    assert_eq!(decode_utf16le(&[0xff, 0xfe]), "");
    // Only one mark is taken off.
    assert_eq!(decode_utf16le(&[0xff, 0xfe, 0xff, 0xfe]), "\u{feff}");
}

#[test]
fn a_map_keeps_one_value_for_each_key() {
    let mut map = TextMap::new();
    assert_eq!(map.get("a"), None);
    map.insert("a", "1".to_owned());
    map.insert("b", "2".to_owned());
    map.insert("a", "3".to_owned());
    assert_eq!(map.get("a"), Some("3".to_owned()));
    assert_eq!(map.get("b"), Some("2".to_owned()));
    assert_eq!(map.get("c"), None);
    assert_eq!(map.entries().len(), 2);
    assert_eq!(map.clone().get("a"), Some("3".to_owned()));
}
