use cgx::text::{
    contains, decimal, ends_with, first_piece, first_word, holds, is_whitespace, last_piece,
    replace_all, same, same_ignoring_case, split, split_once, starts_with, strip_prefix,
    strip_suffix, trim_end,
};

const TEXTS: [&str; 12] = [
    "", "a", "aa", "aaa", "ab", "/", "a/b", "//a//", "x.git.git", "äöü/€", "a b\tc", " \u{2003}é ",
];

#[test]
fn comparisons_agree_with_std() {
    for a in TEXTS {
        for b in TEXTS {
            assert_eq!(same(a, b), a == b);
            assert_eq!(starts_with(a, b), a.starts_with(b));
            assert_eq!(ends_with(a, b), a.ends_with(b));
            assert_eq!(contains(a, b), a.contains(b));
            assert_eq!(strip_prefix(a, b).as_deref(), a.strip_prefix(b));
            assert_eq!(strip_suffix(a, b).as_deref(), a.strip_suffix(b));
        }
    }
}

#[test]
fn replacements_and_trims_agree_with_std() {
    for a in TEXTS {
        for b in TEXTS {
            if b.is_empty() {
                continue;
            }
            assert_eq!(replace_all(a, b, "<>"), a.replace(b, "<>"));
            assert_eq!(replace_all(a, b, b), a);
            assert_eq!(trim_end(a, b), a.trim_end_matches(b));
        }
    }
}

#[test]
fn pieces_agree_with_std() {
    for a in TEXTS {
        assert_eq!(split(a, '/'), a.split('/').collect::<Vec<_>>());
        assert_eq!(last_piece(a, '/'), a.rsplit('/').next().unwrap());
        assert_eq!(first_piece(a, '/'), a.split('/').next().unwrap());
        let once = split_once(a, '/');
        assert_eq!(
            once.as_ref().map(|(x, y)| (x.as_str(), y.as_str())),
            a.split_once('/')
        );
        assert_eq!(first_word(a).as_deref(), a.split_whitespace().next());
    }
}

#[test]
fn white_space_agrees_with_std() {
    for code in 0..=0x10ffff {
        if let Some(c) = char::from_u32(code) {
            assert_eq!(is_whitespace(c), c.is_whitespace(), "{:?}", c);
        }
    }
}

#[test]
fn case_is_ignored_for_ascii_only() {
    assert!(same_ignoring_case("HtTpS", "https"));
    assert!(!same_ignoring_case("https", "http"));
    assert!(!same_ignoring_case("Ä", "ä"));
    // The characters around the letters stay apart.
    for (a, b) in [("@", "`"), ("[", "{"), ("A", "a"), ("Z", "z")] {
        assert_eq!(same_ignoring_case(a, b), a.eq_ignore_ascii_case(b));
        assert_eq!(same_ignoring_case(b, a), b.eq_ignore_ascii_case(a));
    }
}

#[test]
fn numbers_are_written_in_decimal() {
    for n in [0, 9, 10, 99, 100, 1234567890, u64::MAX as u128, u128::MAX] {
        assert_eq!(decimal(n), n.to_string());
    }
}

#[test]
fn lists_are_searched() {
    let list = vec!["a".to_string(), String::new(), "b".to_string()];
    assert!(holds(&list, "b"));
    assert!(!holds(&list, "c"));
}
