use glass_core::input::ServiceInput;
use glass_core::text::{
    cat2, cat3, cat4, cat5, contains, eq_ignore_ascii_case, int_to_string, join, opt_eq, opt_is,
    prefix, replace, split, split_once, str_eq, str_le, to_lower_from, to_upper, trim,
};

#[test]
fn trims_as_the_standard_library_does() {
    for text in [
        "", " ", "a", " a", "a ", "  a b  ", "\u{85}x\u{2003}", "\u{feff}x", "\t\n\u{b}\u{c}\r x",
        "\u{1680}\u{2028}y\u{2029}\u{202f}\u{205f}\u{3000}", "\u{200b}z\u{180e}",
    ] {
        assert_eq!(trim(text), text.trim());
    }
}

#[test]
fn treats_every_character_as_the_standard_library_does() {
    for code in 0..0x11000u32 {
        if let Some(c) = char::from_u32(code) {
            let text = format!("{c}x{c}");
            assert_eq!(trim(&text), text.trim());
        }
    }
}

#[test]
fn changes_case_of_ascii_letters_alone() {
    assert_eq!(to_upper("aZé{z`"), "AZé{Z`");
    assert_eq!(to_lower_from("ABCÉ", 1), "bcÉ");
    assert_eq!(to_lower_from("A", 1), "");
    assert!(eq_ignore_ascii_case("WoRkS", "works"));
    assert!(!eq_ignore_ascii_case("work", "works"));
    assert!(!eq_ignore_ascii_case("É", "é"));
}

#[test]
fn splits_and_joins() {
    for text in ["", "_", "a", "a_b", "_a__b_", "é_ü"] {
        let pieces = split(text, '_');
        let expected: Vec<String> = text.split('_').map(|piece| piece.to_string()).collect();
        assert_eq!(pieces, expected);
        assert_eq!(join(&pieces, "_"), text);
    }
    assert_eq!(join(&vec![], ", "), "");
    assert_eq!(
        split_once("aTbTc", 'T'),
        Some(("a".to_string(), "bTc".to_string()))
    );
    assert_eq!(split_once("abc", 'T'), None);
    assert_eq!(
        split_once("T", 'T'),
        Some((String::new(), String::new()))
    );
}

#[test]
fn searches_text() {
    for (hay, needle) in [
        ("", ""),
        ("abc", ""),
        ("abc", "c"),
        ("abc", "abcd"),
        ("aab", "ab"),
        ("abab", "bab"),
        ("été", "té"),
    ] {
        assert_eq!(contains(hay, needle), hay.contains(needle));
    }
}

#[test]
fn builds_text() {
    assert_eq!(cat2("a", "b"), "ab");
    assert_eq!(cat3("a", "b", "c"), "abc");
    assert_eq!(cat4("a", "b", "c", "d"), "abcd");
    assert_eq!(cat5("a", "b", "c", "d", "é"), "abcdé");
    assert_eq!(replace("a_b_", '_', ' '), "a b ");
    assert_eq!(prefix("12:34:56", 5), "12:34");
    assert_eq!(prefix("12", 5), "12");
    assert_eq!(prefix("éàü", 2), "éà");
}

#[test]
fn compares_text() {
    assert!(str_eq("é", "é"));
    assert!(!str_eq("a", "ab"));
    for a in ["", "a", "ab", "b", "é", "\u{ffff}", "\u{10000}"] {
        for b in ["", "a", "ab", "b", "é", "\u{ffff}", "\u{10000}"] {
            assert_eq!(str_le(a, b), a <= b);
        }
    }
    let some = |text: &str| Some(text.to_string());
    assert!(opt_is(&some("a"), "a"));
    assert!(!opt_is(&some("a"), "b"));
    assert!(!opt_is(&None, "a"));
    assert!(opt_eq(&some("a"), &some("a")));
    assert!(!opt_eq(&some("a"), &None));
    assert!(opt_eq(&None, &None));
}

#[test]
fn writes_integers() {
    for n in [0, 1, -1, 9, 10, 99, 100, -100, i32::MAX, i32::MIN] {
        assert_eq!(int_to_string(n), n.to_string());
    }
}

#[test]
fn keeps_inputs_by_key() {
    let input = ServiceInput::new()
        .with("b", "1".to_string())
        .with("a", "2".to_string())
        .with("c", "3".to_string())
        .with("b", "4".to_string());
    assert_eq!(input.len(), 3);
    assert_eq!(input.get("b").map(|value| value.as_str()), Some("4"));
    assert_eq!(input.get("d"), None);
    let pairs = input.to_pairs();
    let keys: Vec<&str> = pairs.iter().map(|pair| pair.0.as_str()).collect();
    assert_eq!(keys, vec!["a", "b", "c"]);

    let other = ServiceInput::new()
        .with("c", "3".to_string())
        .with("b", "4".to_string())
        .with("a", "2".to_string());
    assert_eq!(input, other);
    assert_eq!(input.clone(), other);
}
