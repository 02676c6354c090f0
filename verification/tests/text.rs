use pomme_screenshare::text::{
    contains, is_white_space, joined, joined_number, push_decimal, same_text, trim, trim_end_matches,
};

#[test]
fn numbers_are_written_as_std_writes_them() {
    for n in [0, 1, 9, 10, 99, 100, 1337, 16_777_217, u64::MAX] {
        let mut text = String::from("n=");
        push_decimal(&mut text, n);
        assert_eq!(text, format!("n={n}"));
        assert_eq!(joined_number("<", n, ">"), format!("<{n}>"));
    }
    assert_eq!(joined("a", "b"), "ab");
}

#[test]
fn white_space_is_what_std_takes_for_it() {
    for c in '\0'..=char::MAX {
        assert_eq!(is_white_space(c), c.is_whitespace(), "{c:?}");
    }
}

#[test]
fn trimming_agrees_with_std() {
    let samples = [
        "", " ", "a", "  a", "a  ", " \t a b \n", "\u{3000}x\u{2028}", "\u{200b}x", "ä ö ", "\u{85}",
    ];
    for s in samples {
        assert_eq!(trim(s), s.trim());
    }
}

#[test]
fn suffixes_are_taken_off_as_std_does() {
    let samples = [
        "", ":1337", "a:1337", "a:1337:1337", "a:1337:133", "1337", "a:13:1337:1337", "ö:1337", ":1337a",
    ];
    for s in samples {
        assert_eq!(trim_end_matches(s, ":1337"), s.trim_end_matches(":1337"));
    }
}

#[test]
fn searching_agrees_with_std() {
    let samples = ["", "permission", "no permission here", "permissio", "xpermissionx", "äpermission"];
    for s in samples {
        assert_eq!(contains(s, "permission"), s.contains("permission"));
        assert_eq!(contains(s, ""), s.contains(""));
    }
    assert!(same_text("ä", "ä"));
    assert!(!same_text("a", "A"));
}
