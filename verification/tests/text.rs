use pipewire_capture::text::{
    append_hexadecimal, append_signed, append_truth, append_unsigned, contains_text, same_text,
};

#[test]
fn numerals_read_as_usual() {
    for n in [0u64, 7, 10, 99, 100, 4294967295, u64::MAX] {
        let mut text = String::new();
        append_unsigned(&mut text, n);
        assert_eq!(text, n.to_string());
    }
    for n in [0i32, -1, 42, i32::MAX, i32::MIN] {
        let mut text = String::new();
        append_signed(&mut text, n);
        assert_eq!(text, n.to_string());
    }
    for n in [0u32, 9, 10, 0x8CD6, u32::MAX] {
        let mut text = "0x".to_string();
        append_hexadecimal(&mut text, n);
        assert_eq!(text, format!("0x{:X}", n));
    }
    let mut text = String::new();
    append_truth(&mut text, true);
    append_truth(&mut text, false);
    assert_eq!(text, "truefalse");
}

#[test]
fn text_is_found_where_it_stands() {
    for (haystack, needle) in [
        ("", ""),
        ("abc", ""),
        ("", "a"),
        ("abc", "bc"),
        ("abc", "abcd"),
        ("aab", "ab"),
        ("a\u{e9}b", "\u{e9}b"),
        ("abab", "aa"),
    ] {
        assert_eq!(contains_text(haystack, needle), haystack.contains(needle));
    }
    assert!(same_text("none", "none"));
    assert!(!same_text("none", "None"));
}
