use coretoolbox::text::decimal_string;
use coretoolbox::text::join2;
use coretoolbox::text::join3;
use coretoolbox::text::push_all;
use coretoolbox::text::push_str;
use coretoolbox::text::push_text;
use coretoolbox::text::starts_with;
use coretoolbox::text::trim_end_string;

#[test]
fn decimal_of_single_digits() {
    for (n, s) in [(0u32, "0"), (1, "1"), (5, "5"), (9, "9")] {
        assert_eq!(decimal_string(n), s);
    }
}

#[test]
fn decimal_of_larger_numbers() {
    assert_eq!(decimal_string(10), "10");
    assert_eq!(decimal_string(1000), "1000");
    assert_eq!(decimal_string(1001), "1001");
    assert_eq!(decimal_string(64536), "64536");
    assert_eq!(decimal_string(65536), "65536");
    assert_eq!(decimal_string(u32::MAX), "4294967295");
}

#[test]
fn decimal_agrees_with_std() {
    let mut n: u32 = 0;
    while n < 5000 {
        assert_eq!(decimal_string(n), format!("{}", n));
        n += 1;
    }
    for n in [99_999u32, 100_000, 123_456_789, 4_000_000_000] {
        assert_eq!(decimal_string(n), format!("{}", n));
    }
}

#[test]
fn join_puts_texts_in_a_row() {
    assert_eq!(join2("/host", "/etc"), "/host/etc");
    assert_eq!(join2("", "x"), "x");
    assert_eq!(join2("x", ""), "x");
    assert_eq!(join3("a", ": ", "b"), "a: b");
}

#[test]
fn lists_grow_at_the_end() {
    let mut list: Vec<String> = Vec::new();
    push_str(&mut list, "one");
    push_text(&mut list, String::from("two"));
    let more = vec![String::from("three"), String::from("four")];
    push_all(&mut list, &more);
    push_all(&mut list, &Vec::new());
    assert_eq!(list, vec!["one", "two", "three", "four"]);
    assert_eq!(more.len(), 2);
}

#[test]
fn prefix_is_told() {
    assert!(starts_with("ks-script-abc", "ks-script-"));
    assert!(starts_with("ks-script-", "ks-script-"));
    assert!(!starts_with("ks-script", "ks-script-"));
    assert!(!starts_with("xks-script-", "ks-script-"));
    assert!(!starts_with("", "ks-script-"));
    assert!(starts_with("anything", ""));
    assert!(starts_with("", ""));
    assert!(starts_with("h\u{e9}llo", "h\u{e9}"));
    assert!(!starts_with("h\u{e9}llo", "he"));
}

#[test]
fn white_space_at_the_end_is_cut() {
    assert_eq!(trim_end_string("fedora:30\n"), "fedora:30");
    assert_eq!(trim_end_string("fedora:30 \t\r\n"), "fedora:30");
    assert_eq!(trim_end_string("  a b  "), "  a b");
    assert_eq!(trim_end_string("\n"), "");
    assert_eq!(trim_end_string(""), "");
    assert_eq!(trim_end_string("x"), "x");
    assert_eq!(trim_end_string("caf\u{e9}\u{3000}\u{a0}"), "caf\u{e9}");
}

#[test]
fn trimming_agrees_with_std() {
    for s in ["", " ", "a", "a ", " a", "a\n\n", "\ta\t", "a b c  ", "\u{2003}x\u{2003}"] {
        assert_eq!(trim_end_string(s), s.trim_end());
    }
}
