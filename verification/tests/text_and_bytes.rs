use gpui_platform::bytes::{be_bytes, be_number, hex_text};
use gpui_platform::clipboard::{joined_text, ClipboardEntry, ClipboardString, ImageFormat};
use gpui_platform::text::{
    after_prefix, char_text, control, decimal_text, joined, lowercase, only_lowercase, parse_number,
};
use gpui_platform::urls::UrlQueue;

#[test]
fn numbers_in_decimal_parse_back() {
    for number in [0, 7, 10, 99, 100, 65535, usize::MAX] {
        assert_eq!(decimal_text(number), number.to_string());
        assert_eq!(parse_number(&decimal_text(number)), Some(number));
    }
}

#[test]
fn only_digits_that_fit_are_a_number() {
    assert_eq!(parse_number("+12"), Some(12));
    assert_eq!(parse_number("007"), Some(7));
    assert_eq!(parse_number(""), None);
    assert_eq!(parse_number("+"), None);
    assert_eq!(parse_number("-1"), None);
    assert_eq!(parse_number("1 "), None);
    assert_eq!(parse_number("18446744073709551616"), None);
}

#[test]
fn texts_are_joined_and_taken_apart() {
    assert_eq!(joined("ab", "ü"), "abü");
    assert_eq!(char_text('ß'), "ß");
    assert_eq!(after_prefix("gpui.dock.3", "gpui.dock."), Some("3"));
    assert_eq!(after_prefix("gpui", "gpui."), None);
    assert_eq!(after_prefix("über", "ü"), Some("ber"));
    assert_eq!(after_prefix("über", ""), Some("über"));
}

#[test]
fn characters_have_kinds() {
    assert!(lowercase('a') && lowercase('z') && !lowercase('A') && !lowercase('ß'));
    assert!(control('\n') && control('\u{7f}') && control('\u{9f}'));
    assert!(!control(' ') && !control('\u{a0}'));
    assert!(only_lowercase("") && only_lowercase("abc") && !only_lowercase("aBc"));
}

#[test]
fn bytes_of_a_number_read_back() {
    assert_eq!(be_bytes(0x0102_0304, 4), vec![1, 2, 3, 4]);
    assert_eq!(be_bytes(u64::MAX, 8), vec![255; 8]);
    assert_eq!(be_number(&[0x12, 0x34]), 0x1234);
    assert_eq!(be_number(&[]), 0);
    for number in [0, 1, 0xdead_beef_0000_0001, u64::MAX] {
        assert_eq!(be_number(&be_bytes(number, 8)), number);
    }
}

#[test]
fn hexadecimal_is_padded() {
    assert_eq!(hex_text(0xbeef, 8), "0000beef");
    assert_eq!(hex_text(u64::MAX, 16), "ffffffffffffffff");
}

#[test]
fn the_text_of_a_clipboard_is_that_of_its_entries() {
    let entries = vec![
        ClipboardEntry::Text(ClipboardString { text: "a".to_string(), metadata: None }),
        ClipboardEntry::Image { format: ImageFormat::Png, bytes: vec![1] },
        ClipboardEntry::Text(ClipboardString {
            text: "b".to_string(),
            metadata: Some("m".to_string()),
        }),
    ];
    assert_eq!(joined_text(&entries), "ab");
    assert_eq!(joined_text(&Vec::new()), "");
}

fn urls(names: &[&str]) -> Vec<String> {
    names.iter().map(|name| name.to_string()).collect()
}

#[test]
fn urls_wait_for_a_listener_in_order() {
    let mut queue = UrlQueue::new();
    assert_eq!(queue.deliver(urls(&["a", "b"])), None);
    assert_eq!(queue.deliver(urls(&["c"])), None);
    assert_eq!(queue.listen(), Some(urls(&["a", "b", "c"])));
    queue.returned();
    assert_eq!(queue.deliver(urls(&["d"])), Some(urls(&["d"])));
    assert_eq!(queue.deliver(urls(&["e"])), None);
    assert_eq!(queue.queued, urls(&["e"]));
    assert_eq!(queue.listen(), Some(urls(&["e"])));
    queue.returned();
    assert_eq!(queue.listen(), None);
}
