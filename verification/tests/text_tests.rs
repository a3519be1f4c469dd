use snippet_ai::text::{
    extract_ansi_text, extract_wide_text, has_visible_content, is_space, prefix_before_nul_u16,
    prefix_before_nul_u8, text_worth_emitting,
};

fn wide(s: &str) -> Vec<u16> {
    s.encode_utf16().collect()
}

#[test]
fn wide_buffer_cut_at_first_nul() {
    let mut units = wide("Hello, clipboard!");
    units.push(0);
    units.extend_from_slice(&[0x4141, 0x4242]);
    assert_eq!(prefix_before_nul_u16(&units), wide("Hello, clipboard!"));
}

#[test]
fn wide_buffer_without_nul_is_whole() {
    let units = wide("abc");
    assert_eq!(prefix_before_nul_u16(&units), wide("abc"));
}

#[test]
fn ansi_buffer_cut_at_first_nul() {
    let bytes = b"hi\0junk".to_vec();
    assert_eq!(prefix_before_nul_u8(&bytes), b"hi".to_vec());
    assert_eq!(prefix_before_nul_u8(&b"\0".to_vec()), Vec::<u8>::new());
}

#[test]
fn wide_text_decodes_up_to_nul() {
    let mut units = wide("Grüße 👋");
    units.push(0);
    units.extend_from_slice(&wide("tail"));
    assert_eq!(extract_wide_text(&units), "Grüße 👋".to_string());
}

#[test]
fn wide_text_unpaired_surrogate_is_replaced() {
    let units: Vec<u16> = vec![0x0061, 0xD800, 0x0062, 0];
    assert_eq!(extract_wide_text(&units), "a\u{FFFD}b".to_string());
}

#[test]
fn ansi_text_decodes_up_to_nul() {
    let bytes = b"plain text\0rest".to_vec();
    assert_eq!(extract_ansi_text(&bytes), "plain text".to_string());
}

#[test]
fn ansi_text_invalid_byte_is_replaced() {
    let bytes = b"hi\xFFho".to_vec();
    assert_eq!(extract_ansi_text(&bytes), "hi\u{FFFD}ho".to_string());
}

#[test]
fn space_classification() {
    assert!(is_space(' '));
    assert!(is_space('\t'));
    assert!(is_space('\n'));
    assert!(is_space('\r'));
    assert!(is_space('\u{a0}'));
    assert!(is_space('\u{2003}'));
    assert!(is_space('\u{3000}'));
    assert!(!is_space('a'));
    assert!(!is_space('\u{200b}'));
}

#[test]
fn visible_content_detection() {
    assert!(has_visible_content("  a  "));
    assert!(!has_visible_content("   \t\r\n"));
    assert!(!has_visible_content(""));
}

#[test]
fn short_or_blank_text_is_not_worth_emitting() {
    assert!(!text_worth_emitting(&"hello".to_string()));
    assert!(!text_worth_emitting(&"      ".to_string()));
    assert!(!text_worth_emitting(&"".to_string()));
}

#[test]
fn long_visible_text_is_worth_emitting() {
    assert!(text_worth_emitting(&"hello!".to_string()));
    assert!(text_worth_emitting(&"   a   ".to_string()));
    // Six bytes in UTF-8, five characters.
    assert!(text_worth_emitting(&"héllo".to_string()));
}
