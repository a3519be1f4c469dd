use snippet_ai::events::{
    event_channel, image_step, read_image_payload, read_text_payload, text_step, ClipboardEvent,
    SlotRead, UpdateStep,
};

fn wide_nul(s: &str) -> Vec<u16> {
    let mut v: Vec<u16> = s.encode_utf16().collect();
    v.push(0);
    v
}

#[test]
fn image_payload_is_base64() {
    let r = read_image_payload(SlotRead::Data(b"abc".to_vec()));
    assert_eq!(r, Some("YWJj".to_string()));
}

#[test]
fn png_header_encodes_with_padding() {
    let r = read_image_payload(SlotRead::Data(vec![137, 80, 78, 71]));
    assert_eq!(r, Some("iVBORw==".to_string()));
}

#[test]
fn no_image_yields_no_payload() {
    assert_eq!(read_image_payload(SlotRead::<Vec<u8>>::NoData), None);
    assert_eq!(read_image_payload(SlotRead::<Vec<u8>>::LockFailed), None);
}

#[test]
fn image_step_emits_image_event() {
    let step = image_step(SlotRead::Data(b"abc".to_vec()));
    assert_eq!(
        step,
        UpdateStep::Emit { event: ClipboardEvent::Image { payload: "YWJj".to_string() } }
    );
}

#[test]
fn image_step_falls_through_to_text() {
    assert_eq!(image_step(SlotRead::<Vec<u8>>::NoData), UpdateStep::ReadText);
    assert_eq!(image_step(SlotRead::<Vec<u8>>::LockFailed), UpdateStep::ReadText);
}

#[test]
fn unicode_text_is_preferred() {
    let r = read_text_payload(
        SlotRead::Data(wide_nul("from utf16")),
        SlotRead::Data(b"from ansi\0".to_vec()),
    );
    assert_eq!(r, Some("from utf16".to_string()));
}

#[test]
fn ansi_text_is_the_fallback() {
    let r = read_text_payload(SlotRead::NoData, SlotRead::Data(b"from ansi\0".to_vec()));
    assert_eq!(r, Some("from ansi".to_string()));
}

#[test]
fn unicode_lock_failure_yields_nothing() {
    let r = read_text_payload(SlotRead::LockFailed, SlotRead::Data(b"from ansi\0".to_vec()));
    assert_eq!(r, None);
}

#[test]
fn no_text_format_yields_nothing() {
    let r = read_text_payload(SlotRead::NoData, SlotRead::NoData);
    assert_eq!(r, None);
    let r = read_text_payload(SlotRead::NoData, SlotRead::LockFailed);
    assert_eq!(r, None);
}

#[test]
fn text_step_emits_substantial_text() {
    let ev = text_step(SlotRead::Data(wide_nul("some copied words")), SlotRead::NoData);
    assert_eq!(ev, ClipboardEvent::Text { payload: "some copied words".to_string() });
}

#[test]
fn text_step_ignores_short_text() {
    let ev = text_step(SlotRead::Data(wide_nul("hi")), SlotRead::NoData);
    assert_eq!(ev, ClipboardEvent::Updated);
}

#[test]
fn text_step_ignores_blank_text() {
    let ev = text_step(SlotRead::Data(wide_nul("        ")), SlotRead::NoData);
    assert_eq!(ev, ClipboardEvent::Updated);
}

#[test]
fn text_step_without_text_reports_update() {
    let ev = text_step(SlotRead::NoData, SlotRead::NoData);
    assert_eq!(ev, ClipboardEvent::Updated);
}

#[test]
fn channels_carry_event_kind() {
    assert_eq!(event_channel(&ClipboardEvent::Image { payload: String::new() }), "clipboard-image");
    assert_eq!(event_channel(&ClipboardEvent::Text { payload: String::new() }), "clipboard-text");
    assert_eq!(event_channel(&ClipboardEvent::Updated), "clipboard-updated");
}
