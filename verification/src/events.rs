//! Clipboard-update decisions.
//!
//! On each clipboard-change notification the monitor reads the clipboard and
//! raises exactly one event towards the UI: an image event carrying the PNG
//! payload encoded as base64, a text event carrying the decoded text, or a
//! bare update notice when neither payload is usable. This module holds those
//! decisions; the caller performs the clipboard reads and hands the raw
//! buffers in.

use vstd::prelude::*;
use base64::Engine;
use crate::text::{
    ansi_payload, extract_ansi_text, extract_wide_text, spec_worth_emitting, text_worth_emitting,
    utf16_lossy_of, utf8_lossy_of, wide_payload,
};

verus! {

/// What reading one clipboard format yielded: no data in that format, data
/// whose memory could not be locked, or the raw buffer.
pub enum SlotRead<T> {
    /// The clipboard holds no data in this format.
    NoData,
    /// The clipboard holds data, but its memory could not be read.
    LockFailed,
    /// The raw clipboard buffer.
    Data(T),
}

/// The event the monitor raises towards the UI for one clipboard update.
#[derive(Debug, PartialEq, Eq)]
pub enum ClipboardEvent {
    /// A PNG image was captured; the payload is its base64 encoding.
    Image { payload: String },
    /// Text was captured.
    Text { payload: String },
    /// The clipboard changed, but no usable image or text was found.
    Updated,
}

/// What to do after the image format has been read.
#[derive(Debug, PartialEq, Eq)]
pub enum UpdateStep {
    /// An image was found: raise this event and stop.
    Emit { event: ClipboardEvent },
    /// No image was found: read the text formats next.
    ReadText,
}

/// The base64 encoding of these bytes, in the standard alphabet with padding.
pub uninterp spec fn base64_of(bytes: Seq<u8>) -> Seq<char>;

/// Relies on base64's standard engine (`BASE64_STANDARD.encode`): the
/// encoding is a function of the bytes alone, four characters for every
/// three-byte group, the last group padded. The engine aborts when that
/// length exceeds `usize`, so such inputs are excluded.
#[verifier::external_body]
fn encode_base64(bytes: &Vec<u8>) -> (r: String)
    requires
        4 * ((bytes@.len() + 2) / 3) <= usize::MAX,
    ensures
        r@ == base64_of(bytes@),
        r@.len() == 4 * ((bytes@.len() + 2) / 3),
{
    base64::prelude::BASE64_STANDARD.encode(bytes.as_slice())
}

/// The image payload the clipboard yields: the base64 encoding of the PNG
/// buffer when one was read, and nothing otherwise.
pub fn read_image_payload(png: SlotRead<Vec<u8>>) -> (r: Option<String>)
    requires
        (png matches SlotRead::Data(b) ==> 4 * ((b@.len() + 2) / 3) <= usize::MAX),
    ensures
        match png {
            SlotRead::Data(b) => r matches Some(s) && s@ == base64_of(b@),
            _ => r is None,
        },
{
    match png {
        SlotRead::Data(b) => Some(encode_base64(&b)),
        _ => None,
    }
}

/// Decide the first half of a clipboard update: raise an image event when a
/// PNG buffer was read, and fall through to the text formats otherwise.
pub fn image_step(png: SlotRead<Vec<u8>>) -> (step: UpdateStep)
    requires
        (png matches SlotRead::Data(b) ==> 4 * ((b@.len() + 2) / 3) <= usize::MAX),
    ensures
        match png {
            SlotRead::Data(b) => step matches UpdateStep::Emit { event }
                && event matches ClipboardEvent::Image { payload } && payload@ == base64_of(b@),
            _ => step == UpdateStep::ReadText,
        },
{
    match read_image_payload(png) {
        Some(payload) => UpdateStep::Emit { event: ClipboardEvent::Image { payload } },
        None => UpdateStep::ReadText,
    }
}

/// The text payload the clipboard yields. The UTF-16 format is preferred:
/// when it holds a buffer, that buffer's decoding is the payload, and a lock
/// failure on it yields nothing. Only when the UTF-16 format is absent is
/// the ANSI format consulted, the same way.
pub fn read_text_payload(unicode: SlotRead<Vec<u16>>, ansi: SlotRead<Vec<u8>>) -> (r: Option<
    String,
>)
    ensures
        match unicode {
            SlotRead::Data(w) => r matches Some(s) && s@ == utf16_lossy_of(wide_payload(w@)),
            SlotRead::LockFailed => r is None,
            SlotRead::NoData => match ansi {
                SlotRead::Data(b) => r matches Some(s) && s@ == utf8_lossy_of(ansi_payload(b@)),
                _ => r is None,
            },
        },
{
    match unicode {
        SlotRead::Data(w) => Some(extract_wide_text(&w)),
        SlotRead::LockFailed => None,
        SlotRead::NoData => match ansi {
            SlotRead::Data(b) => Some(extract_ansi_text(&b)),
            _ => None,
        },
    }
}

/// Decide the second half of a clipboard update: raise a text event when the
/// clipboard yields text worth forwarding, and a bare update notice
/// otherwise.
pub fn text_step(unicode: SlotRead<Vec<u16>>, ansi: SlotRead<Vec<u8>>) -> (ev: ClipboardEvent)
    ensures
        match unicode {
            SlotRead::Data(w) => ({
                let s = utf16_lossy_of(wide_payload(w@));
                if spec_worth_emitting(s) {
                    ev matches ClipboardEvent::Text { payload } && payload@ == s
                } else {
                    ev == ClipboardEvent::Updated
                }
            }),
            SlotRead::LockFailed => ev == ClipboardEvent::Updated,
            SlotRead::NoData => match ansi {
                SlotRead::Data(b) => ({
                    let s = utf8_lossy_of(ansi_payload(b@));
                    if spec_worth_emitting(s) {
                        ev matches ClipboardEvent::Text { payload } && payload@ == s
                    } else {
                        ev == ClipboardEvent::Updated
                    }
                }),
                _ => ev == ClipboardEvent::Updated,
            },
        },
{
    match read_text_payload(unicode, ansi) {
        Some(t) => {
            if text_worth_emitting(&t) {
                ClipboardEvent::Text { payload: t }
            } else {
                ClipboardEvent::Updated
            }
        },
        None => ClipboardEvent::Updated,
    }
}

/// The channel name an event is raised on towards the UI.
pub fn event_channel(ev: &ClipboardEvent) -> (r: &'static str)
    ensures
        (ev matches ClipboardEvent::Image { .. }) ==> r@ == "clipboard-image"@,
        (ev matches ClipboardEvent::Text { .. }) ==> r@ == "clipboard-text"@,
        ev == ClipboardEvent::Updated ==> r@ == "clipboard-updated"@,
{
    match ev {
        ClipboardEvent::Image { .. } => "clipboard-image",
        ClipboardEvent::Text { .. } => "clipboard-text",
        ClipboardEvent::Updated => "clipboard-updated",
    }
}

} // verus!
