//! The names under which evdev knows the code of an event.
//!
//! evdev prints a code that has a constant of its type as that constant's
//! identifier, and any other code as `unknown key: ` followed by the number.
//! The two short tables are written out here; the long ones are named.

use crate::decimal::digits;
use crate::event::EventKind;
use evdev::{AbsoluteAxisType, Key, LedType, MiscType, RelativeAxisType, SoundType, SwitchType};
use vstd::prelude::*;

verus! {

/// The text that evdev's `Debug` for `Key` gives for a key code.
pub uninterp spec fn key_name(code: u16) -> Seq<char>;

/// The text that evdev's `Debug` for `RelativeAxisType` gives for an axis code.
pub uninterp spec fn relative_axis_name(code: u16) -> Seq<char>;

/// The text that evdev's `Debug` for `AbsoluteAxisType` gives for an axis code.
pub uninterp spec fn absolute_axis_name(code: u16) -> Seq<char>;

/// The text that evdev's `Debug` for `SwitchType` gives for a switch code.
pub uninterp spec fn switch_name(code: u16) -> Seq<char>;

/// The text that evdev's `Debug` for `LedType` gives for an LED code.
pub uninterp spec fn led_name(code: u16) -> Seq<char>;

/// How evdev prints a code that has no constant.
pub open spec fn unknown_name(code: u16) -> Seq<char> {
    "unknown key: "@ + digits(code as nat)
}

/// The name of a miscellaneous code.
pub open spec fn misc_name(code: u16) -> Seq<char> {
    if code == 0 {
        "MSC_SERIAL"@
    } else if code == 1 {
        "MSC_PULSELED"@
    } else if code == 2 {
        "MSC_GESTURE"@
    } else if code == 3 {
        "MSC_RAW"@
    } else if code == 4 {
        "MSC_SCAN"@
    } else if code == 5 {
        "MSC_TIMESTAMP"@
    } else {
        unknown_name(code)
    }
}

/// The name of a sound code.
pub open spec fn sound_name(code: u16) -> Seq<char> {
    if code == 0 {
        "SND_CLICK"@
    } else if code == 1 {
        "SND_BELL"@
    } else if code == 2 {
        "SND_TONE"@
    } else {
        unknown_name(code)
    }
}

/// The name of the code that an event kind carries. The two kinds that are
/// never printed with a code have the empty text.
pub open spec fn code_name(kind: EventKind) -> Seq<char> {
    match kind {
        EventKind::Key(code) => key_name(code),
        EventKind::RelativeAxis(code) => relative_axis_name(code),
        EventKind::AbsoluteAxis(code) => absolute_axis_name(code),
        EventKind::Miscellaneous(code) => misc_name(code),
        EventKind::Switch(code) => switch_name(code),
        EventKind::Led(code) => led_name(code),
        EventKind::Sound(code) => sound_name(code),
        EventKind::Synchronization(_) | EventKind::Other => Seq::empty(),
    }
}

/// Formats `evdev::Key` with `{:?}`.
///
/// Trusted: the text depends on the code alone.
#[verifier::external_body]
fn key_text(code: u16) -> (text: String)
    ensures
        text@ == key_name(code),
{
    format!("{:?}", Key(code))
}

/// Formats `evdev::RelativeAxisType` with `{:?}`.
///
/// Trusted: the text depends on the code alone.
#[verifier::external_body]
fn relative_axis_text(code: u16) -> (text: String)
    ensures
        text@ == relative_axis_name(code),
{
    format!("{:?}", RelativeAxisType(code))
}

/// Formats `evdev::AbsoluteAxisType` with `{:?}`.
///
/// Trusted: the text depends on the code alone.
#[verifier::external_body]
fn absolute_axis_text(code: u16) -> (text: String)
    ensures
        text@ == absolute_axis_name(code),
{
    format!("{:?}", AbsoluteAxisType(code))
}

/// Formats `evdev::SwitchType` with `{:?}`.
///
/// Trusted: the text depends on the code alone.
#[verifier::external_body]
fn switch_text(code: u16) -> (text: String)
    ensures
        text@ == switch_name(code),
{
    format!("{:?}", SwitchType(code))
}

/// Formats `evdev::LedType` with `{:?}`.
///
/// Trusted: the text depends on the code alone.
#[verifier::external_body]
fn led_text(code: u16) -> (text: String)
    ensures
        text@ == led_name(code),
{
    format!("{:?}", LedType(code))
}

/// Formats `evdev::MiscType` with `{:?}`.
///
/// Trusted: the six constants of the type, codes 0 to 5, print as their
/// identifiers; every other code prints as `unknown key: ` and the number.
#[verifier::external_body]
fn misc_text(code: u16) -> (text: String)
    ensures
        text@ == misc_name(code),
{
    format!("{:?}", MiscType(code))
}

/// Formats `evdev::SoundType` with `{:?}`.
///
/// Trusted: the three constants of the type, codes 0 to 2, print as their
/// identifiers; every other code prints as `unknown key: ` and the number.
#[verifier::external_body]
fn sound_text(code: u16) -> (text: String)
    ensures
        text@ == sound_name(code),
{
    format!("{:?}", SoundType(code))
}

/// The name of the code that `kind` carries, as evdev prints it.
pub fn code_text(kind: EventKind) -> (text: String)
    ensures
        text@ == code_name(kind),
{
    match kind {
        EventKind::Key(code) => key_text(code),
        EventKind::RelativeAxis(code) => relative_axis_text(code),
        EventKind::AbsoluteAxis(code) => absolute_axis_text(code),
        EventKind::Miscellaneous(code) => misc_text(code),
        EventKind::Switch(code) => switch_text(code),
        EventKind::Led(code) => led_text(code),
        EventKind::Sound(code) => sound_text(code),
        EventKind::Synchronization(_) | EventKind::Other => String::new(),
    }
}

} // verus!
