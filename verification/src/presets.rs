//! The choices the window offers that carry a rule of their own: the
//! monitor resolution presets, and how the watchdog is labelled.
use vstd::prelude::*;

use crate::options::{Choice, WatchdogKind};

verus! {

/// The number of resolution presets; the index after the last one stands
/// for a custom resolution.
pub const PRESET_COUNT: usize = 9;

/// The label of preset `i`.
pub open spec fn preset_label_spec(i: int) -> Seq<char> {
    if i == 0 {
        "Auto (default)"@
    } else if i == 1 {
        "640\u{d7}480"@
    } else if i == 2 {
        "800\u{d7}600"@
    } else if i == 3 {
        "1024\u{d7}768"@
    } else if i == 4 {
        "1280\u{d7}720"@
    } else if i == 5 {
        "1366\u{d7}768"@
    } else if i == 6 {
        "1920\u{d7}1080"@
    } else if i == 7 {
        "2560\u{d7}1440"@
    } else {
        "3840\u{d7}2160"@
    }
}

/// The width and height of preset `i`; the first, "Auto", is `(0, 0)`.
pub open spec fn preset_size(i: int) -> (u32, u32) {
    if i == 0 {
        (0, 0)
    } else if i == 1 {
        (640, 480)
    } else if i == 2 {
        (800, 600)
    } else if i == 3 {
        (1024, 768)
    } else if i == 4 {
        (1280, 720)
    } else if i == 5 {
        (1366, 768)
    } else if i == 6 {
        (1920, 1080)
    } else if i == 7 {
        (2560, 1440)
    } else {
        (3840, 2160)
    }
}

/// Preset `i`: its label, width and height.
pub fn preset(i: usize) -> (r: (&'static str, u32, u32))
    requires
        i < PRESET_COUNT,
    ensures
        r.0@ == preset_label_spec(i as int),
        (r.1, r.2) == preset_size(i as int),
{
    match i {
        0 => ("Auto (default)", 0, 0),
        1 => ("640\u{d7}480", 640, 480),
        2 => ("800\u{d7}600", 800, 600),
        3 => ("1024\u{d7}768", 1024, 768),
        4 => ("1280\u{d7}720", 1280, 720),
        5 => ("1366\u{d7}768", 1366, 768),
        6 => ("1920\u{d7}1080", 1920, 1080),
        7 => ("2560\u{d7}1440", 2560, 1440),
        _ => ("3840\u{d7}2160", 3840, 2160),
    }
}

/// The index of the first preset of size `(width, height)`, or
/// `PRESET_COUNT` (custom) when there is none.
pub fn preset_index(width: u32, height: u32) -> (r: usize)
    ensures
        r <= PRESET_COUNT,
        r < PRESET_COUNT ==> preset_size(r as int) == (width, height),
        forall|j: int| 0 <= j < r ==> #[trigger] preset_size(j) != (width, height),
{
    let mut i: usize = 0;
    while i < PRESET_COUNT
        invariant
            i <= PRESET_COUNT,
            forall|j: int| 0 <= j < i ==> #[trigger] preset_size(j) != (width, height),
        decreases PRESET_COUNT - i,
    {
        let (_, w, h) = preset(i);
        if w == width && h == height {
            return i;
        }
        i = i + 1;
    }
    i
}

/// The text the resolution box shows for index `idx`: the preset's label,
/// or "Custom".
pub fn preset_label(idx: usize) -> (r: &'static str)
    ensures
        idx < PRESET_COUNT ==> r@ == preset_label_spec(idx as int),
        idx >= PRESET_COUNT ==> r@ == "Custom"@,
{
    if idx < PRESET_COUNT {
        preset(idx).0
    } else {
        "Custom"
    }
}

/// The resolution after choosing "Custom": 1024x768 when it was "Auto"
/// (0x0), else unchanged.
pub fn custom_resolution(width: u32, height: u32) -> (r: (u32, u32))
    ensures
        (width, height) == (0u32, 0u32) ==> r == (1024u32, 768u32),
        (width, height) != (0u32, 0u32) ==> r == (width, height),
{
    if width == 0 && height == 0 {
        (1024, 768)
    } else {
        (width, height)
    }
}

/// The text shown for the watchdog: its name, or "off" for none.
pub fn watchdog_label(kind: WatchdogKind) -> (r: &'static str)
    ensures
        kind.name().len() == 0 ==> r@ == "off"@,
        kind.name().len() > 0 ==> r@ == kind.name(),
{
    let name = kind.as_str();
    if name.is_empty() {
        "off"
    } else {
        name
    }
}

} // verus!
