//! Tray tooltip and menu labels, the recorder bar's clock, and the tray icon pixels.
use vstd::prelude::*;

use crate::platform::CaptureDisplay;
use crate::stats::SessionStats;
use crate::text::{decimal, decimal2, push_decimal, push_decimal2, push_str, to_owned_string, trim, trim_str};

verus! {

/// Tooltip prefix shared by every state.
pub open spec fn tooltip_head() -> Seq<char> {
    "LightCapture — "@
}

/// The tooltip: an error wins; otherwise idle or the live counters, with a note when the
/// hotkey could not be registered.
pub open spec fn tooltip_spec(stats: Option<SessionStats>, error: Option<Seq<char>>, hotkey_ok: bool) -> Seq<char> {
    match error {
        Some(e) => tooltip_head() + e,
        None => {
            let suffix = if hotkey_ok {
                Seq::empty()
            } else {
                "  (hotkey unavailable)"@
            };
            match stats {
                None => tooltip_head() + "idle"@ + suffix,
                Some(s) => tooltip_head() + decimal(s.elapsed_secs as nat) + "s  "@ + decimal(
                    s.width as nat,
                ) + "x"@ + decimal(s.height as nat) + "  encoded "@ + decimal(
                    s.frames_encoded as nat,
                ) + "  dropped "@ + decimal(s.frames_dropped as nat) + suffix,
            }
        },
    }
}

/// The text of an optional string slice.
pub open spec fn opt_str_view(o: Option<&str>) -> Option<Seq<char>> {
    match o {
        Some(s) => Some(s@),
        None => None,
    }
}

/// The tray tooltip for the current state.
pub fn tooltip(stats: Option<&SessionStats>, error: Option<&str>, hotkey_ok: bool) -> (r: String)
    ensures
        r@ == tooltip_spec(
            match stats {
                Some(s) => Some(*s),
                None => None,
            },
            opt_str_view(error),
            hotkey_ok,
        ),
{
    let mut out = to_owned_string("LightCapture — ");
    if let Some(err) = error {
        push_str(&mut out, err);
        return out;
    }
    match stats {
        None => {
            push_str(&mut out, "idle");
        },
        Some(s) => {
            push_decimal(&mut out, s.elapsed_secs);
            push_str(&mut out, "s  ");
            push_decimal(&mut out, s.width as u64);
            push_str(&mut out, "x");
            push_decimal(&mut out, s.height as u64);
            push_str(&mut out, "  encoded ");
            push_decimal(&mut out, s.frames_encoded);
            push_str(&mut out, "  dropped ");
            push_decimal(&mut out, s.frames_dropped);
        },
    }
    if !hotkey_ok {
        push_str(&mut out, "  (hotkey unavailable)");
    }
    proof {
        let st = match stats {
            Some(s) => Some(*s),
            None => None,
        };
        assert(out@ =~= tooltip_spec(st, opt_str_view(error), hotkey_ok));
    }
    out
}

/// Menu label of a display: its trimmed name, or `Display N` when it has none, and its size.
pub open spec fn display_label_spec(d: CaptureDisplay) -> Seq<char> {
    let name = trim(d.name@);
    let size = " ("@ + decimal(d.width as nat) + "x"@ + decimal(d.height as nat) + ")"@;
    if name.len() == 0 {
        "Display "@ + decimal(d.index as nat) + size
    } else {
        name + size
    }
}

/// Menu label of a display.
pub fn display_label(display: &CaptureDisplay) -> (r: String)
    ensures
        r@ == display_label_spec(*display),
{
    let name = trim_str(display.name.as_str());
    let mut out = String::new();
    if name.unicode_len() == 0 {
        push_str(&mut out, "Display ");
        push_decimal(&mut out, display.index as u64);
    } else {
        push_str(&mut out, name);
    }
    push_str(&mut out, " (");
    push_decimal(&mut out, display.width as u64);
    push_str(&mut out, "x");
    push_decimal(&mut out, display.height as u64);
    push_str(&mut out, ")");
    assert(out@ =~= display_label_spec(*display));
    out
}

/// `MM:SS` of an elapsed time in nanoseconds (minutes are not capped at 59).
pub open spec fn elapsed_label(nanos: nat) -> Seq<char> {
    let secs = nanos / 1_000_000_000;
    decimal2(secs / 60) + ":"@ + decimal2(secs % 60)
}

/// The recorder bar's clock: `MM:SS` since recording began.
pub fn format_elapsed(elapsed_nanos: u64) -> (r: String)
    ensures
        r@ == elapsed_label(elapsed_nanos as nat),
{
    let secs = elapsed_nanos / 1_000_000_000;
    let mut out = String::new();
    push_decimal2(&mut out, secs / 60);
    push_str(&mut out, ":");
    push_decimal2(&mut out, secs % 60);
    assert(out@ =~= elapsed_label(elapsed_nanos as nat));
    out
}

/// Side of the square tray icon, in pixels.
pub const ICON_SIZE: usize = 32;

/// Whether pixel (x, y) lies in the icon's disc: radius 12 around (15, 15).
pub open spec fn in_disc(x: int, y: int) -> bool {
    (x - 15) * (x - 15) + (y - 15) * (y - 15) <= 144
}

/// Byte `i` of the icon's RGBA buffer: the colour inside the disc, transparent outside.
pub open spec fn icon_byte(i: int, red: u8, green: u8, blue: u8) -> u8 {
    let p = i / 4;
    let x = p % 32;
    let y = p / 32;
    if in_disc(x, y) {
        if i % 4 == 0 {
            red
        } else if i % 4 == 1 {
            green
        } else if i % 4 == 2 {
            blue
        } else {
            255
        }
    } else {
        0
    }
}

/// RGBA pixels of a 32x32 icon: a disc of the given colour on a transparent ground.
pub fn circle_rgba(red: u8, green: u8, blue: u8) -> (r: Vec<u8>)
    ensures
        r@.len() == 4096,
        forall|i: int| 0 <= i < 4096 ==> #[trigger] r@[i] == icon_byte(i, red, green, blue),
{
    let mut rgba: Vec<u8> = Vec::new();
    let mut i: usize = 0;
    while i < 4096
        invariant
            0 <= i <= 4096,
            rgba@.len() == i,
            forall|j: int| 0 <= j < i ==> #[trigger] rgba@[j] == icon_byte(j, red, green, blue),
        decreases 4096 - i,
    {
        let p = i / 4;
        let x = (p % 32) as i32;
        let y = (p / 32) as i32;
        assert(p < 1024);
        assert(0 <= x < 32);
        assert(0 <= y < 32);
        let dx = x - 15;
        let dy = y - 15;
        assert(dx * dx <= 256 && dy * dy <= 256) by (nonlinear_arith)
            requires
                -15 <= dx <= 16,
                -15 <= dy <= 16,
        ;
        assert(dx * dx >= 0 && dy * dy >= 0) by (nonlinear_arith);
        let inside = dx * dx + dy * dy <= 144;
        let b: u8 = if inside {
            if i % 4 == 0 {
                red
            } else if i % 4 == 1 {
                green
            } else if i % 4 == 2 {
                blue
            } else {
                255
            }
        } else {
            0
        };
        rgba.push(b);
        i = i + 1;
    }
    rgba
}

} // verus!
