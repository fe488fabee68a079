//! Where the capture indicator stands on screen.
//!
//! The indicator is placed bottom-centre of a monitor, a fixed margin above
//! its lower edge.  Querying monitors is the embedding program's job; this
//! module holds the placement arithmetic and the portable fallback for
//! platforms without a foreground-monitor query.

use vstd::prelude::*;

verus! {

/// Width of the capture indicator, in physical pixels.
pub const HUD_WIDTH: u32 = 600;

/// Height of the indicator when placed on the primary monitor.
pub const HUD_HEIGHT_PRIMARY: u32 = 120;

/// Height of the indicator when placed inside a monitor's work area.
pub const HUD_HEIGHT_WORK_AREA: u32 = 60;

/// Pixels kept between the indicator and the bottom screen edge.
pub const HUD_BOTTOM_MARGIN: u32 = 60;

/// Work area of the monitor holding the foreground window, where no
/// platform query exists: none is reported and the caller places the
/// indicator on the primary monitor instead.
pub fn work_area_for_foreground_monitor() -> (r: Option<(i32, i32, u32, u32)>)
    ensures
        r is None,
{
    None
}

/// Signed horizontal offset that centres a box of width `inner` in a span
/// of width `outer`: negative when the box is wider than the span.
pub open spec fn centring_offset(outer: int, inner: int) -> int {
    if outer >= inner {
        (outer - inner) / 2
    } else {
        -((inner - outer) / 2)
    }
}

fn centring_offset_x(outer: u32, inner: u32) -> (r: i32)
    requires
        outer <= 1_000_000,
        inner <= 1_000_000,
    ensures
        r == centring_offset(outer as int, inner as int),
{
    if outer >= inner {
        ((outer - inner) / 2) as i32
    } else {
        let d = ((inner - outer) / 2) as i32;
        0i32 - d
    }
}

/// Bottom-centre position of the indicator on the primary monitor of the
/// given size: horizontally centred, the bottom margin above the lower
/// edge.  The bounds on the monitor size only keep the pixel arithmetic
/// inside `i32`.
pub fn hud_position_primary(width: u32, height: u32) -> (r: (i32, i32))
    requires
        width <= 1_000_000,
        height <= 1_000_000,
    ensures
        r.0 == centring_offset(width as int, HUD_WIDTH as int),
        r.1 == height - (HUD_HEIGHT_PRIMARY + HUD_BOTTOM_MARGIN),
{
    let x = centring_offset_x(width, HUD_WIDTH);
    let y = (height as i32) - ((HUD_HEIGHT_PRIMARY + HUD_BOTTOM_MARGIN) as i32);
    (x, y)
}

/// Bottom-centre position of the indicator inside a monitor work area given
/// by its origin and size.
pub fn hud_position_in_work_area(left: i32, top: i32, width: u32, height: u32) -> (r: (i32, i32))
    requires
        -1_000_000 <= left <= 1_000_000,
        -1_000_000 <= top <= 1_000_000,
        width <= 1_000_000,
        height <= 1_000_000,
    ensures
        r.0 == left + centring_offset(width as int, HUD_WIDTH as int),
        r.1 == top + height - (HUD_HEIGHT_WORK_AREA + HUD_BOTTOM_MARGIN),
{
    let dx = centring_offset_x(width, HUD_WIDTH);
    let dy = (height as i32) - ((HUD_HEIGHT_WORK_AREA + HUD_BOTTOM_MARGIN) as i32);
    (left + dx, top + dy)
}

} // verus!
