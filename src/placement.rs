use vstd::prelude::*;

verus! {

/// Where a window of `window_w` by `window_h` pixels stands on a monitor of
/// `monitor_w` by `monitor_h` pixels: centred across, its bottom edge
/// `margin` pixels above the monitor's, and never off the top-left corner.
pub open spec fn position_spec(
    monitor_w: int,
    monitor_h: int,
    window_w: int,
    window_h: int,
    margin: int,
) -> (int, int) {
    (
        if monitor_w > window_w {
            (monitor_w - window_w) / 2
        } else {
            0
        },
        if monitor_h > window_h + margin {
            monitor_h - window_h - margin
        } else {
            0
        },
    )
}

/// The top-left corner, in physical pixels, of the overlay window.
pub fn overlay_position(monitor_w: u32, monitor_h: u32, window_w: u32, window_h: u32, margin: u32) -> (r: (
    u32,
    u32,
))
    ensures
        (r.0 as int, r.1 as int) == position_spec(
            monitor_w as int,
            monitor_h as int,
            window_w as int,
            window_h as int,
            margin as int,
        ),
{
    let x: u32 = if monitor_w > window_w {
        (monitor_w - window_w) / 2
    } else {
        0
    };
    let y: u32 = if monitor_h > window_h && monitor_h - window_h > margin {
        monitor_h - window_h - margin
    } else {
        0
    };
    (x, y)
}

} // verus!
