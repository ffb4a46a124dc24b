use vstd::prelude::*;

verus! {

/// Width of the indicator window.
pub const WINDOW_WIDTH: i32 = 460;

/// Height of the indicator window.
pub const WINDOW_HEIGHT: i32 = 240;

/// Half of `a`, rounded toward zero (as Rust's integer division does).
pub open spec fn half_toward_zero(a: int) -> int {
    if a >= 0 {
        a / 2
    } else {
        -((-a) / 2)
    }
}

/// Offset at which an item of size `inner` is centred in a span of size
/// `outer`.
pub fn center_offset(outer: i32, inner: i32) -> (offset: i32)
    requires
        i32::MIN <= outer - inner <= i32::MAX,
    ensures
        offset == half_toward_zero(outer - inner),
{
    (outer - inner) / 2
}

/// Top-left corner that centres the indicator window on a screen of the
/// given size.
pub fn center_coords(screen_w: i32, screen_h: i32) -> (pos: (i32, i32))
    requires
        screen_w >= i32::MIN + WINDOW_WIDTH,
        screen_h >= i32::MIN + WINDOW_HEIGHT,
    ensures
        pos.0 == half_toward_zero(screen_w - WINDOW_WIDTH),
        pos.1 == half_toward_zero(screen_h - WINDOW_HEIGHT),
{
    (center_offset(screen_w, WINDOW_WIDTH), center_offset(screen_h, WINDOW_HEIGHT))
}

} // verus!
