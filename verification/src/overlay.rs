//! The on-screen indicator: what it shows, when it is visible, and the pixel
//! conversion that hands its frames to the window system.

use vstd::prelude::*;

verus! {

/// What the overlay pill shows.
#[derive(Debug, Clone, Copy, PartialEq, Eq, Structural)]
pub enum OverlayState {
    /// Hidden.
    Idle,
    /// Live bars driven by the microphone level.
    Recording,
    /// Dots riding a wave, plus a progress bar.
    Processing,
    /// A slashed microphone: no input device could be used.
    NoMic,
}

} // verus!

verus! {

/// Width of the overlay pill, in pixels.
pub const WIDTH: i32 = 140;

/// Height of the overlay pill, in pixels.
pub const HEIGHT: i32 = 44;

/// Gap between the pill and the bottom of the work area (the taskbar).
pub const BOTTOM_MARGIN: i32 = 16;

/// What the overlay window does when it polls the shared state.
#[derive(Debug, Clone, Copy, PartialEq, Eq, Structural)]
pub struct PollDecision {
    /// The state differs from the one last seen.
    pub changed: bool,
    /// Snap the bars/dots animation back to bars (entering `Idle`).
    pub snap_to_bars: bool,
    /// On a change, the animation's new target: dots (`Processing`) or bars.
    pub target_dots: Option<bool>,
    /// Show (`Some(true)`) or hide (`Some(false)`) the window, or leave it.
    pub show: Option<bool>,
}

/// Polling: a change of state retargets the animation (dots while
/// processing, bars otherwise; entering `Idle` snaps back to bars at once),
/// and the window is visible exactly when the state is not `Idle`.
pub fn poll_overlay(last_state: OverlayState, is_shown: bool, state: OverlayState) -> (d: PollDecision)
    ensures
        d.changed == (state != last_state),
        d.snap_to_bars == (state != last_state && state == OverlayState::Idle),
        d.target_dots == (if state != last_state {
            Some(state == OverlayState::Processing)
        } else {
            None
        }),
        d.show == (if (state != OverlayState::Idle) != is_shown {
            Some(state != OverlayState::Idle)
        } else {
            None
        }),
        (match d.show {
            Some(b) => b,
            None => is_shown,
        }) == (state != OverlayState::Idle),
{
    let changed = state != last_state;
    let should_show = state != OverlayState::Idle;
    PollDecision {
        changed,
        snap_to_bars: changed && state == OverlayState::Idle,
        target_dots: if changed {
            Some(state == OverlayState::Processing)
        } else {
            None
        },
        show: if should_show != is_shown {
            Some(should_show)
        } else {
            None
        },
    }
}

/// Pixel `i` of `out` (BGRA) holds the channels of pixel `i` of `src`
/// (RGBA) with red and blue swapped.
pub open spec fn pixel_converted(out: Seq<u8>, src: Seq<u8>, i: int) -> bool {
    &&& out[4 * i] == src[4 * i + 2]
    &&& out[4 * i + 1] == src[4 * i + 1]
    &&& out[4 * i + 2] == src[4 * i]
    &&& out[4 * i + 3] == src[4 * i + 3]
}

/// Converts `pixels` premultiplied RGBA pixels (as a tiny-skia pixmap holds
/// them) into premultiplied BGRA, the layout a layered window takes: the
/// channels are reordered, their values kept. Bytes past the converted
/// pixels are left alone.
pub fn rgba_to_bgra(rgba: &[u8], bgra: &mut Vec<u8>, pixels: usize)
    requires
        4 * pixels <= rgba@.len(),
        4 * pixels <= old(bgra)@.len(),
    ensures
        final(bgra)@.len() == old(bgra)@.len(),
        forall|i: int| 0 <= i < pixels ==> #[trigger] pixel_converted(final(bgra)@, rgba@, i),
        forall|j: int| 4 * pixels <= j < old(bgra)@.len() ==> final(bgra)@[j] == old(bgra)@[j],
{
    let n: usize = rgba.len();
    let mut i: usize = 0;
    while i < pixels
        invariant
            i <= pixels,
            n == rgba@.len(),
            4 * pixels <= rgba@.len(),
            bgra@.len() == old(bgra)@.len(),
            4 * pixels <= bgra@.len(),
            forall|k: int| 0 <= k < i ==> #[trigger] pixel_converted(bgra@, rgba@, k),
            forall|j: int| 4 * i <= j < old(bgra)@.len() ==> bgra@[j] == old(bgra)@[j],
        decreases pixels - i,
    {
        let ghost old_bgra = bgra@;
        let r = rgba[4 * i];
        let g = rgba[4 * i + 1];
        let b = rgba[4 * i + 2];
        let a = rgba[4 * i + 3];
        bgra.set(4 * i, b);
        bgra.set(4 * i + 1, g);
        bgra.set(4 * i + 2, r);
        bgra.set(4 * i + 3, a);
        assert forall|k: int| 0 <= k < i + 1 implies #[trigger] pixel_converted(bgra@, rgba@, k) by {
            if k < i {
                assert(pixel_converted(old_bgra, rgba@, k));
            }
        }
        i = i + 1;
    }
}

} // verus!

verus! {

/// The UTF-16 code units of one character: one unit in the Basic
/// Multilingual Plane, a surrogate pair above it.
pub open spec fn utf16_units(c: char) -> Seq<u16> {
    let u = c as u32;
    if u < 0x10000 {
        seq![u as u16]
    } else {
        let v = u - 0x10000;
        seq![(0xD800 + v / 0x400) as u16, (0xDC00 + v % 0x400) as u16]
    }
}

/// The UTF-16 encoding of a character sequence.
pub open spec fn utf16_of(s: Seq<char>) -> Seq<u16>
    decreases s.len(),
{
    if s.len() == 0 {
        Seq::empty()
    } else {
        utf16_of(s.drop_last()) + utf16_units(s.last())
    }
}

/// `s` as a NUL-terminated UTF-16 string, the form Win32 calls take.
pub fn wide(s: &str) -> (w: Vec<u16>)
    ensures
        w@ == utf16_of(s@).push(0u16),
{
    let chars = crate::text::chars_of(s);
    let mut w: Vec<u16> = Vec::new();
    let mut i: usize = 0;
    while i < chars.len()
        invariant
            i <= chars.len(),
            w@ == utf16_of(chars@.take(i as int)),
        decreases chars.len() - i,
    {
        let c = chars[i];
        let u = c as u32;
        if u < 0x10000 {
            w.push(u as u16);
        } else {
            let v = u - 0x10000;
            w.push((0xD800 + v / 0x400) as u16);
            w.push((0xDC00 + v % 0x400) as u16);
        }
        assert(chars@.take(i + 1).drop_last() =~= chars@.take(i as int));
        assert(w@ =~= utf16_of(chars@.take(i + 1)));
        i = i + 1;
    }
    assert(chars@.take(chars.len() as int) =~= s@);
    w.push(0u16);
    w
}

/// Rust's `/` on integers: the quotient rounded towards zero.
pub open spec fn div_toward_zero(a: int, b: int) -> int
    recommends
        b > 0,
{
    if a >= 0 {
        a / b
    } else {
        -((-a) / b)
    }
}

/// Where the pill goes in a work area (left, top, right, bottom): centred
/// horizontally, `BOTTOM_MARGIN` pixels above its bottom edge.
pub fn overlay_origin(left: i32, right: i32, bottom: i32) -> (p: (i32, i32))
    requires
        i32::MIN <= right - left <= i32::MAX,
        i32::MIN <= right - left - WIDTH,
        right - left - WIDTH <= i32::MAX,
        i32::MIN <= left + div_toward_zero(right - left - WIDTH, 2) <= i32::MAX,
        i32::MIN <= bottom - HEIGHT - BOTTOM_MARGIN,
    ensures
        p.0 == left + div_toward_zero(right - left - WIDTH, 2),
        p.1 == bottom - HEIGHT - BOTTOM_MARGIN,
{
    let work_w: i32 = right - left;
    let x = left + (work_w - WIDTH) / 2;
    let y = bottom - HEIGHT - BOTTOM_MARGIN;
    (x, y)
}

} // verus!
