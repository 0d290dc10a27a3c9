//! Window sizes and the even-pixel resolution derived from them.
//!
//! Rendering backends commonly want an even number of pixels in each
//! direction, so a surface is never given the raw window size: each dimension
//! is first rounded down to the nearest even number.

use vstd::prelude::*;

verus! {

/// A size in whole pixels: that of the browser window, or that of a surface.
#[derive(Clone, Copy, Debug, PartialEq, Eq, Structural)]
pub struct WindowSize {
    pub width: u32,
    pub height: u32,
}

/// Twice the floor of half of `n`: `n` rounded down to an even integer.
pub open spec fn even_floor(n: int) -> int {
    2 * (n / 2)
}

impl WindowSize {
    /// The size with each dimension rounded down, on its own, to an even
    /// number of pixels.
    pub open spec fn rounded_to_even(self) -> WindowSize {
        WindowSize {
            width: even_floor(self.width as int) as u32,
            height: even_floor(self.height as int) as u32,
        }
    }

    /// A size of `width` by `height` pixels.
    pub fn new(width: u32, height: u32) -> (size: Self)
        ensures
            size.width == width,
            size.height == height,
    {
        WindowSize { width, height }
    }
}

/// Rounds one pixel dimension down to an even number of pixels.
pub fn round_down_to_even(n: u32) -> (r: u32)
    ensures
        r == even_floor(n as int),
{
    n / 2 * 2
}

/// The resolution that a surface gets in a window of the given size: both
/// dimensions rounded down to even, never up, whether or not they were even
/// before.
pub fn target_resolution(size: WindowSize) -> (target: WindowSize)
    ensures
        target.width == 2 * (size.width / 2),
        target.height == 2 * (size.height / 2),
        target == size.rounded_to_even(),
{
    WindowSize {
        width: round_down_to_even(size.width),
        height: round_down_to_even(size.height),
    }
}

/// `even_floor(n)` is the greatest even integer that is not above `n`: it is
/// even, it is at most `n`, and the next even integer is already above `n`.
pub proof fn lemma_even_floor_greatest_even_below(n: int)
    ensures
        even_floor(n) % 2 == 0,
        even_floor(n) <= n < even_floor(n) + 2,
{
}

/// Rounding leaves an even dimension as it is, so rounding twice is the same
/// as rounding once.
pub proof fn lemma_even_floor_idempotent(n: int)
    ensures
        n % 2 == 0 ==> even_floor(n) == n,
        even_floor(even_floor(n)) == even_floor(n),
{
}

/// The target resolution never exceeds the window, falls short of it by at
/// most one pixel in each direction, and is a fixed point of the rounding.
pub proof fn lemma_target_within_window(size: WindowSize)
    ensures
        size.rounded_to_even().width <= size.width,
        size.rounded_to_even().height <= size.height,
        size.width - size.rounded_to_even().width == size.width % 2,
        size.height - size.rounded_to_even().height == size.height % 2,
        size.rounded_to_even().rounded_to_even() == size.rounded_to_even(),
{
}

} // verus!
