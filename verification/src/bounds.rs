//! The sub-range of the strip that effects render into.

use vstd::prelude::*;

use crate::color::center_spec;

verus! {

/// Start and end LED indices of the rendering area; `start <= end`, and the
/// end index never exceeds the strip length.
#[derive(Clone, Copy, Debug, PartialEq, Eq, Structural)]
pub struct RenderingBounds {
    pub start: u8,
    pub end: u8,
}

impl RenderingBounds {
    /// The number of LEDs in the rendering area.
    pub fn count(self) -> (n: u8)
        requires
            self.start <= self.end,
        ensures
            n == self.end - self.start,
    {
        self.end - self.start
    }

    /// The index one past the middle of the rendering area.
    pub fn center(self) -> (c: u8)
        requires
            self.start <= self.end,
        ensures
            c == center_spec((self.end - self.start) as int),
    {
        let count = self.count();
        let mut center_len = count / 2;
        if count % 2 != 0 {
            center_len = center_len + 1;
        }
        if center_len <= count {
            return center_len;
        }
        count
    }
}

/// The index one past the middle of a strip: `ceil(len / 2)`.
pub fn center_of<T>(arr: &[T]) -> (c: usize)
    ensures
        c == center_spec(arr@.len() as int),
{
    let count = arr.len();
    let mut center_len = count / 2;
    if count % 2 != 0 {
        center_len = center_len + 1;
    }
    if center_len <= count {
        return center_len;
    }
    count
}

} // verus!
