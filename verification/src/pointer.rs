//! Pointer coordinates and button state as the pointer source reports them.

use vstd::prelude::*;

verus! {

/// A pointer position. The pointer source may report negative components,
/// for a pointer off the display; a pixel can be sampled only where both are
/// non-negative.
#[derive(Clone, Copy, Debug, PartialEq, Eq, Structural)]
pub struct Coordinate {
    pub x: i32,
    pub y: i32,
}

/// A component with negative values raised to zero.
pub open spec fn raised(v: int) -> int {
    if v < 0 {
        0
    } else {
        v
    }
}

/// Raises a negative component to zero and keeps any other.
pub fn unsigned(v: i32) -> (u: i32)
    ensures
        u == raised(v as int),
{
    if v < 0 {
        0
    } else {
        v
    }
}

impl Coordinate {
    /// Whether a pixel can be sampled here: no component is negative.
    pub open spec fn valid(self) -> bool {
        self.x >= 0 && self.y >= 0
    }

    /// The position with each negative component raised to zero.
    pub open spec fn clamped(self) -> Coordinate {
        Coordinate { x: raised(self.x as int) as i32, y: raised(self.y as int) as i32 }
    }

    /// Tells whether a pixel can be sampled at this position.
    pub fn is_valid(&self) -> (ok: bool)
        ensures
            ok == self.valid(),
    {
        self.x >= 0 && self.y >= 0
    }

    /// Moves the position onto the display: each negative component becomes
    /// zero. The result is always a valid sample target, and a valid position
    /// is left as it is.
    pub fn unsigned(self) -> (c: Coordinate)
        ensures
            c == self.clamped(),
            c.valid(),
            self.valid() ==> c == self,
    {
        Coordinate { x: unsigned(self.x), y: unsigned(self.y) }
    }
}

/// Whether the button with the given index is down. A button that the
/// pointer source does not report is not down.
pub open spec fn pressed(buttons: Seq<bool>, button: usize) -> bool {
    button < buttons.len() && buttons[button as int]
}

/// Whether some button of the stop set is down.
pub open spec fn stop_requested(buttons: Seq<bool>, stop_set: Seq<usize>) -> bool {
    exists|i: int| 0 <= i < stop_set.len() && pressed(buttons, #[trigger] stop_set[i])
}

/// Decides whether sampling ends: true exactly when at least one button of
/// the stop set is currently down. `buttons[n]` tells whether button `n` is
/// down.
pub fn should_stop(buttons: &Vec<bool>, stop_set: &Vec<usize>) -> (stop: bool)
    ensures
        stop == stop_requested(buttons@, stop_set@),
{
    let mut i: usize = 0;
    while i < stop_set.len()
        invariant
            i <= stop_set.len(),
            forall|j: int| 0 <= j < i ==> !pressed(buttons@, #[trigger] stop_set@[j]),
        decreases stop_set.len() - i,
    {
        let button: usize = stop_set[i];
        if button < buttons.len() && buttons[button] {
            return true;
        }
        i += 1;
    }
    false
}

} // verus!
