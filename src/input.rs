//! Decoding the arrow keys into a direction of travel.

use vstd::prelude::*;

verus! {

/// The step along one axis when the key for the negative direction and the
/// key for the positive direction are held as given: none when both or
/// neither are held.
pub open spec fn axis_step(negative: bool, positive: bool) -> Option<i8> {
    if negative && !positive {
        Some(-1i8)
    } else if positive && !negative {
        Some(1i8)
    } else {
        None
    }
}

/// The direction that the held arrow keys ask for, as `(x, y)` steps of -1, 0
/// or 1 each, with `y` growing downwards; none when neither axis resolves to
/// a step.
pub open spec fn arrow_direction(left: bool, right: bool, up: bool, down: bool) -> Option<(i8, i8)> {
    match (axis_step(left, right), axis_step(up, down)) {
        (None, None) => None,
        (dx, dy) => Some((dx.unwrap_or(0i8), dy.unwrap_or(0i8))),
    }
}

fn axis(negative: bool, positive: bool) -> (r: Option<i8>)
    ensures
        r == axis_step(negative, positive),
{
    if negative && !positive {
        Some(-1)
    } else if positive && !negative {
        Some(1)
    } else {
        None
    }
}

/// Converts the held arrow keys into a direction: `(1, 0)` for right alone,
/// `(-1, -1)` for left and up together, none when no axis resolves.
pub fn arrow_keys_to_vec(left: bool, right: bool, up: bool, down: bool) -> (r: Option<(i8, i8)>)
    ensures
        r == arrow_direction(left, right, up, down),
{
    let dx = axis(left, right);
    let dy = axis(up, down);
    if dx.is_none() && dy.is_none() {
        return None;
    }
    let x: i8 = match dx {
        Some(v) => v,
        None => 0,
    };
    let y: i8 = match dy {
        Some(v) => v,
        None => 0,
    };
    Some((x, y))
}

} // verus!
