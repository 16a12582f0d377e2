//! The parts of a polygon record: which of its points each part runs over.
//!
//! A record lists its points part after part, and for each part the
//! position of its first point. The last point of a part closes its ring
//! and is left out of what is measured.

use vstd::prelude::*;

verus! {

/// The position of the last point of part `part`: one before the first
/// point of the next part, or the last point of the record.
pub open spec fn part_end(parts: Seq<i32>, num_points: int, part: int) -> int
    recommends
        0 <= part < parts.len(),
{
    if part + 1 < parts.len() {
        parts[part + 1] - 1
    } else {
        num_points - 1
    }
}

/// Whether part `part` is a stretch of points: it starts at a position
/// that is not negative and does not end before it starts.
pub open spec fn part_is_sound(parts: Seq<i32>, num_points: int, part: int) -> bool {
    0 <= part < parts.len() && 0 <= parts[part] <= part_end(parts, num_points, part)
}

/// The stretch of points that part `part` is measured over: from its first
/// point up to, not including, its last. A part that is no stretch of
/// points has none.
pub fn part_bounds(parts: &Vec<i32>, num_points: i32, part: usize) -> (bounds: Option<
    (usize, usize),
>)
    ensures
        match bounds {
            Some((from, to)) => {
                &&& part_is_sound(parts@, num_points as int, part as int)
                &&& from == parts@[part as int]
                &&& to == part_end(parts@, num_points as int, part as int)
            },
            None => !part_is_sound(parts@, num_points as int, part as int),
        },
{
    if part >= parts.len() {
        return None;
    }
    let first: i32 = parts[part];
    let next: i32 = if parts.len() - part > 1 {
        parts[part + 1]
    } else {
        num_points
    };
    if first < 0 || next <= first {
        None
    } else {
        Some((first as usize, (next - 1) as usize))
    }
}

} // verus!
