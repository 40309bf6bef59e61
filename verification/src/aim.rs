//! The 16-direction aim classifier.
//!
//! Maps the displacement between an origin and a target position to one of
//! 16 discrete direction codes, using the octant/ratio bucketing scheme of
//! the original game: a 5-bit feature code (quadrant, dominant axis, and two
//! ratio-threshold bits) indexes a fixed 24-entry table.

use vstd::prelude::*;

verus! {

/// Absolute value of a mathematical integer.
pub open spec fn abs_int(x: int) -> int {
    if x < 0 {
        -x
    } else {
        x
    }
}

/// The smaller of two mathematical integers.
pub open spec fn min_int(x: int, y: int) -> int {
    if x < y {
        x
    } else {
        y
    }
}

/// The fixed 24-entry classification table, indexed by the 5-bit feature
/// code. The exact element order reproduces the original game's table and
/// must not be altered.
pub const AIM_TABLE: [u8; 24] = [
    14,
    2,
    10,
    6,
    14,
    2,
    10,
    6,
    15,
    1,
    9,
    7,
    13,
    3,
    11,
    5,
    0,
    0,
    8,
    8,
    12,
    4,
    12,
    4,
];

/// The 5-bit feature code for the displacement from origin `(x1, y1)` to
/// target `(x2, y2)`: bit 0 for `x1 < x2`, bit 1 for `y1 < y2`, bit 2 for a
/// horizontally dominant displacement, and bits 3/4 chosen by the two ratio
/// thresholds on the quartered axis distances.
pub open spec fn aim_feature(x1: int, y1: int, x2: int, y2: int) -> int {
    let quad = (if x1 < x2 {
        1int
    } else {
        0int
    }) + (if y1 < y2 {
        2int
    } else {
        0int
    });
    let dx = abs_int(x1 - x2);
    let dy = abs_int(y1 - y2);
    let axis = if dy < dx {
        4int
    } else {
        0int
    };
    let a = abs_int(dx - dy) / 4;
    let b = min_int(dx, dy) / 4;
    let ratio = if 3 * a >= b {
        if a + a / 4 >= b {
            16int
        } else {
            8int
        }
    } else {
        0int
    };
    quad + axis + ratio
}

/// The direction code assigned to the displacement from `(x1, y1)` to
/// `(x2, y2)`: the classification table entry at the feature code.
pub open spec fn spec_aim(x1: int, y1: int, x2: int, y2: int) -> u8 {
    AIM_TABLE@[aim_feature(x1, y1, x2, y2)]
}

/// The feature code never escapes the table: it always lies in [0, 24).
pub proof fn lemma_aim_feature_in_range(x1: int, y1: int, x2: int, y2: int)
    ensures
        0 <= aim_feature(x1, y1, x2, y2) < 24,
{
}

/// Every direction code the classifier can produce lies in [0, 16).
pub proof fn lemma_aim_code_in_range(x1: int, y1: int, x2: int, y2: int)
    ensures
        spec_aim(x1, y1, x2, y2) < 16,
{
    lemma_aim_feature_in_range(x1, y1, x2, y2);
    assert(forall|i: int| 0 <= i < 24 ==> AIM_TABLE@[i] < 16);
}

/// The zero displacement always lands in feature code 16 and is assigned
/// direction code 0, whatever the position: both ratio thresholds hold with
/// `a == b == 0`, and no strict inequality sets a low bit.
pub proof fn lemma_aim_self(x: int, y: int)
    ensures
        aim_feature(x, y, x, y) == 16,
        spec_aim(x, y, x, y) == 0,
{
}

/// Swapping origin and target rotates the direction code by 180 degrees:
/// for distinct positions, the code of the reversed displacement is the
/// original code plus 8, modulo 16. (For the zero displacement both
/// orders give code 0, so that pair is excluded.)
pub proof fn lemma_aim_opposite(x1: int, y1: int, x2: int, y2: int)
    requires
        x1 != x2 || y1 != y2,
    ensures
        spec_aim(x2, y2, x1, y1) == ((spec_aim(x1, y1, x2, y2) + 8) % 16) as u8,
{
    assert(abs_int(x2 - x1) == abs_int(x1 - x2));
    assert(abs_int(y2 - y1) == abs_int(y1 - y2));
    let f1 = aim_feature(x1, y1, x2, y2);
    let f2 = aim_feature(x2, y2, x1, y1);
    lemma_aim_feature_in_range(x1, y1, x2, y2);
    lemma_aim_feature_in_range(x2, y2, x1, y1);
    // The axis bit and the two ratio bits depend only on the absolute
    // distances, so they agree between the two orders; only the two
    // quadrant bits flip, one for each coordinate that differs.
    if x1 == x2 {
        // Vertical displacement: feature 16 or 18, codes 0 and 8.
        assert(f1 == 16 || f1 == 18);
        assert(f2 == 34 - f1);
    } else if y1 == y2 {
        // Horizontal displacement: feature 20 or 21, codes 12 and 4.
        assert(f1 == 20 || f1 == 21);
        assert(f2 == 41 - f1);
    } else {
        // Both coordinates differ: both quadrant bits flip.
        assert(f2 == f1 - (f1 % 4) + (3 - (f1 % 4)));
    }
    assert(forall|h: int, q: int|
        (h == 0 || h == 4 || h == 8 || h == 12 || h == 16 || h == 20) && 0 <= q < 4
            ==> AIM_TABLE@[h + (3 - q)] == ((#[trigger] AIM_TABLE@[h + q] + 8) % 16) as u8);
}

/// Classify the aim direction from origin `p1` to target `p2`.
///
/// Total over all coordinate pairs; the intermediate arithmetic is carried
/// out in wider integers, so no input can overflow or panic.
pub fn aim(p1: (i32, i32), p2: (i32, i32)) -> (r: u8)
    ensures
        r == spec_aim(p1.0 as int, p1.1 as int, p2.0 as int, p2.1 as int),
        r < 16,
{
    let (x1, y1) = p1;
    let (x2, y2) = p2;

    let mut idx: usize = 0;

    if x1 < x2 {
        idx += 1;
    }
    if y1 < y2 {
        idx += 2;
    }

    let dx: i64 = (x1 as i64) - (x2 as i64);
    let dxa: u64 = if dx < 0 {
        (-dx) as u64
    } else {
        dx as u64
    };
    let dy: i64 = (y1 as i64) - (y2 as i64);
    let dya: u64 = if dy < 0 {
        (-dy) as u64
    } else {
        dy as u64
    };

    if dya < dxa {
        idx += 4;
    }

    let ad: u64 = if dxa < dya {
        dya - dxa
    } else {
        dxa - dya
    };
    let a: u64 = ad / 4;
    let md: u64 = if dxa < dya {
        dxa
    } else {
        dya
    };
    let b: u64 = md / 4;

    if 3 * a >= b {
        if a + a / 4 >= b {
            idx += 16;
        } else {
            idx += 8;
        }
    }

    assert(idx == aim_feature(x1 as int, y1 as int, x2 as int, y2 as int));
    proof {
        lemma_aim_code_in_range(x1 as int, y1 as int, x2 as int, y2 as int);
    }
    AIM_TABLE[idx]
}

} // verus!
