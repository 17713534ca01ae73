//! Small helpers on board coordinates.

use crate::board::{mirror_x, mirror_y, BOARD_HEIGHT, BOARD_WIDTH};
use vstd::prelude::*;

verus! {

/// The column that player 2 sees for column `x` of the board.
pub fn to_p2_x(x: i32) -> (mirrored: i32)
    requires
        BOARD_WIDTH - 1 - x <= i32::MAX,
    ensures
        mirrored == mirror_x(x as int),
{
    BOARD_WIDTH - 1 - x
}

/// The row that player 2 sees for row `y` of the board.
pub fn to_p2_y(y: i32) -> (mirrored: i32)
    requires
        BOARD_HEIGHT - 1 - y <= i32::MAX,
    ensures
        mirrored == mirror_y(y as int),
{
    BOARD_HEIGHT - 1 - y
}

/// Turning the board twice gives the cell back.
pub proof fn lemma_mirror_twice(x: int, y: int)
    ensures
        mirror_x(mirror_x(x)) == x,
        mirror_y(mirror_y(y)) == y,
{
}

/// A point with integer coordinates.
#[derive(Clone, Copy, Debug, PartialEq, Eq)]
pub struct Vec2 {
    x: i32,
    y: i32,
}

/// The square of the distance between two points.
pub open spec fn squared_distance(ax: int, ay: int, bx: int, by: int) -> int {
    (ax - bx) * (ax - bx) + (ay - by) * (ay - by)
}

impl Vec2 {
    /// The point's first coordinate.
    pub closed spec fn spec_x(&self) -> int {
        self.x as int
    }

    /// The point's second coordinate.
    pub closed spec fn spec_y(&self) -> int {
        self.y as int
    }

    /// The point `(x, y)`.
    pub fn new(x: i32, y: i32) -> (point: Vec2)
        ensures
            point.spec_x() == x,
            point.spec_y() == y,
    {
        Vec2 { x, y }
    }

    /// The distance to `other`, rounded down to a whole number, and no more
    /// than the largest `i32`.
    pub fn distance(&self, other: Vec2) -> (d: i32)
        ensures
            0 <= d,
            d * d <= squared_distance(
                self.spec_x(),
                self.spec_y(),
                other.spec_x(),
                other.spec_y(),
            ),
            d < i32::MAX ==> squared_distance(
                self.spec_x(),
                self.spec_y(),
                other.spec_x(),
                other.spec_y(),
            ) < (d + 1) * (d + 1),
    {
        let dx: i64 = self.x as i64 - other.x as i64;
        let dy: i64 = self.y as i64 - other.y as i64;
        let ax: u128 = if dx < 0 {
            (-dx) as u128
        } else {
            dx as u128
        };
        let ay: u128 = if dy < 0 {
            (-dy) as u128
        } else {
            dy as u128
        };
        assert(ax * ax <= 0x1_0000_0000 * 0x1_0000_0000) by (nonlinear_arith)
            requires
                ax <= 0x1_0000_0000,
        ;
        assert(ay * ay <= 0x1_0000_0000 * 0x1_0000_0000) by (nonlinear_arith)
            requires
                ay <= 0x1_0000_0000,
        ;
        assert(ax * ax == (self.x - other.x) * (self.x - other.x)) by (nonlinear_arith)
            requires
                ax == self.x - other.x || ax == -(self.x - other.x),
        ;
        assert(ay * ay == (self.y - other.y) * (self.y - other.y)) by (nonlinear_arith)
            requires
                ay == self.y - other.y || ay == -(self.y - other.y),
        ;
        let square: u128 = ax * ax + ay * ay;
        let mut low: u128 = 0;
        let mut high: u128 = 0x2_0000_0000;
        assert(high * high > square) by (nonlinear_arith)
            requires
                high == 0x2_0000_0000,
                square <= 0x1_0000_0000 * 0x1_0000_0000 + 0x1_0000_0000 * 0x1_0000_0000,
        ;
        while high - low > 1
            invariant
                low < high <= 0x2_0000_0000,
                low * low <= square,
                square < high * high,
            decreases high - low,
        {
            let mid: u128 = low + (high - low) / 2;
            assert(mid * mid <= 0x2_0000_0000 * 0x2_0000_0000) by (nonlinear_arith)
                requires
                    mid <= 0x2_0000_0000,
            ;
            if mid * mid <= square {
                low = mid;
            } else {
                high = mid;
            }
        }
        assert(high == low + 1);
        if low > 0x7fff_ffff {
            assert(0x7fff_ffff * 0x7fff_ffff <= low * low) by (nonlinear_arith)
                requires
                    low > 0x7fff_ffff,
            ;
            return i32::MAX;
        }
        low as i32
    }
}

} // verus!
