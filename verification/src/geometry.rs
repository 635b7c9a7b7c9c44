//! The floor plan: positions, the workstation grid and the way-points between
//! the entrance, the seats, the door and the window.
use vstd::prelude::*;

verus! {

/// A point of the office, in tenths of an office unit.
#[derive(Clone, Copy, Debug, PartialEq, Eq, Structural)]
pub struct Position {
    pub x: i64,
    pub y: i64,
}

/// Columns of the workstation grid.
pub const COLUMN_COUNT: usize = 4;

/// Rows of the workstation grid.
pub const ROW_COUNT: usize = 4;

/// Workstations in the office.
pub const COMPUTER_COUNT: usize = 16;

/// The corridor that runs through the middle of the office.
pub const MIDDLE_LANE: i64 = 3_500;

/// Where a falling employee leaves the floor.
pub const WINDOW_X: i64 = 10_900;

/// Beyond this line an employee holds the window open.
pub const OPEN_WINDOW_X: i64 = 10_000;

/// Where an employee waits for the door.
pub const DOOR_X: i64 = 3_700;

/// Where an employee who left through the door turns away.
pub const EXIT_X: i64 = 2_500;

/// Where a new employee appears.
pub const ENTRY_X: i64 = 3_000;

/// A falling employee is gone once this low.
pub const FALL_LIMIT_Y: i64 = 7_700;

/// What a falling employee moves sideways in one tick.
pub const FALL_STEP_X: i64 = 21;

/// What a falling employee drops in one tick.
pub const FALL_STEP_Y: i64 = 84;

/// How close a click must be to pick an employee.
pub const EMPLOYEE_RADIUS: i64 = 500;

/// What a walking employee covers in one tick.
pub const EMPLOYEE_SPEED: i64 = 10;

/// What a running employee covers in one tick.
pub const EMPLOYEE_RUNNING_SPEED: i64 = 30;

/// Heading to the right, in degrees.
pub const ROTATION_RIGHT: i64 = 0;

/// Heading down the screen, in degrees.
pub const ROTATION_DOWN: i64 = 90;

/// Heading up the screen, in degrees.
pub const ROTATION_UP: i64 = -90;

/// Heading to the left, in degrees.
pub const ROTATION_LEFT: i64 = 180;

/// The smallest coordinate an employee can have, on either axis.
pub const FLOOR_MIN: i64 = -30;

/// The largest coordinate an employee can have, on either axis.
pub const FLOOR_MAX: i64 = 13_000;

/// The smallest coordinate a way-point may have.
pub const TARGET_MIN: i64 = 30;

/// The largest coordinate a way-point may have.
pub const TARGET_MAX: i64 = 12_800;

/// The seat abscissa of a grid column.
pub open spec fn spot_x(col: int) -> int {
    if col == 0 {
        4_500
    } else if col == 1 {
        6_500
    } else if col == 2 {
        7_500
    } else {
        9_500
    }
}

/// The abscissa of the aisle that serves a grid column.
pub open spec fn middle_spot_x(col: int) -> int {
    if col == 0 {
        4_000
    } else if col == 1 {
        7_000
    } else if col == 2 {
        7_000
    } else {
        10_000
    }
}

/// The seat ordinate of a grid row.
pub open spec fn spot_y(row: int) -> int {
    if row == 0 {
        1_750
    } else if row == 1 {
        2_650
    } else if row == 2 {
        4_720
    } else {
        5_510
    }
}

/// How far the machine of a column stands from its seat.
pub open spec fn computer_offset_x(col: int) -> int {
    if col == 0 {
        600
    } else if col == 1 {
        -700
    } else if col == 2 {
        650
    } else {
        -800
    }
}

/// The grid column whose seats have abscissa `x`, if there is one.
pub open spec fn column_with_x(x: int) -> Option<int> {
    if x == spot_x(0) {
        Some(0)
    } else if x == spot_x(1) {
        Some(1)
    } else if x == spot_x(2) {
        Some(2)
    } else if x == spot_x(3) {
        Some(3)
    } else {
        None
    }
}

/// Whether the seats of a column lie to the right of its aisle.
pub open spec fn seat_right_of_aisle(col: int) -> bool {
    col % 2 == 0
}

/// Whether `v` may be a coordinate of an employee.
pub open spec fn on_floor(v: int) -> bool {
    FLOOR_MIN <= v <= FLOOR_MAX
}

/// Whether `v` may be a coordinate of a way-point.
pub open spec fn is_target(v: int) -> bool {
    TARGET_MIN <= v <= TARGET_MAX
}

/// The squared distance between two points.
pub open spec fn distance_squared(a: Position, b: Position) -> int {
    (a.x - b.x) * (a.x - b.x) + (a.y - b.y) * (a.y - b.y)
}

/// Whether a click at `b` reaches an employee at `a`.
pub open spec fn within_reach(a: Position, b: Position) -> bool {
    distance_squared(a, b) < EMPLOYEE_RADIUS * EMPLOYEE_RADIUS
}

/// Computes [`spot_x`].
pub fn spot_x_of(col: usize) -> (x: i64)
    requires
        col < COLUMN_COUNT,
    ensures
        x == spot_x(col as int),
{
    if col == 0 {
        4_500
    } else if col == 1 {
        6_500
    } else if col == 2 {
        7_500
    } else {
        9_500
    }
}

/// Computes [`middle_spot_x`].
pub fn middle_spot_x_of(col: usize) -> (x: i64)
    requires
        col < COLUMN_COUNT,
    ensures
        x == middle_spot_x(col as int),
{
    if col == 0 {
        4_000
    } else if col == 3 {
        10_000
    } else {
        7_000
    }
}

/// Computes [`spot_y`].
pub fn spot_y_of(row: usize) -> (y: i64)
    requires
        row < ROW_COUNT,
    ensures
        y == spot_y(row as int),
{
    if row == 0 {
        1_750
    } else if row == 1 {
        2_650
    } else if row == 2 {
        4_720
    } else {
        5_510
    }
}

/// Computes [`computer_offset_x`].
pub fn computer_offset_x_of(col: usize) -> (d: i64)
    requires
        col < COLUMN_COUNT,
    ensures
        d == computer_offset_x(col as int),
{
    if col == 0 {
        600
    } else if col == 1 {
        -700
    } else if col == 2 {
        650
    } else {
        -800
    }
}

/// Finds the grid column whose seats have abscissa `x`.
pub fn column_of(x: i64) -> (col: Option<usize>)
    ensures
        col is Some <==> column_with_x(x as int) is Some,
        col matches Some(c) ==> c < COLUMN_COUNT && column_with_x(x as int) == Some(c as int)
            && spot_x(c as int) == x,
{
    let mut c: usize = 0;
    while c < COLUMN_COUNT
        invariant
            c <= COLUMN_COUNT,
            forall|k: int| 0 <= k < c ==> spot_x(k) != x,
        decreases COLUMN_COUNT - c,
    {
        if spot_x_of(c) == x {
            return Some(c);
        }
        c = c + 1;
    }
    None
}

/// The squared distance from `a` to `b` where a click at `b` reaches an
/// employee at `a`, and `None` where it does not.
pub fn reach(a: Position, b: Position) -> (r: Option<i64>)
    ensures
        r is Some <==> within_reach(a, b),
        r matches Some(d) ==> d == distance_squared(a, b),
{
    let dx: i128 = a.x as i128 - b.x as i128;
    let dy: i128 = a.y as i128 - b.y as i128;
    let radius: i128 = EMPLOYEE_RADIUS as i128;
    proof {
        lemma_square_bounds(dx as int, radius as int);
        lemma_square_bounds(dy as int, radius as int);
    }
    if dx >= radius || dx <= -radius || dy >= radius || dy <= -radius {
        return None;
    }
    let d: i128 = dx * dx + dy * dy;
    if d < radius * radius {
        Some(d as i64)
    } else {
        None
    }
}

/// How the square of `d` compares with the square of a positive `r`.
proof fn lemma_square_bounds(d: int, r: int)
    requires
        r > 0,
    ensures
        d * d >= 0,
        -r < d < r ==> d * d < r * r,
        d >= r || d <= -r ==> d * d >= r * r,
{
    assert(d * d >= 0) by (nonlinear_arith);
    if -r < d < r {
        assert(d * d < r * r) by (nonlinear_arith)
            requires
                -r < d < r,
        ;
    }
    if d >= r || d <= -r {
        assert(d * d >= r * r) by (nonlinear_arith)
            requires
                d >= r || d <= -r,
                r > 0,
        ;
    }
}

} // verus!
