//! Workstations: a seat, the machine beside it, and whether the machine still
//! works.
use vstd::prelude::*;
use crate::geometry::{
    column_of, column_with_x, computer_offset_x, computer_offset_x_of, is_target, spot_x,
    spot_x_of, spot_y, spot_y_of, Position, COLUMN_COUNT, COMPUTER_COUNT, ROTATION_DOWN,
    ROTATION_UP, ROW_COUNT,
};

verus! {

/// A workstation.
#[derive(Clone, Copy, Debug, PartialEq, Eq, Structural)]
pub struct Computer {
    /// Where the machine stands.
    pub position: Position,
    /// Whether its employee wrecked it.
    pub broken: bool,
    /// Where its employee sits.
    pub spot: Position,
    /// How the machine is turned, in degrees.
    pub rotation: i64,
}

impl Computer {
    /// A working machine at `position`, with its seat at `spot`.
    pub fn new(position: Position, spot: Position, rotation: i64) -> (c: Computer)
        ensures
            c == (Computer { position, broken: false, spot, rotation }),
    {
        Computer { position, broken: false, spot, rotation }
    }

    /// Whether an employee can find the way to this workstation: its seat lies
    /// in a column of the grid, at a height inside the office.
    pub open spec fn reachable(self) -> bool {
        &&& column_with_x(self.spot.x as int) is Some
        &&& is_target(self.spot.y as int)
    }

    /// The grid column of the seat.
    pub open spec fn column(self) -> int {
        column_with_x(self.spot.x as int).unwrap()
    }

    /// Whether two workstations stand at the same place.
    pub open spec fn same_place(self, other: Computer) -> bool {
        self.position == other.position && self.spot == other.spot && self.rotation
            == other.rotation
    }

    /// The same workstation with a wrecked machine, if `broken`.
    pub open spec fn wrecked_if(self, broken: bool) -> Computer {
        Computer { broken: self.broken || broken, ..self }
    }

    /// The workstation that stands at place `index` of the grid, counted
    /// column by column.
    pub open spec fn at_grid(index: int) -> Computer {
        let col = index / (ROW_COUNT as int);
        let row = index % (ROW_COUNT as int);
        Computer {
            position: Position {
                x: (spot_x(col) + computer_offset_x(col)) as i64,
                y: spot_y(row) as i64,
            },
            broken: false,
            spot: Position { x: spot_x(col) as i64, y: spot_y(row) as i64 },
            rotation: if col % 2 == 0 {
                ROTATION_DOWN
            } else {
                ROTATION_UP
            },
        }
    }

    /// Builds [`Computer::at_grid`].
    pub fn grid(index: usize) -> (c: Computer)
        requires
            index < COMPUTER_COUNT,
        ensures
            c == Computer::at_grid(index as int),
            c.reachable(),
            c.column() == index as int / (ROW_COUNT as int),
    {
        let col: usize = index / ROW_COUNT;
        let row: usize = index % ROW_COUNT;
        let x: i64 = spot_x_of(col);
        let y: i64 = spot_y_of(row);
        let rotation: i64 = if col % 2 == 0 {
            ROTATION_DOWN
        } else {
            ROTATION_UP
        };
        Computer::new(
            Position { x: x + computer_offset_x_of(col), y },
            Position { x, y },
            rotation,
        )
    }

    /// Finds the grid column of the seat; `None` when the seat is in no column.
    pub fn find_column(&self) -> (col: Option<usize>)
        ensures
            col is Some <==> column_with_x(self.spot.x as int) is Some,
            col matches Some(c) ==> c < COLUMN_COUNT && c as int == self.column(),
    {
        column_of(self.spot.x)
    }
}

/// Every workstation of the grid can be reached, and sits in the column that
/// its place in the grid says.
pub proof fn lemma_grid_reachable(index: int)
    requires
        0 <= index < COMPUTER_COUNT,
    ensures
        Computer::at_grid(index).reachable(),
        Computer::at_grid(index).column() == index / (ROW_COUNT as int),
        !Computer::at_grid(index).broken,
{
}

} // verus!
