//! Employees: their needs, the path they walk, and what one tick does to them.
use vstd::prelude::*;
use crate::computer::Computer;
use crate::fixed::{clamp_need, is_need, shift_need, NEED_MAX, NEED_PER_PERMILLE, PERMILLE};
use crate::geometry::{
    is_target, middle_spot_x, middle_spot_x_of, on_floor, seat_right_of_aisle, Position, DOOR_X, EMPLOYEE_RUNNING_SPEED,
    EMPLOYEE_SPEED, ENTRY_X, EXIT_X, FALL_LIMIT_Y, FALL_STEP_X, FALL_STEP_Y, MIDDLE_LANE,
    ROTATION_DOWN, ROTATION_LEFT, ROTATION_RIGHT, ROTATION_UP, WINDOW_X,
};
use crate::random::{draw_between, draw_index};

verus! {

/// What the door of the office does.
#[derive(Clone, Copy, Debug, PartialEq, Eq, Structural)]
pub enum DoorState {
    /// The door is open.
    Open,
    /// The door is closed.
    Closed,
    /// The door is broken.
    Broken,
}

/// Where the game stands.
#[derive(Clone, Copy, Debug, PartialEq, Eq, Structural)]
pub enum GameState {
    Running,
    GameOver,
    MyLittleOfficeMenu,
    CrunchSimulatorMenu,
}

/// What has become of an employee.
#[derive(Clone, Copy, Debug, PartialEq, Eq, Structural)]
pub enum EmployeeState {
    /// At work, or on the way.
    Alive,
    /// Starved; stays where it fell until it is cleaned away.
    Dead,
    /// Thrown out of the window.
    Falling,
    /// On the way to the window.
    Suicide,
    /// Ready to be taken off the list.
    Clean,
}

/// What the player lets an employee do.
#[derive(Clone, Copy, Debug, PartialEq, Eq, Structural)]
pub enum EmployeeAction {
    /// Nothing in particular.
    Idle,
    /// Restores satisfaction.
    Break,
    /// Restores satiety.
    Eat,
    /// Restores energy.
    Sleep,
    /// Restores hope.
    FamilyCall,
}

/// How many names there are to draw from.
pub const NAME_COUNT: usize = 16;

/// What a need loses in one tick at a decay factor of one.
pub const BASE_DECAY_RATE: i64 = 1_000;

/// What the chosen action gives back to its need in one tick.
pub const REPLENISH_RATE: i64 = 10_000;

/// The smallest decay factor, in thousandths.
pub const FACTOR_MIN: i64 = 700;

/// The largest decay factor, in thousandths.
pub const FACTOR_MAX: i64 = 1_300;

/// The smallest need a new employee starts with.
pub const START_NEED_MIN: i64 = 3_000_000;

/// The largest need a new employee starts with.
pub const START_NEED_MAX: i64 = 7_000_000;

/// Below this hope an employee gives up on a closed door.
pub const PATIENT_HOPE: i64 = 9_000_000;

/// Above this satisfaction an employee gives up on a closed door.
pub const PATIENT_SATISFACTION: i64 = 1_000_000;

/// What a working employee earns in one tick.
pub const EARNINGS: i64 = 10;

/// What a working employee earns in one tick when fully satisfied.
pub const EARNINGS_COMPLACENT: i64 = 1;

/// Walking in from the entrance to the aisle.
pub const STEP_ENTER: usize = 0;

/// Walking along the aisle to the row of the seat.
pub const STEP_ALIGN: usize = 1;

/// Walking along the row to the seat.
pub const STEP_APPROACH: usize = 2;

/// Sitting at the workstation.
pub const STEP_WORK: usize = 3;

/// Running back along the row to the aisle.
pub const STEP_RETREAT: usize = 4;

/// Running along the aisle to the corridor.
pub const STEP_CORRIDOR: usize = 5;

/// Running down the corridor to the door, and waiting there.
pub const STEP_DOOR: usize = 6;

/// Running out through the door.
pub const STEP_EXIT: usize = 7;

/// Running out of sight.
pub const STEP_LEAVE: usize = 8;

/// Ties the abscissa of a falling employee to its height, so that the fall
/// stays over the floor plan.
pub const FALL_SLACK: i64 = 43_630;

/// What a need loses in one tick at the given decay factor.
pub open spec fn decay(factor: int) -> int {
    BASE_DECAY_RATE * factor / (PERMILLE as int)
}

/// Whether `f` is a decay factor.
pub open spec fn is_factor(f: int) -> bool {
    FACTOR_MIN <= f <= FACTOR_MAX
}

/// Whether `r` is one of the four headings.
pub open spec fn is_rotation(r: int) -> bool {
    r == ROTATION_RIGHT || r == ROTATION_DOWN || r == ROTATION_UP || r == ROTATION_LEFT
}

/// The heading of a move along the abscissa.
pub open spec fn heading_x(forward: bool) -> int {
    if forward {
        ROTATION_RIGHT as int
    } else {
        ROTATION_LEFT as int
    }
}

/// The heading of a move along the ordinate.
pub open spec fn heading_y(forward: bool) -> int {
    if forward {
        ROTATION_DOWN as int
    } else {
        ROTATION_UP as int
    }
}

/// One tick of a move along one axis: a step of `speed` towards `target` while
/// it lies ahead, else a halt on it. Gives the new coordinate and whether the
/// move has ended.
pub open spec fn glide(current: int, target: int, speed: int, forward: bool) -> (int, bool) {
    if forward {
        if current < target {
            (current + speed, false)
        } else {
            (target, true)
        }
    } else {
        if current > target {
            (current - speed, false)
        } else {
            (target, true)
        }
    }
}

/// The name at place `i` of the name table.
pub open spec fn name_at(i: int) -> Seq<char> {
    if i == 0 {
        "Baptiste"@
    } else if i == 1 {
        "Yannis"@
    } else if i == 2 {
        "Valentin"@
    } else if i == 3 {
        "Cynthia"@
    } else if i == 4 {
        "Alain"@
    } else if i == 5 {
        "Valérie"@
    } else if i == 6 {
        "Yves"@
    } else if i == 7 {
        "Cédric"@
    } else if i == 8 {
        "Marcello"@
    } else if i == 9 {
        "Edsger"@
    } else if i == 10 {
        "Stephano"@
    } else if i == 11 {
        "Olivier"@
    } else if i == 12 {
        "Mathieu"@
    } else if i == 13 {
        "Valérie"@
    } else if i == 14 {
        "Roland"@
    } else {
        "Tom"@
    }
}

/// Builds [`name_at`].
pub fn name_of(i: usize) -> (name: String)
    ensures
        name@ == name_at(i as int),
{
    let s: &str = if i == 0 {
        "Baptiste"
    } else if i == 1 {
        "Yannis"
    } else if i == 2 {
        "Valentin"
    } else if i == 3 {
        "Cynthia"
    } else if i == 4 {
        "Alain"
    } else if i == 5 {
        "Valérie"
    } else if i == 6 {
        "Yves"
    } else if i == 7 {
        "Cédric"
    } else if i == 8 {
        "Marcello"
    } else if i == 9 {
        "Edsger"
    } else if i == 10 {
        "Stephano"
    } else if i == 11 {
        "Olivier"
    } else if i == 12 {
        "Mathieu"
    } else if i == 13 {
        "Valérie"
    } else if i == 14 {
        "Roland"
    } else {
        "Tom"
    };
    s.to_owned()
}

/// What tells one new employee from another.
#[derive(Clone, Copy, Debug, PartialEq, Eq, Structural)]
pub struct EmployeeTraits {
    pub name_index: usize,
    pub satisfaction: i64,
    pub hope: i64,
    pub energy: i64,
    pub satiety: i64,
    pub satisfaction_factor: i64,
    pub hope_factor: i64,
    pub energy_factor: i64,
    pub satiety_factor: i64,
}

impl EmployeeTraits {
    /// Whether an employee can be made of these: a name of the table, needs in
    /// `[0, NEED_MAX]`, decay factors in `[FACTOR_MIN, FACTOR_MAX]`.
    pub open spec fn wf(self) -> bool {
        &&& self.name_index < NAME_COUNT
        &&& is_need(self.satisfaction as int)
        &&& is_need(self.hope as int)
        &&& is_need(self.energy as int)
        &&& is_need(self.satiety as int)
        &&& is_factor(self.satisfaction_factor as int)
        &&& is_factor(self.hope_factor as int)
        &&& is_factor(self.energy_factor as int)
        &&& is_factor(self.satiety_factor as int)
    }

    /// Whether every need lies in the band that new employees start in.
    pub open spec fn starting(self) -> bool {
        &&& START_NEED_MIN <= self.satisfaction <= START_NEED_MAX
        &&& START_NEED_MIN <= self.hope <= START_NEED_MAX
        &&& START_NEED_MIN <= self.energy <= START_NEED_MAX
        &&& START_NEED_MIN <= self.satiety <= START_NEED_MAX
    }

    /// Tests [`EmployeeTraits::wf`].
    pub fn is_valid(&self) -> (r: bool)
        ensures
            r == self.wf(),
    {
        self.name_index < NAME_COUNT && 0 <= self.satisfaction && self.satisfaction <= NEED_MAX
            && 0 <= self.hope && self.hope <= NEED_MAX && 0 <= self.energy && self.energy
            <= NEED_MAX && 0 <= self.satiety && self.satiety <= NEED_MAX && FACTOR_MIN
            <= self.satisfaction_factor && self.satisfaction_factor <= FACTOR_MAX && FACTOR_MIN
            <= self.hope_factor && self.hope_factor <= FACTOR_MAX && FACTOR_MIN
            <= self.energy_factor && self.energy_factor <= FACTOR_MAX && FACTOR_MIN
            <= self.satiety_factor && self.satiety_factor <= FACTOR_MAX
    }

    /// Draws the traits of a new employee: any name of the table, each need
    /// from the starting band, each decay factor from its range.
    pub fn random() -> (t: EmployeeTraits)
        ensures
            t.wf(),
            t.starting(),
    {
        let name_index: usize = draw_index(NAME_COUNT).unwrap();
        let satisfaction: u32 = draw_between(300, 700).unwrap();
        let hope: u32 = draw_between(300, 700).unwrap();
        let energy: u32 = draw_between(300, 700).unwrap();
        let satiety: u32 = draw_between(300, 700).unwrap();
        let satisfaction_factor: u32 = draw_between(700, 1_300).unwrap();
        let hope_factor: u32 = draw_between(700, 1_300).unwrap();
        let energy_factor: u32 = draw_between(700, 1_300).unwrap();
        let satiety_factor: u32 = draw_between(700, 1_300).unwrap();
        EmployeeTraits {
            name_index,
            satisfaction: satisfaction as i64 * NEED_PER_PERMILLE,
            hope: hope as i64 * NEED_PER_PERMILLE,
            energy: energy as i64 * NEED_PER_PERMILLE,
            satiety: satiety as i64 * NEED_PER_PERMILLE,
            satisfaction_factor: satisfaction_factor as i64,
            hope_factor: hope_factor as i64,
            energy_factor: energy_factor as i64,
            satiety_factor: satiety_factor as i64,
        }
    }
}

/// An employee as contracts see it.
pub struct EmployeeModel {
    pub name: Seq<char>,
    pub satisfaction: int,
    pub hope: int,
    pub energy: int,
    pub satiety: int,
    pub satisfaction_factor: int,
    pub hope_factor: int,
    pub energy_factor: int,
    pub satiety_factor: int,
    pub x: int,
    pub y: int,
    /// The handle of the workstation that the employee holds.
    pub computer: usize,
    pub rotation: int,
    pub state: EmployeeState,
    pub movement_step: int,
    pub action: EmployeeAction,
}

/// An employee.
pub struct Employee {
    name: String,
    satisfaction: i64,
    hope: i64,
    energy: i64,
    satiety: i64,
    satisfaction_factor: i64,
    hope_factor: i64,
    energy_factor: i64,
    satiety_factor: i64,
    position: Position,
    computer: usize,
    rotation: i64,
    state: EmployeeState,
    movement_step: usize,
    action: EmployeeAction,
}

impl View for Employee {
    type V = EmployeeModel;

    closed spec fn view(&self) -> EmployeeModel {
        EmployeeModel {
            name: self.name@,
            satisfaction: self.satisfaction as int,
            hope: self.hope as int,
            energy: self.energy as int,
            satiety: self.satiety as int,
            satisfaction_factor: self.satisfaction_factor as int,
            hope_factor: self.hope_factor as int,
            energy_factor: self.energy_factor as int,
            satiety_factor: self.satiety_factor as int,
            x: self.position.x as int,
            y: self.position.y as int,
            computer: self.computer,
            rotation: self.rotation as int,
            state: self.state,
            movement_step: self.movement_step as int,
            action: self.action,
        }
    }
}

impl EmployeeModel {
    /// Whether the employee is in a state that the simulation can reach.
    pub open spec fn wf(self) -> bool {
        &&& self.needs_in_range()
        &&& is_factor(self.satisfaction_factor)
        &&& is_factor(self.hope_factor)
        &&& is_factor(self.energy_factor)
        &&& is_factor(self.satiety_factor)
        &&& on_floor(self.x)
        &&& on_floor(self.y)
        &&& self.state is Alive ==> self.y >= 0
        &&& self.state is Falling ==> 4 * self.x <= self.y + FALL_SLACK
        &&& 0 <= self.movement_step <= STEP_LEAVE
        &&& self.state is Suicide ==> self.movement_step <= STEP_APPROACH
        &&& is_rotation(self.rotation)
    }

    /// Whether each of the four needs lies in `[0, NEED_MAX]`.
    pub open spec fn needs_in_range(self) -> bool {
        &&& is_need(self.satisfaction)
        &&& is_need(self.hope)
        &&& is_need(self.energy)
        &&& is_need(self.satiety)
    }

    /// The employee that `traits` describe, new at the entrance, holding the
    /// workstation `computer`.
    pub open spec fn fresh(computer: usize, traits: EmployeeTraits) -> EmployeeModel {
        EmployeeModel {
            name: name_at(traits.name_index as int),
            satisfaction: traits.satisfaction as int,
            hope: traits.hope as int,
            energy: traits.energy as int,
            satiety: traits.satiety as int,
            satisfaction_factor: traits.satisfaction_factor as int,
            hope_factor: traits.hope_factor as int,
            energy_factor: traits.energy_factor as int,
            satiety_factor: traits.satiety_factor as int,
            x: ENTRY_X as int,
            y: MIDDLE_LANE as int,
            computer,
            rotation: ROTATION_RIGHT as int,
            state: EmployeeState::Alive,
            movement_step: STEP_ENTER as int,
            action: EmployeeAction::Idle,
        }
    }

    /// Whether the employee has just come in: alive at the entrance, heading
    /// right, idle, with a name of the table and every need in the starting
    /// band.
    pub open spec fn newcomer(self) -> bool {
        &&& self.wf()
        &&& self.state is Alive
        &&& self.action is Idle
        &&& self.movement_step == STEP_ENTER
        &&& self.x == ENTRY_X
        &&& self.y == MIDDLE_LANE
        &&& self.rotation == ROTATION_RIGHT
        &&& START_NEED_MIN <= self.satisfaction <= START_NEED_MAX
        &&& START_NEED_MIN <= self.hope <= START_NEED_MAX
        &&& START_NEED_MIN <= self.energy <= START_NEED_MAX
        &&& START_NEED_MIN <= self.satiety <= START_NEED_MAX
        &&& exists|i: int| 0 <= i < NAME_COUNT && self.name == name_at(i)
    }

    /// The employee after the player asked for `action`: an employee who is
    /// alive takes it up, or drops it if already at it; any other is left alone.
    pub open spec fn toggled(self, action: EmployeeAction) -> EmployeeModel {
        if self.state is Alive {
            EmployeeModel {
                action: if self.action == action {
                    EmployeeAction::Idle
                } else {
                    action
                },
                ..self
            }
        } else {
            self
        }
    }

    /// The employee after the player asked to clean it away: a dead employee
    /// becomes ready for removal; any other is left alone.
    pub open spec fn cleaned(self) -> EmployeeModel {
        if self.state is Dead {
            EmployeeModel { state: EmployeeState::Clean, ..self }
        } else {
            self
        }
    }

    /// The employee struck dead, if it was alive.
    pub open spec fn killed(self) -> EmployeeModel {
        if self.state is Alive {
            EmployeeModel { state: EmployeeState::Dead, ..self }
        } else {
            self
        }
    }

    /// The employee after an event shifted its needs: each need of a living
    /// employee moves by its delta and is clamped; a dead one is left alone.
    pub open spec fn shifted(
        self,
        satisfaction_delta: int,
        energy_delta: int,
        satiety_delta: int,
        hope_delta: int,
    ) -> EmployeeModel {
        if !(self.state is Dead) {
            EmployeeModel {
                satisfaction: clamp_need(self.satisfaction + satisfaction_delta),
                energy: clamp_need(self.energy + energy_delta),
                satiety: clamp_need(self.satiety + satiety_delta),
                hope: clamp_need(self.hope + hope_delta),
                ..self
            }
        } else {
            self
        }
    }
}

impl EmployeeModel {
    /// A need after one tick: less its decay, more by the replenish rate when
    /// the employee is at the action that restores it, clamped.
    pub open spec fn need_after(need: int, loss: int, restored: bool) -> int {
        clamp_need(
            need - loss + if restored {
                REPLENISH_RATE as int
            } else {
                0
            },
        )
    }

    /// First part of a tick: every need decays, hope twice as fast as the
    /// others, and the action restores its need.
    pub open spec fn decayed(self) -> EmployeeModel {
        EmployeeModel {
            satisfaction: Self::need_after(
                self.satisfaction,
                decay(self.satisfaction_factor),
                self.action is Break,
            ),
            hope: Self::need_after(self.hope, 2 * decay(self.hope_factor), self.action is FamilyCall),
            energy: Self::need_after(self.energy, decay(self.energy_factor), self.action is Sleep),
            satiety: Self::need_after(self.satiety, decay(self.satiety_factor), self.action is Eat),
            ..self
        }
    }

    /// Whether an employee gives up: alive, at work, with no hope left.
    pub open spec fn despairs(self) -> bool {
        self.state is Alive && self.movement_step == STEP_WORK && self.hope == 0
    }

    /// Whether an employee starves: alive, with no satiety left, and not giving
    /// up in the same tick.
    pub open spec fn starves(self) -> bool {
        self.state is Alive && self.satiety == 0 && !self.despairs()
    }

    /// Whether an employee wrecks its machine: at work with no satisfaction
    /// left, and not giving up in the same tick.
    pub open spec fn wrecks(self) -> bool {
        self.movement_step == STEP_WORK && self.satisfaction == 0 && !self.despairs()
    }

    /// Whether an employee gets up to leave: at work, with no satisfaction left
    /// or with hope at its height, and not giving up in the same tick.
    pub open spec fn quits(self) -> bool {
        self.movement_step == STEP_WORK && (self.satisfaction == 0 || self.hope == NEED_MAX)
            && !self.despairs()
    }

    /// Second part of a tick: what exhausted or saturated needs do to the
    /// employee. No energy forces sleep; no hope at work sends an employee
    /// who is alive to the window; no satiety kills an employee who is alive;
    /// no satisfaction, or full hope, at work sends the employee away.
    pub open spec fn judged(self) -> EmployeeModel {
        EmployeeModel {
            action: if self.energy == 0 {
                EmployeeAction::Sleep
            } else {
                self.action
            },
            state: if self.despairs() {
                EmployeeState::Suicide
            } else if self.starves() {
                EmployeeState::Dead
            } else {
                self.state
            },
            movement_step: if self.despairs() {
                STEP_ENTER as int
            } else if self.quits() {
                STEP_RETREAT as int
            } else {
                self.movement_step
            },
            ..self
        }
    }

    /// The employee after a move along the abscissa that goes on to step `next`
    /// when it ends.
    pub open spec fn along_x(self, target: int, speed: int, forward: bool, next: int) -> EmployeeModel {
        let (x, arrived) = glide(self.x, target, speed, forward);
        if arrived {
            EmployeeModel { x, movement_step: next, ..self }
        } else {
            EmployeeModel { x, rotation: heading_x(forward), ..self }
        }
    }

    /// The employee after a move along the ordinate that goes on to step `next`
    /// when it ends.
    pub open spec fn along_y(self, target: int, speed: int, forward: bool, next: int) -> EmployeeModel {
        let (y, arrived) = glide(self.y, target, speed, forward);
        if arrived {
            EmployeeModel { y, movement_step: next, ..self }
        } else {
            EmployeeModel { y, rotation: heading_y(forward), ..self }
        }
    }

    /// One tick on the path of an employee who is alive: in from the entrance,
    /// along the aisle and the row to the seat, and, once it quits, back to the
    /// corridor at a run, to the door, through it when it is open, and out of
    /// sight.
    pub open spec fn walked(self, door_state: DoorState, computer: Computer) -> EmployeeModel {
        let col = computer.column();
        let aisle = middle_spot_x(col);
        let right = seat_right_of_aisle(col);
        let above = computer.spot.y < MIDDLE_LANE;
        let walk = EMPLOYEE_SPEED as int;
        let run = EMPLOYEE_RUNNING_SPEED as int;
        if self.movement_step == STEP_ENTER {
            if self.x > aisle {
                EmployeeModel { x: aisle, movement_step: STEP_ALIGN as int, ..self }
            } else {
                EmployeeModel { x: self.x + walk, rotation: ROTATION_RIGHT as int, ..self }
            }
        } else if self.movement_step == STEP_ALIGN {
            self.along_y(computer.spot.y as int, walk, !above, STEP_APPROACH as int)
        } else if self.movement_step == STEP_APPROACH {
            self.along_x(computer.spot.x as int, walk, right, STEP_WORK as int)
        } else if self.movement_step == STEP_WORK {
            EmployeeModel { x: computer.spot.x as int, y: computer.spot.y as int, ..self }
        } else if self.movement_step == STEP_RETREAT {
            self.along_x(aisle, run, !right, STEP_CORRIDOR as int)
        } else if self.movement_step == STEP_CORRIDOR {
            self.along_y(MIDDLE_LANE as int, run, above, STEP_DOOR as int)
        } else if self.movement_step == STEP_DOOR {
            if self.x > DOOR_X {
                EmployeeModel { x: self.x - run, rotation: ROTATION_LEFT as int, ..self }
            } else if door_state is Open {
                EmployeeModel { movement_step: STEP_EXIT as int, ..self }
            } else if self.hope < PATIENT_HOPE && self.satisfaction > PATIENT_SATISFACTION {
                EmployeeModel { movement_step: STEP_ENTER as int, ..self }
            } else {
                EmployeeModel { x: DOOR_X as int, ..self }
            }
        } else if self.movement_step == STEP_EXIT {
            if self.x > EXIT_X {
                EmployeeModel { x: self.x - run, ..self }
            } else {
                EmployeeModel { x: EXIT_X as int, movement_step: STEP_LEAVE as int, ..self }
            }
        } else if self.movement_step == STEP_LEAVE {
            EmployeeModel {
                y: self.y - run,
                rotation: ROTATION_UP as int,
                state: if self.y - run < 0 {
                    EmployeeState::Clean
                } else {
                    EmployeeState::Alive
                },
                ..self
            }
        } else {
            self
        }
    }

    /// One tick on the path to the window: back along the row to the aisle,
    /// along the aisle to the corridor, down the corridor to the window, and
    /// out.
    pub open spec fn driven(self, computer: Computer) -> EmployeeModel {
        let col = computer.column();
        let aisle = middle_spot_x(col);
        let right = seat_right_of_aisle(col);
        let above = computer.spot.y < MIDDLE_LANE;
        let walk = EMPLOYEE_SPEED as int;
        if self.movement_step == STEP_ENTER {
            self.along_x(aisle, walk, !right, STEP_ALIGN as int)
        } else if self.movement_step == STEP_ALIGN {
            self.along_y(MIDDLE_LANE as int, walk, above, STEP_APPROACH as int)
        } else if self.movement_step == STEP_APPROACH {
            if self.x < WINDOW_X {
                EmployeeModel { x: self.x + walk, rotation: ROTATION_RIGHT as int, ..self }
            } else {
                EmployeeModel { x: WINDOW_X as int, state: EmployeeState::Falling, ..self }
            }
        } else {
            self
        }
    }

    /// One tick of a fall: down and sideways until below the office, then gone.
    pub open spec fn fallen(self) -> EmployeeModel {
        if self.y < FALL_LIMIT_Y {
            EmployeeModel { x: self.x + FALL_STEP_X, y: self.y + FALL_STEP_Y, ..self }
        } else {
            EmployeeModel { state: EmployeeState::Clean, ..self }
        }
    }

    /// Third part of a tick: the move that the state of the employee calls for.
    pub open spec fn moved(self, door_state: DoorState, computer: Computer) -> EmployeeModel {
        match self.state {
            EmployeeState::Alive => self.walked(door_state, computer),
            EmployeeState::Suicide => self.driven(computer),
            EmployeeState::Falling => self.fallen(),
            _ => self,
        }
    }

    /// Last part of a tick: what the employee earns. An employee who is alive
    /// and at work on a machine that works earns [`EARNINGS`], or
    /// [`EARNINGS_COMPLACENT`] when fully satisfied; any other earns nothing.
    pub open spec fn earnings(self, broken: bool) -> int {
        if self.state is Alive && !broken && self.movement_step == STEP_WORK {
            if self.satisfaction == NEED_MAX {
                EARNINGS_COMPLACENT as int
            } else {
                EARNINGS as int
            }
        } else {
            0
        }
    }

    /// The employee after one tick. An employee that is ready for removal does
    /// not change.
    pub open spec fn after_tick(self, door_state: DoorState, computer: Computer) -> EmployeeModel {
        if self.state is Clean {
            self
        } else {
            self.decayed().judged().moved(door_state, computer)
        }
    }

    /// The workstation of the employee after one tick of the employee.
    pub open spec fn computer_after_tick(self, computer: Computer) -> Computer {
        if self.state is Clean {
            computer
        } else {
            computer.wrecked_if(self.decayed().wrecks())
        }
    }

    /// What the employee earns in one tick.
    pub open spec fn tick_earnings(self, door_state: DoorState, computer: Computer) -> int {
        if self.state is Clean {
            0
        } else {
            self.after_tick(door_state, computer).earnings(
                self.computer_after_tick(computer).broken,
            )
        }
    }
}

/// A tick keeps an employee in a state that the simulation can reach, and so
/// keeps each need in `[0, NEED_MAX]`.
pub proof fn lemma_tick_keeps_wf(e: EmployeeModel, door_state: DoorState, computer: Computer)
    requires
        e.wf(),
        computer.reachable(),
    ensures
        e.after_tick(door_state, computer).wf(),
        e.after_tick(door_state, computer).needs_in_range(),
        e.after_tick(door_state, computer).computer == e.computer,
        e.after_tick(door_state, computer).name == e.name,
        0 <= e.tick_earnings(door_state, computer) <= EARNINGS,
        e.computer_after_tick(computer).reachable(),
{
    if !(e.state is Clean) {
        let d = e.decayed();
        assert(d.needs_in_range());
        let j = d.judged();
        assert(j.wf());
        let m = j.moved(door_state, computer);
        assert(m.wf());
    }
}

/// Computes [`EmployeeModel::need_after`].
fn need_after_tick(need: i64, factor: i64, twice: bool, restored: bool) -> (r: i64)
    requires
        is_need(need as int),
        is_factor(factor as int),
    ensures
        r == EmployeeModel::need_after(
            need as int,
            (if twice {
                2 * decay(factor as int)
            } else {
                decay(factor as int)
            }),
            restored,
        ),
{
    let once: i64 = BASE_DECAY_RATE * factor / PERMILLE;
    let loss: i64 = if twice {
        2 * once
    } else {
        once
    };
    let gain: i64 = if restored {
        REPLENISH_RATE
    } else {
        0
    };
    let v: i64 = need - loss + gain;
    if v < 0 {
        0
    } else if v > NEED_MAX {
        NEED_MAX
    } else {
        v
    }
}

impl Employee {
    /// A new employee with traits drawn at random, holding the workstation
    /// `computer`.
    pub fn new(computer: usize) -> (e: Employee)
        ensures
            e@.newcomer(),
            e@.computer == computer,
    {
        let traits: EmployeeTraits = EmployeeTraits::random();
        let e = Employee::with_traits(computer, traits);
        proof {
            assert(0 <= traits.name_index < NAME_COUNT && e@.name == name_at(
                traits.name_index as int,
            ));
        }
        e
    }

    /// A new employee with the given traits, holding the workstation
    /// `computer`.
    pub fn with_traits(computer: usize, traits: EmployeeTraits) -> (e: Employee)
        requires
            traits.wf(),
        ensures
            e@ == EmployeeModel::fresh(computer, traits),
            e@.wf(),
    {
        Employee {
            name: name_of(traits.name_index),
            satisfaction: traits.satisfaction,
            hope: traits.hope,
            energy: traits.energy,
            satiety: traits.satiety,
            satisfaction_factor: traits.satisfaction_factor,
            hope_factor: traits.hope_factor,
            energy_factor: traits.energy_factor,
            satiety_factor: traits.satiety_factor,
            position: Position { x: ENTRY_X, y: MIDDLE_LANE },
            computer,
            rotation: ROTATION_RIGHT,
            state: EmployeeState::Alive,
            movement_step: STEP_ENTER,
            action: EmployeeAction::Idle,
        }
    }

    /// A new employee with the given traits, or `None` when no employee can be
    /// made of them.
    pub fn from_traits(computer: usize, traits: EmployeeTraits) -> (r: Option<Employee>)
        ensures
            r is Some <==> traits.wf(),
            r matches Some(e) ==> e@ == EmployeeModel::fresh(computer, traits) && e@.wf(),
    {
        if traits.is_valid() {
            Some(Employee::with_traits(computer, traits))
        } else {
            None
        }
    }

    fn decay_needs(&mut self)
        requires
            old(self)@.wf(),
        ensures
            final(self)@ == old(self)@.decayed(),
    {
        self.satisfaction = need_after_tick(
            self.satisfaction,
            self.satisfaction_factor,
            false,
            self.action == EmployeeAction::Break,
        );
        self.hope = need_after_tick(
            self.hope,
            self.hope_factor,
            true,
            self.action == EmployeeAction::FamilyCall,
        );
        self.energy = need_after_tick(
            self.energy,
            self.energy_factor,
            false,
            self.action == EmployeeAction::Sleep,
        );
        self.satiety = need_after_tick(
            self.satiety,
            self.satiety_factor,
            false,
            self.action == EmployeeAction::Eat,
        );
    }

    fn judge(&mut self) -> (wrecks: bool)
        ensures
            final(self)@ == old(self)@.judged(),
            wrecks == old(self)@.wrecks(),
    {
        let alive: bool = self.state == EmployeeState::Alive;
        let working: bool = self.movement_step == STEP_WORK;
        let despairs: bool = alive && working && self.hope == 0;
        let wrecks: bool = working && self.satisfaction == 0 && !despairs;
        let quits: bool = working && (self.satisfaction == 0 || self.hope == NEED_MAX) && !despairs;
        if self.energy == 0 {
            self.action = EmployeeAction::Sleep;
        }
        if despairs {
            self.state = EmployeeState::Suicide;
            self.movement_step = STEP_ENTER;
        } else {
            if alive && self.satiety == 0 {
                self.state = EmployeeState::Dead;
            }
            if quits {
                self.movement_step = STEP_RETREAT;
            }
        }
        wrecks
    }

    fn glide_x(&mut self, target: i64, speed: i64, forward: bool, next: usize)
        requires
            on_floor(old(self)@.x),
            is_target(target as int),
            0 < speed <= EMPLOYEE_RUNNING_SPEED,
        ensures
            final(self)@ == old(self)@.along_x(target as int, speed as int, forward, next as int),
    {
        if forward {
            if self.position.x < target {
                self.position.x = self.position.x + speed;
                self.rotation = ROTATION_RIGHT;
            } else {
                self.position.x = target;
                self.movement_step = next;
            }
        } else {
            if self.position.x > target {
                self.position.x = self.position.x - speed;
                self.rotation = ROTATION_LEFT;
            } else {
                self.position.x = target;
                self.movement_step = next;
            }
        }
    }

    fn glide_y(&mut self, target: i64, speed: i64, forward: bool, next: usize)
        requires
            on_floor(old(self)@.y),
            is_target(target as int),
            0 < speed <= EMPLOYEE_RUNNING_SPEED,
        ensures
            final(self)@ == old(self)@.along_y(target as int, speed as int, forward, next as int),
    {
        if forward {
            if self.position.y < target {
                self.position.y = self.position.y + speed;
                self.rotation = ROTATION_DOWN;
            } else {
                self.position.y = target;
                self.movement_step = next;
            }
        } else {
            if self.position.y > target {
                self.position.y = self.position.y - speed;
                self.rotation = ROTATION_UP;
            } else {
                self.position.y = target;
                self.movement_step = next;
            }
        }
    }

    fn walk(&mut self, door_state: DoorState, computer: &Computer, col: usize)
        requires
            old(self)@.wf(),
            old(self)@.state is Alive,
            computer.reachable(),
            col as int == computer.column(),
        ensures
            final(self)@ == old(self)@.walked(door_state, *computer),
    {
        let aisle: i64 = middle_spot_x_of(col);
        let right: bool = col % 2 == 0;
        let above: bool = computer.spot.y < MIDDLE_LANE;
        if self.movement_step == STEP_ENTER {
            if self.position.x > aisle {
                self.position.x = aisle;
                self.movement_step = STEP_ALIGN;
            } else {
                self.position.x = self.position.x + EMPLOYEE_SPEED;
                self.rotation = ROTATION_RIGHT;
            }
        } else if self.movement_step == STEP_ALIGN {
            self.glide_y(computer.spot.y, EMPLOYEE_SPEED, !above, STEP_APPROACH);
        } else if self.movement_step == STEP_APPROACH {
            self.glide_x(computer.spot.x, EMPLOYEE_SPEED, right, STEP_WORK);
        } else if self.movement_step == STEP_WORK {
            self.position = computer.spot;
        } else if self.movement_step == STEP_RETREAT {
            self.glide_x(aisle, EMPLOYEE_RUNNING_SPEED, !right, STEP_CORRIDOR);
        } else if self.movement_step == STEP_CORRIDOR {
            self.glide_y(MIDDLE_LANE, EMPLOYEE_RUNNING_SPEED, above, STEP_DOOR);
        } else if self.movement_step == STEP_DOOR {
            if self.position.x > DOOR_X {
                self.position.x = self.position.x - EMPLOYEE_RUNNING_SPEED;
                self.rotation = ROTATION_LEFT;
            } else if door_state == DoorState::Open {
                self.movement_step = STEP_EXIT;
            } else if self.hope < PATIENT_HOPE && self.satisfaction > PATIENT_SATISFACTION {
                self.movement_step = STEP_ENTER;
            } else {
                self.position.x = DOOR_X;
            }
        } else if self.movement_step == STEP_EXIT {
            if self.position.x > EXIT_X {
                self.position.x = self.position.x - EMPLOYEE_RUNNING_SPEED;
            } else {
                self.position.x = EXIT_X;
                self.movement_step = STEP_LEAVE;
            }
        } else if self.movement_step == STEP_LEAVE {
            self.rotation = ROTATION_UP;
            self.position.y = self.position.y - EMPLOYEE_RUNNING_SPEED;
            if self.position.y < 0 {
                self.state = EmployeeState::Clean;
            }
        }
    }

    fn drive(&mut self, computer: &Computer, col: usize)
        requires
            old(self)@.wf(),
            old(self)@.state is Suicide,
            computer.reachable(),
            col as int == computer.column(),
        ensures
            final(self)@ == old(self)@.driven(*computer),
    {
        let aisle: i64 = middle_spot_x_of(col);
        let right: bool = col % 2 == 0;
        let above: bool = computer.spot.y < MIDDLE_LANE;
        if self.movement_step == STEP_ENTER {
            self.glide_x(aisle, EMPLOYEE_SPEED, !right, STEP_ALIGN);
        } else if self.movement_step == STEP_ALIGN {
            self.glide_y(MIDDLE_LANE, EMPLOYEE_SPEED, above, STEP_APPROACH);
        } else if self.movement_step == STEP_APPROACH {
            if self.position.x < WINDOW_X {
                self.position.x = self.position.x + EMPLOYEE_SPEED;
                self.rotation = ROTATION_RIGHT;
            } else {
                self.position.x = WINDOW_X;
                self.state = EmployeeState::Falling;
            }
        }
    }

    fn fall(&mut self)
        requires
            old(self)@.wf(),
            old(self)@.state is Falling,
        ensures
            final(self)@ == old(self)@.fallen(),
    {
        if self.position.y < FALL_LIMIT_Y {
            self.position.x = self.position.x + FALL_STEP_X;
            self.position.y = self.position.y + FALL_STEP_Y;
        } else {
            self.state = EmployeeState::Clean;
        }
    }

    /// Advances the employee by one tick, wrecks the machine of its
    /// workstation `computer` if it comes to that, and returns what the
    /// employee earned.
    #[must_use]
    pub fn tick(&mut self, door_state: DoorState, computer: &mut Computer) -> (money: i64)
        requires
            old(self)@.wf(),
            old(computer).reachable(),
        ensures
            final(self)@ == old(self)@.after_tick(door_state, *old(computer)),
            *final(computer) == old(self)@.computer_after_tick(*old(computer)),
            money == old(self)@.tick_earnings(door_state, *old(computer)),
            final(self)@.wf(),
            final(self)@.needs_in_range(),
            final(computer).reachable(),
            0 <= money <= EARNINGS,
    {
        proof {
            lemma_tick_keeps_wf(self@, door_state, *computer);
        }
        if self.state == EmployeeState::Clean {
            return 0;
        }
        self.decay_needs();
        let wrecks: bool = self.judge();
        if wrecks {
            computer.broken = true;
        }
        match computer.find_column() {
            Some(col) => {
                if self.state == EmployeeState::Alive {
                    self.walk(door_state, computer, col);
                } else if self.state == EmployeeState::Suicide {
                    self.drive(computer, col);
                } else if self.state == EmployeeState::Falling {
                    self.fall();
                }
            },
            None => {},
        }
        if self.state == EmployeeState::Alive && !computer.broken && self.movement_step
            == STEP_WORK {
            if self.satisfaction == NEED_MAX {
                EARNINGS_COMPLACENT
            } else {
                EARNINGS
            }
        } else {
            0
        }
    }

    /// Cleans a dead employee away, so that the next tick of the office removes
    /// it. Returns whether the employee was dead; any other is left alone.
    pub fn clean(&mut self) -> (done: bool)
        ensures
            done == (old(self)@.state is Dead),
            final(self)@ == old(self)@.cleaned(),
            old(self)@.wf() ==> final(self)@.wf(),
    {
        if self.state == EmployeeState::Dead {
            self.state = EmployeeState::Clean;
            true
        } else {
            false
        }
    }

    /// Takes up `action`, or drops it if the employee is already at it. Returns
    /// whether the employee was alive; any other is left alone.
    pub fn set_action(&mut self, action: EmployeeAction) -> (done: bool)
        ensures
            done == (old(self)@.state is Alive),
            final(self)@ == old(self)@.toggled(action),
            old(self)@.wf() ==> final(self)@.wf(),
    {
        if self.state == EmployeeState::Alive {
            if self.action == action {
                self.action = EmployeeAction::Idle;
            } else {
                self.action = action;
            }
            true
        } else {
            false
        }
    }

    /// Strikes an employee dead. Returns whether the employee was alive; any
    /// other is left alone.
    pub fn kill(&mut self) -> (done: bool)
        ensures
            done == (old(self)@.state is Alive),
            final(self)@ == old(self)@.killed(),
            old(self)@.wf() ==> final(self)@.wf(),
    {
        if self.state == EmployeeState::Alive {
            self.state = EmployeeState::Dead;
            true
        } else {
            false
        }
    }

    /// Shifts the needs of a living employee, each by its delta, and clamps
    /// them; a dead one is left alone.
    pub fn shift_needs(
        &mut self,
        satisfaction_delta: i64,
        energy_delta: i64,
        satiety_delta: i64,
        hope_delta: i64,
    )
        requires
            old(self)@.wf(),
        ensures
            final(self)@ == old(self)@.shifted(
                satisfaction_delta as int,
                energy_delta as int,
                satiety_delta as int,
                hope_delta as int,
            ),
            final(self)@.wf(),
    {
        if self.state != EmployeeState::Dead {
            self.satisfaction = shift_need(self.satisfaction, satisfaction_delta);
            self.energy = shift_need(self.energy, energy_delta);
            self.satiety = shift_need(self.satiety, satiety_delta);
            self.hope = shift_need(self.hope, hope_delta);
        }
    }

    pub fn get_name(&self) -> (name: &str)
        ensures
            name@ == self@.name,
    {
        self.name.as_str()
    }

    pub fn get_satisfaction(&self) -> (v: i64)
        ensures
            v == self@.satisfaction,
    {
        self.satisfaction
    }

    pub fn get_hope(&self) -> (v: i64)
        ensures
            v == self@.hope,
    {
        self.hope
    }

    pub fn get_energy(&self) -> (v: i64)
        ensures
            v == self@.energy,
    {
        self.energy
    }

    pub fn get_satiety(&self) -> (v: i64)
        ensures
            v == self@.satiety,
    {
        self.satiety
    }

    pub fn get_pos(&self) -> (p: Position)
        ensures
            p.x == self@.x,
            p.y == self@.y,
    {
        self.position
    }

    /// The heading of the employee, in degrees.
    pub fn get_rotation(&self) -> (r: i64)
        ensures
            r == self@.rotation,
    {
        self.rotation
    }

    pub fn get_state(&self) -> (s: EmployeeState)
        ensures
            s == self@.state,
    {
        self.state
    }

    pub fn get_action(&self) -> (a: EmployeeAction)
        ensures
            a == self@.action,
    {
        self.action
    }

    /// The handle of the workstation that the employee holds.
    pub fn get_computer(&self) -> (c: usize)
        ensures
            c == self@.computer,
    {
        self.computer
    }

    pub fn get_movement_step(&self) -> (s: usize)
        ensures
            s == self@.movement_step,
    {
        self.movement_step
    }

    /// Whether satisfaction is at its height.
    pub fn is_happy(&self) -> (r: bool)
        ensures
            r == (self@.satisfaction == NEED_MAX),
    {
        self.satisfaction == NEED_MAX
    }

    /// Whether no satisfaction is left.
    pub fn is_mad(&self) -> (r: bool)
        ensures
            r == (self@.satisfaction == 0),
    {
        self.satisfaction == 0
    }
}

} // verus!
