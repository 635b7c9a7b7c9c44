//! The office: its workstations, its employees, its money, and what one tick
//! does to all of them.
use vstd::prelude::*;
use crate::computer::{lemma_grid_reachable, Computer};
use crate::employee::{
    lemma_tick_keeps_wf, DoorState, Employee, EmployeeAction, EmployeeModel, EmployeeState,
    EmployeeTraits, GameState, EARNINGS,
};
use crate::fixed::{saturate, saturating_difference, saturating_sum};
use crate::geometry::{
    distance_squared, reach, within_reach, Position, COMPUTER_COUNT, OPEN_WINDOW_X,
};
use crate::qte::QteEffect;
use crate::random::draw_index;

verus! {

/// What a new office has in the till.
pub const STARTING_MONEY: i64 = 10_000;

/// What a boost for every employee costs.
pub const BONUS_METH_COST: i64 = 100_000;

/// What hiring an employee costs.
pub const BONUS_RH_COST: i64 = 100_000;

/// An office as contracts see it.
pub struct OfficeModel {
    /// Every workstation, by handle.
    pub computers: Seq<Computer>,
    /// The handles of the workstations that nobody holds.
    pub available: Seq<usize>,
    pub employees: Seq<EmployeeModel>,
    /// The handle that the selected employee holds.
    pub selected: Option<usize>,
    pub money: int,
    pub door_state: DoorState,
    pub window_open: bool,
    pub game_state: GameState,
}

/// The office.
pub struct Office {
    computers: Vec<Computer>,
    available_computers: Vec<usize>,
    employees: Vec<Employee>,
    selected_employee: Option<usize>,
    money: i64,
    door_state: DoorState,
    window_open: bool,
    game_state: GameState,
}

impl View for Office {
    type V = OfficeModel;

    closed spec fn view(&self) -> OfficeModel {
        OfficeModel {
            computers: self.computers@,
            available: self.available_computers@,
            employees: models(self.employees@),
            selected: self.selected_employee,
            money: self.money as int,
            door_state: self.door_state,
            window_open: self.window_open,
            game_state: self.game_state,
        }
    }
}

/// The employees of a list as contracts see them.
pub open spec fn models(employees: Seq<Employee>) -> Seq<EmployeeModel> {
    Seq::new(employees.len(), |j: int| employees[j]@)
}

/// Whether some employee of the list holds the workstation `handle`.
pub open spec fn held(employees: Seq<EmployeeModel>, handle: usize) -> bool {
    exists|j: int| 0 <= j < employees.len() && (#[trigger] employees[j]).computer == handle
}

/// Whether every workstation handle that occurs is in range, no handle occurs
/// twice, be it among the free ones or among those held, and the two lists
/// together hold as many handles as there are workstations.
pub open spec fn partitioned(available: Seq<usize>, employees: Seq<EmployeeModel>) -> bool {
    &&& forall|i: int| 0 <= i < available.len() ==> (#[trigger] available[i]) < COMPUTER_COUNT
    &&& forall|j: int|
        0 <= j < employees.len() ==> (#[trigger] employees[j]).computer < COMPUTER_COUNT
    &&& available.no_duplicates()
    &&& forall|j: int, k: int|
        0 <= j < k < employees.len() ==> (#[trigger] employees[j]).computer != (
        #[trigger] employees[k]).computer
    &&& forall|i: int, j: int|
        0 <= i < available.len() && 0 <= j < employees.len() ==> (#[trigger] available[i]) != (
        #[trigger] employees[j]).computer
    &&& available.len() + employees.len() == COMPUTER_COUNT
}

/// Whether every employee of the list is in a state that the simulation can
/// reach.
pub open spec fn all_wf(employees: Seq<EmployeeModel>) -> bool {
    forall|j: int| 0 <= j < employees.len() ==> (#[trigger] employees[j]).wf()
}

/// Whether every employee of the list is dead.
pub open spec fn all_dead(employees: Seq<EmployeeModel>) -> bool {
    forall|j: int| 0 <= j < employees.len() ==> (#[trigger] employees[j]).state is Dead
}

/// Whether every workstation stands at its place in the grid.
pub open spec fn in_grid(computers: Seq<Computer>) -> bool {
    &&& computers.len() == COMPUTER_COUNT
    &&& forall|h: int|
        0 <= h < COMPUTER_COUNT ==> (#[trigger] computers[h]).same_place(Computer::at_grid(h))
}

impl OfficeModel {
    /// Whether the office is in a state that the simulation can reach: the
    /// workstations stand in the grid, free and held handles partition them,
    /// every employee is well formed, and the selected employee is on the list.
    pub open spec fn wf(self) -> bool {
        &&& in_grid(self.computers)
        &&& partitioned(self.available, self.employees)
        &&& all_wf(self.employees)
        &&& self.selected matches Some(h) ==> held(self.employees, h)
    }

    /// The office at the start of a game: every workstation free and working,
    /// nobody hired, the door open, the window shut.
    pub open spec fn initial() -> OfficeModel {
        OfficeModel {
            computers: Seq::new(COMPUTER_COUNT as nat, |h: int| Computer::at_grid(h)),
            available: Seq::new(COMPUTER_COUNT as nat, |h: int| h as usize),
            employees: Seq::empty(),
            selected: None,
            money: STARTING_MONEY as int,
            door_state: DoorState::Open,
            window_open: false,
            game_state: GameState::Running,
        }
    }

    /// Whether the free workstation at place `spot_index` of the free list can
    /// be given to an employee of the given traits.
    pub open spec fn can_seat(self, spot_index: int, traits: EmployeeTraits) -> bool {
        0 <= spot_index < self.available.len() && traits.wf()
    }

    /// The office after the free workstation at place `spot_index` was given
    /// to a new employee of the given traits; the same office where that
    /// cannot be done.
    pub open spec fn with_employee(self, spot_index: int, traits: EmployeeTraits) -> OfficeModel {
        if self.can_seat(spot_index, traits) {
            OfficeModel {
                available: self.available.remove(spot_index),
                employees: self.employees.push(
                    EmployeeModel::fresh(self.available[spot_index], traits),
                ),
                ..self
            }
        } else {
            self
        }
    }

    /// The office after the employee at place `index` of the list was struck
    /// dead; the same office where there is no such employee or it is not
    /// alive.
    pub open spec fn with_kill(self, index: int) -> OfficeModel {
        if 0 <= index < self.employees.len() {
            OfficeModel {
                employees: self.employees.update(index, self.employees[index].killed()),
                ..self
            }
        } else {
            self
        }
    }

    /// The office after the door was worked: an open door shuts, a closed door
    /// opens, a broken door stays as it is.
    pub open spec fn with_door_toggled(self) -> OfficeModel {
        OfficeModel {
            door_state: match self.door_state {
                DoorState::Open => DoorState::Closed,
                DoorState::Closed => DoorState::Open,
                DoorState::Broken => DoorState::Broken,
            },
            ..self
        }
    }
}

/// The squared distance from an employee to a point.
pub open spec fn gap(e: EmployeeModel, pos: Position) -> int {
    (e.x - pos.x) * (e.x - pos.x) + (e.y - pos.y) * (e.y - pos.y)
}

/// Whether a click at `pos` reaches the employee.
pub open spec fn in_reach(e: EmployeeModel, pos: Position) -> bool {
    gap(e, pos) < crate::geometry::EMPLOYEE_RADIUS * crate::geometry::EMPLOYEE_RADIUS
}

/// Whether a click at `pos` picks the employee at place `j` of the list: the
/// click reaches it, no employee is nearer, and every one as near stands
/// before it on the list.
pub open spec fn picks(employees: Seq<EmployeeModel>, pos: Position, j: int) -> bool {
    &&& 0 <= j < employees.len()
    &&& in_reach(employees[j], pos)
    &&& forall|k: int|
        0 <= k < employees.len() && in_reach(#[trigger] employees[k], pos) ==> if k > j {
            gap(employees[j], pos) < gap(employees[k], pos)
        } else {
            gap(employees[j], pos) <= gap(employees[k], pos)
        }
}

impl OfficeModel {
    /// The place on the list of the employee that holds the workstation
    /// `handle`.
    pub open spec fn holder(self, handle: usize) -> int {
        choose|j: int| 0 <= j < self.employees.len() && (#[trigger] self.employees[j]).computer == handle
    }

    /// The handle held by the employee that a click at `pos` picks, if it picks
    /// one.
    pub open spec fn picked(self, pos: Position) -> Option<usize> {
        if exists|j: int| picks(self.employees, pos, j) {
            Some(self.employees[choose|j: int| picks(self.employees, pos, j)].computer)
        } else {
            None
        }
    }

    /// The office after a click at `pos`: the employee that the click picks is
    /// selected; a click that picks nobody changes nothing.
    pub open spec fn after_click(self, pos: Position) -> OfficeModel {
        match self.picked(pos) {
            Some(h) => OfficeModel { selected: Some(h), ..self },
            None => self,
        }
    }

    /// The office after the player asked the selected employee to take up
    /// `action`; the same office where nobody is selected.
    pub open spec fn with_selected_toggled(self, action: EmployeeAction) -> OfficeModel {
        match self.selected {
            Some(h) => OfficeModel {
                employees: self.employees.update(
                    self.holder(h),
                    self.employees[self.holder(h)].toggled(action),
                ),
                ..self
            },
            None => self,
        }
    }

    /// The office after the player asked to clean the selected employee away;
    /// the same office where nobody is selected.
    pub open spec fn with_selected_cleaned(self) -> OfficeModel {
        match self.selected {
            Some(h) => OfficeModel {
                employees: self.employees.update(
                    self.holder(h),
                    self.employees[self.holder(h)].cleaned(),
                ),
                ..self
            },
            None => self,
        }
    }

    /// Every workstation, the free ones first, then the one of each employee
    /// in the order of the list.
    pub open spec fn all_computers(self) -> Seq<Computer> {
        Seq::new(
            self.available.len() + self.employees.len(),
            |i: int|
                if i < self.available.len() {
                    self.computers[self.available[i] as int]
                } else {
                    self.computers[self.employees[i - self.available.len()].computer as int]
                },
        )
    }

    /// Whether some employee on the list is alive.
    pub open spec fn any_alive(self) -> bool {
        exists|j: int| 0 <= j < self.employees.len() && (#[trigger] self.employees[j]).state is Alive
    }
}

/// The employees of a list that are not ready for removal, in order.
pub open spec fn survivors(staff: Seq<EmployeeModel>) -> Seq<EmployeeModel>
    decreases staff.len(),
{
    if staff.len() == 0 {
        Seq::empty()
    } else if staff.last().state is Clean {
        survivors(staff.drop_last())
    } else {
        survivors(staff.drop_last()).push(staff.last())
    }
}

/// The workstations held by the employees of a list that are ready for
/// removal, in order.
pub open spec fn released(staff: Seq<EmployeeModel>) -> Seq<usize>
    decreases staff.len(),
{
    if staff.len() == 0 {
        Seq::empty()
    } else if staff.last().state is Clean {
        released(staff.drop_last()).push(staff.last().computer)
    } else {
        released(staff.drop_last())
    }
}

impl OfficeModel {
    /// The workstation that the employee at place `j` of the list holds.
    pub open spec fn computer_of(self, j: int) -> Computer {
        self.computers[self.employees[j].computer as int]
    }

    /// The employee at place `j` of the list after one tick.
    pub open spec fn ticked(self, j: int) -> EmployeeModel {
        self.employees[j].after_tick(self.door_state, self.computer_of(j))
    }

    /// Every employee of the list after one tick.
    pub open spec fn all_ticked(self) -> Seq<EmployeeModel> {
        Seq::new(self.employees.len(), |j: int| self.ticked(j))
    }

    /// Whether one of the first `upto` employees of the list wrecks the
    /// workstation `handle` in this tick.
    pub open spec fn wrecked_by(self, handle: int, upto: int) -> bool {
        exists|j: int|
            0 <= j < upto && j < self.employees.len() && (#[trigger] self.employees[j]).computer
                == handle && !(self.employees[j].state is Clean)
                && self.employees[j].decayed().wrecks()
    }

    /// Every workstation after one tick: wrecked where the employee that holds
    /// it wrecks it, else as it was.
    pub open spec fn computers_after_tick(self) -> Seq<Computer> {
        Seq::new(
            self.computers.len(),
            |h: int| self.computers[h].wrecked_if(self.wrecked_by(h, self.employees.len() as int)),
        )
    }

    /// What the first `upto` employees of the list earn together in one tick.
    pub open spec fn earned(self, upto: int) -> int
        decreases upto,
    {
        if upto <= 0 {
            0
        } else {
            self.earned(upto - 1) + self.employees[upto - 1].tick_earnings(
                self.door_state,
                self.computer_of(upto - 1),
            )
        }
    }

    /// Whether an employee stands beyond the line at which the window opens.
    pub open spec fn window_held_open(self) -> bool {
        exists|j: int|
            0 <= j < self.employees.len() && (#[trigger] self.employees[j]).x > OPEN_WINDOW_X
    }

    /// The office after one tick. The window is open if an employee stood
    /// beyond its line before the tick. Every employee ticks, with its own
    /// workstation; what they earn goes to the till. Employees that are then
    /// ready for removal leave the list, and their workstations are free
    /// again; the selection is dropped if the selected employee left. The game
    /// is lost once every employee left on the list is dead, or the till is in
    /// the red.
    pub open spec fn after_tick(self) -> OfficeModel {
        let staff = self.all_ticked();
        let employees = survivors(staff);
        let money = saturate(self.money + self.earned(self.employees.len() as int));
        OfficeModel {
            computers: self.computers_after_tick(),
            available: self.available + released(staff),
            employees,
            selected: match self.selected {
                Some(h) => if held(employees, h) {
                    Some(h)
                } else {
                    None
                },
                None => None,
            },
            money,
            door_state: self.door_state,
            window_open: self.window_held_open(),
            game_state: if all_dead(employees) || money < 0 {
                GameState::GameOver
            } else {
                self.game_state
            },
        }
    }
}

/// Taking an employee off the list and putting its workstation on the free
/// list keeps the partition of the workstations.
pub proof fn lemma_release_keeps_partition(
    available: Seq<usize>,
    employees: Seq<EmployeeModel>,
    index: int,
)
    requires
        partitioned(available, employees),
        0 <= index < employees.len(),
    ensures
        partitioned(available.push(employees[index].computer), employees.remove(index)),
{
    let h = employees[index].computer;
    let free = available.push(h);
    let rest = employees.remove(index);
    employees.remove_ensures(index);
    assert forall|j: int| 0 <= j < rest.len() implies (#[trigger] rest[j]).computer
        < COMPUTER_COUNT && rest[j].computer != h by {
        let j0 = if j < index {
            j
        } else {
            j + 1
        };
        assert(rest[j] == employees[j0]);
        if j0 < index {
            assert(employees[j0].computer != employees[index].computer);
        } else {
            assert(employees[index].computer != employees[j0].computer);
        }
    }
    assert forall|i: int| 0 <= i < free.len() implies (#[trigger] free[i]) < COMPUTER_COUNT by {
        if i < available.len() {
            assert(free[i] == available[i]);
        }
    }
    assert forall|i: int, k: int| 0 <= i < free.len() && 0 <= k < free.len() && i != k implies free[i]
        != free[k] by {
        if i < available.len() && k < available.len() {
            assert(available[i] != available[k]);
        } else if i < available.len() {
            assert(available[i] != employees[index].computer);
        } else {
            assert(available[k] != employees[index].computer);
        }
    }
    assert forall|j: int, k: int| 0 <= j < k < rest.len() implies (#[trigger] rest[j]).computer != (
    #[trigger] rest[k]).computer by {
        let j0 = if j < index {
            j
        } else {
            j + 1
        };
        let k0 = if k < index {
            k
        } else {
            k + 1
        };
        assert(rest[j] == employees[j0]);
        assert(rest[k] == employees[k0]);
        assert(employees[j0].computer != employees[k0].computer);
    }
    assert forall|i: int, j: int| 0 <= i < free.len() && 0 <= j < rest.len() implies (
    #[trigger] free[i]) != (#[trigger] rest[j]).computer by {
        let j0 = if j < index {
            j
        } else {
            j + 1
        };
        assert(rest[j] == employees[j0]);
        if i < available.len() {
            assert(free[i] == available[i]);
            assert(available[i] != employees[j0].computer);
        }
    }
}

/// How the lists of those who stay and of the workstations that come free
/// grow with one more employee looked at.
pub proof fn lemma_sweep_step(staff: Seq<EmployeeModel>, i: int)
    requires
        0 <= i < staff.len(),
    ensures
        survivors(staff.take(i + 1)) == if staff[i].state is Clean {
            survivors(staff.take(i))
        } else {
            survivors(staff.take(i)).push(staff[i])
        },
        released(staff.take(i + 1)) == if staff[i].state is Clean {
            released(staff.take(i)).push(staff[i].computer)
        } else {
            released(staff.take(i))
        },
        survivors(staff.take(i)).len() <= i,
    decreases i,
{
    assert(staff.take(i + 1).drop_last() =~= staff.take(i));
    assert(staff.take(i + 1).last() == staff[i]);
    if i > 0 {
        lemma_sweep_step(staff, i - 1);
    }
}

/// Sweeping the first `i` employees of a list keeps the partition of the
/// workstations and the well-formedness of the employees.
pub proof fn lemma_sweep(available: Seq<usize>, staff: Seq<EmployeeModel>, i: int)
    requires
        partitioned(available, staff),
        all_wf(staff),
        0 <= i <= staff.len(),
    ensures
        partitioned(
            available + released(staff.take(i)),
            survivors(staff.take(i)) + staff.skip(i),
        ),
        all_wf(survivors(staff.take(i)) + staff.skip(i)),
        survivors(staff.take(i)).len() <= i,
        forall|k: int|
            0 <= k < survivors(staff.take(i)).len() ==> !((#[trigger] survivors(
                staff.take(i),
            )[k]).state is Clean),
    decreases i,
{
    if i == 0 {
        assert(staff.take(0) =~= Seq::empty());
        assert(available + released(staff.take(0)) =~= available);
        assert(survivors(staff.take(0)) + staff.skip(0) =~= staff);
    } else {
        lemma_sweep(available, staff, i - 1);
        lemma_sweep_step(staff, i - 1);
        let kept = survivors(staff.take(i - 1));
        let free = available + released(staff.take(i - 1));
        let list = kept + staff.skip(i - 1);
        let at = kept.len() as int;
        assert(list[at] == staff[i - 1]);
        if staff[i - 1].state is Clean {
            lemma_release_keeps_partition(free, list, at);
            assert(list.remove(at) =~= kept + staff.skip(i));
            assert(free.push(staff[i - 1].computer) =~= available + released(staff.take(i)));
            let next = kept + staff.skip(i);
            assert forall|j: int| 0 <= j < next.len() implies (#[trigger] next[j]).wf() by {
                if j < at {
                    assert(next[j] == list[j]);
                } else {
                    assert(next[j] == list[j + 1]);
                }
            }
        } else {
            assert(list =~= kept.push(staff[i - 1]) + staff.skip(i));
        }
    }
}

/// Whether `staff` holds, place by place, the workstations that the employees
/// of `office` hold, each of its employees being well formed.
pub open spec fn same_seats(office: OfficeModel, staff: Seq<EmployeeModel>) -> bool {
    &&& staff.len() == office.employees.len()
    &&& forall|j: int|
        0 <= j < staff.len() ==> (#[trigger] staff[j]).wf() && staff[j].computer
            == office.employees[j].computer
}

/// Putting in the place of each employee one that holds the same workstation
/// and is well formed keeps a well-formed office well formed.
pub proof fn lemma_same_seats_keep_wf(office: OfficeModel, staff: Seq<EmployeeModel>)
    requires
        office.wf(),
        same_seats(office, staff),
    ensures
        (OfficeModel { employees: staff, ..office }).wf(),
        partitioned(office.available, staff),
        all_wf(staff),
{
    assert forall|j: int, k: int| 0 <= j < k < staff.len() implies (#[trigger] staff[j]).computer != (
    #[trigger] staff[k]).computer by {
        assert(office.employees[j].computer != office.employees[k].computer);
    }
    assert forall|i: int, j: int| 0 <= i < office.available.len() && 0 <= j < staff.len() implies (
    #[trigger] office.available[i]) != (#[trigger] staff[j]).computer by {
        assert(office.available[i] != office.employees[j].computer);
    }
    assert forall|j: int| 0 <= j < staff.len() implies (#[trigger] staff[j]).computer
        < COMPUTER_COUNT by {
        assert(office.employees[j].computer < COMPUTER_COUNT);
    }
    if office.selected is Some {
        let h = office.selected.unwrap();
        let j = office.holder(h);
        assert(staff[j].computer == h);
    }
}

/// The employee at place `j` of a well-formed office can reach its
/// workstation, is well formed after a tick, still holds that workstation,
/// and earns between nothing and [`EARNINGS`] in the tick.
pub proof fn lemma_ticked_employee(office: OfficeModel, j: int)
    requires
        office.wf(),
        0 <= j < office.employees.len(),
    ensures
        office.employees[j].wf(),
        office.employees[j].computer < COMPUTER_COUNT,
        office.computer_of(j).reachable(),
        office.ticked(j).wf(),
        office.ticked(j).computer == office.employees[j].computer,
        0 <= office.employees[j].tick_earnings(office.door_state, office.computer_of(j))
            <= EARNINGS,
{
    let h = office.employees[j].computer as int;
    assert(office.computers[h].same_place(Computer::at_grid(h)));
    lemma_grid_reachable(h);
    lemma_tick_keeps_wf(office.employees[j], office.door_state, office.computer_of(j));
}

/// After a tick each employee of a well-formed office is well formed and
/// holds the workstation it held, so that the workstations are partitioned as
/// before.
pub proof fn lemma_ticked_staff(office: OfficeModel)
    requires
        office.wf(),
    ensures
        same_seats(office, office.all_ticked()),
        partitioned(office.available, office.all_ticked()),
        all_wf(office.all_ticked()),
{
    let staff = office.all_ticked();
    assert forall|j: int| 0 <= j < staff.len() implies (#[trigger] staff[j]).wf() && staff[j].computer
        == office.employees[j].computer by {
        lemma_ticked_employee(office, j);
    }
    lemma_same_seats_keep_wf(office, staff);
}

/// A tick keeps a well-formed office well formed: the workstations stay
/// partitioned into free and held ones, and every employee stays well formed,
/// with each need in `[0, NEED_MAX]`.
pub proof fn lemma_tick_keeps_office_wf(office: OfficeModel)
    requires
        office.wf(),
    ensures
        office.after_tick().wf(),
        forall|j: int|
            0 <= j < office.after_tick().employees.len() ==> (
            #[trigger] office.after_tick().employees[j]).needs_in_range(),
        forall|j: int|
            0 <= j < office.after_tick().employees.len() ==> !((
            #[trigger] office.after_tick().employees[j]).state is Clean),
{
    let staff = office.all_ticked();
    lemma_ticked_staff(office);
    lemma_sweep(office.available, staff, staff.len() as int);
    assert(staff.take(staff.len() as int) =~= staff);
    assert(survivors(staff) + staff.skip(staff.len() as int) =~= survivors(staff));
    let after = office.after_tick();
    assert forall|h: int| 0 <= h < COMPUTER_COUNT implies (#[trigger] after.computers[h]).same_place(
        Computer::at_grid(h),
    ) by {
        assert(office.computers[h].same_place(Computer::at_grid(h)));
    }
}

/// How many employees of a list are alive.
pub open spec fn alive_count(staff: Seq<EmployeeModel>) -> int
    decreases staff.len(),
{
    if staff.len() == 0 {
        0
    } else if staff.last().state is Alive {
        alive_count(staff.drop_last()) + 1
    } else {
        alive_count(staff.drop_last())
    }
}

/// The smaller of two numbers.
pub open spec fn lesser(a: int, b: int) -> int {
    if a < b {
        a
    } else {
        b
    }
}

impl OfficeModel {
    /// The office after `cost` was paid from the till.
    pub open spec fn paid(self, cost: int) -> OfficeModel {
        OfficeModel { money: saturate(self.money - cost), ..self }
    }

    /// The office after the money and the needs of an event took effect: the
    /// money goes to the till, and each need of every employee who is not dead
    /// moves by its delta and is clamped.
    pub open spec fn shifted(self, effect: QteEffect) -> OfficeModel {
        OfficeModel {
            money: saturate(self.money + effect.money_delta),
            employees: Seq::new(
                self.employees.len(),
                |j: int|
                    self.employees[j].shifted(
                        effect.satisfaction_delta as int,
                        effect.energy_delta as int,
                        effect.satiety_delta as int,
                        effect.hope_delta as int,
                    ),
            ),
            ..self
        }
    }

    /// Whether `post` is this office after it hired `count` employees, or as
    /// many as it had free workstations for: the newcomers follow the others
    /// on the list, each on a workstation that was free, and nothing else
    /// changed.
    pub open spec fn hired(self, count: int, post: OfficeModel) -> bool {
        let staff = self.employees.len() as int;
        &&& post.wf()
        &&& post.employees.len() == staff + lesser(count, self.available.len() as int)
        &&& post.employees.take(staff) == self.employees
        &&& forall|j: int|
            staff <= j < post.employees.len() ==> (#[trigger] post.employees[j]).newcomer()
        &&& forall|i: int|
            0 <= i < post.available.len() ==> self.available.contains(#[trigger] post.available[i])
        &&& post.computers == self.computers
        &&& post.selected == self.selected
        &&& post.money == self.money
        &&& post.door_state == self.door_state
        &&& post.window_open == self.window_open
        &&& post.game_state == self.game_state
    }

    /// Whether `post` is this office after `count` of its employees who were
    /// alive, or all of them where they were fewer, were struck dead, and
    /// nothing else changed.
    pub open spec fn culled(self, count: int, post: OfficeModel) -> bool {
        &&& post.wf()
        &&& post.employees.len() == self.employees.len()
        &&& forall|j: int|
            0 <= j < self.employees.len() ==> (#[trigger] post.employees[j]) == self.employees[j]
                || post.employees[j] == self.employees[j].killed()
        &&& alive_count(post.employees) == alive_count(self.employees) - lesser(
            count,
            alive_count(self.employees),
        )
        &&& post.available == self.available
        &&& post.computers == self.computers
        &&& post.selected == self.selected
        &&& post.money == self.money
        &&& post.door_state == self.door_state
        &&& post.window_open == self.window_open
        &&& post.game_state == self.game_state
    }

    /// Whether `post` is this office after `effect` took hold of it: first the
    /// money and the needs, then as many hirings, or as many deaths, as the
    /// effect asks for. Whom chance hires or strikes is left open.
    pub open spec fn effect_applied(self, effect: QteEffect, post: OfficeModel) -> bool {
        if effect.employee_delta > 0 {
            self.shifted(effect).hired(effect.employee_delta as int, post)
        } else if effect.employee_delta < 0 {
            self.shifted(effect).culled(-effect.employee_delta, post)
        } else {
            post == self.shifted(effect)
        }
    }
}

/// The event that boosts every employee.
pub open spec fn boost() -> QteEffect {
    QteEffect {
        satisfaction_delta: 3_000_000,
        energy_delta: 3_000_000,
        satiety_delta: 3_000_000,
        hope_delta: -3_000_000i64,
        money_delta: 0,
        employee_delta: 0,
    }
}

/// Striking one employee who is alive dead leaves one fewer alive.
pub proof fn lemma_kill_counts(staff: Seq<EmployeeModel>, index: int)
    requires
        0 <= index < staff.len(),
        staff[index].state is Alive,
    ensures
        alive_count(staff.update(index, staff[index].killed())) == alive_count(staff) - 1,
    decreases staff.len(),
{
    let after = staff.update(index, staff[index].killed());
    if index == staff.len() - 1 {
        assert(after.drop_last() =~= staff.drop_last());
    } else {
        assert(after.drop_last() =~= staff.drop_last().update(
            index,
            staff.drop_last()[index].killed(),
        ));
        lemma_kill_counts(staff.drop_last(), index);
    }
}

/// Nobody on a list is alive exactly when the list counts no one alive.
pub proof fn lemma_nobody_alive(staff: Seq<EmployeeModel>)
    ensures
        alive_count(staff) >= 0,
        alive_count(staff) == 0 <==> forall|j: int|
            0 <= j < staff.len() ==> !((#[trigger] staff[j]).state is Alive),
    decreases staff.len(),
{
    if staff.len() > 0 {
        lemma_nobody_alive(staff.drop_last());
        let rest = staff.drop_last();
        if alive_count(staff) == 0 {
            assert forall|j: int| 0 <= j < staff.len() implies !((#[trigger] staff[j]).state
                is Alive) by {
                if j < staff.len() - 1 {
                    assert(rest[j] == staff[j]);
                }
            }
        }
        if forall|j: int| 0 <= j < staff.len() ==> !((#[trigger] staff[j]).state is Alive) {
            assert forall|j: int| 0 <= j < rest.len() implies !((#[trigger] rest[j]).state
                is Alive) by {
                assert(rest[j] == staff[j]);
            }
            assert(!(staff[staff.len() - 1].state is Alive));
        }
    }
}

/// Shifting the needs of every employee keeps a well-formed office well
/// formed.
pub proof fn lemma_shift_keeps_wf(office: OfficeModel, effect: QteEffect)
    requires
        office.wf(),
    ensures
        office.shifted(effect).wf(),
{
    let staff = office.shifted(effect).employees;
    assert forall|j: int| 0 <= j < staff.len() implies (#[trigger] staff[j]).wf() && staff[j].computer
        == office.employees[j].computer by {
        assert(office.employees[j].wf());
    }
    lemma_same_seats_keep_wf(office, staff);
}

/// What the first `upto` employees earn together lies between nothing and
/// [`EARNINGS`] each.
pub proof fn lemma_earned_bounds(office: OfficeModel, upto: int)
    requires
        office.wf(),
        0 <= upto <= office.employees.len(),
    ensures
        0 <= office.earned(upto) <= upto * EARNINGS,
    decreases upto,
{
    if upto > 0 {
        lemma_earned_bounds(office, upto - 1);
        lemma_ticked_employee(office, upto - 1);
    }
}

/// Replacing an employee by one that holds the same workstation and is well
/// formed keeps a well-formed office well formed.
pub proof fn lemma_update_keeps_wf(office: OfficeModel, index: int, e: EmployeeModel)
    requires
        office.wf(),
        0 <= index < office.employees.len(),
        e.wf(),
        e.computer == office.employees[index].computer,
    ensures
        (OfficeModel { employees: office.employees.update(index, e), ..office }).wf(),
{
    let staff = office.employees.update(index, e);
    assert forall|j: int| 0 <= j < staff.len() implies (#[trigger] staff[j]).wf() && staff[j].computer
        == office.employees[j].computer by {
        if j != index {
            assert(staff[j] == office.employees[j]);
        }
    }
    lemma_same_seats_keep_wf(office, staff);
}

/// In a well-formed office the employee that holds a given workstation is the
/// only one that does.
pub proof fn lemma_holder_unique(office: OfficeModel, index: int)
    requires
        office.wf(),
        0 <= index < office.employees.len(),
    ensures
        office.holder(office.employees[index].computer) == index,
{
    let h = office.employees[index].computer;
    let j = office.holder(h);
    assert(0 <= j < office.employees.len() && office.employees[j].computer == h);
    if j < index {
        assert(office.employees[j].computer != office.employees[index].computer);
    }
    if index < j {
        assert(office.employees[index].computer != office.employees[j].computer);
    }
}

/// How the pick among the first `j` employees of a list becomes the pick among
/// the first `j + 1`: the employee at place `j` takes over where the click
/// reaches it and nobody picked so far is nearer; else the pick stays.
pub proof fn lemma_pick_step(staff: Seq<EmployeeModel>, pos: Position, j: int, best: Option<int>)
    requires
        0 <= j < staff.len(),
        best matches Some(b) ==> 0 <= b < j && picks(staff.take(j), pos, b),
        best is None ==> forall|k: int| 0 <= k < j ==> !in_reach(#[trigger] staff[k], pos),
    ensures
        ({
            let takes = in_reach(staff[j], pos) && (best matches Some(b) ==> gap(staff[j], pos)
                <= gap(staff[b], pos));
            &&& takes ==> picks(staff.take(j + 1), pos, j)
            &&& !takes ==> (best matches Some(b) ==> picks(staff.take(j + 1), pos, b))
        }),
{
    let s0 = staff.take(j);
    let s1 = staff.take(j + 1);
    let takes = in_reach(staff[j], pos) && (best matches Some(b) ==> gap(staff[j], pos) <= gap(
        staff[b],
        pos,
    ));
    let at = if takes {
        j
    } else if best is Some {
        best.unwrap()
    } else {
        j
    };
    if takes || best is Some {
        assert forall|k: int| 0 <= k < s1.len() && in_reach(#[trigger] s1[k], pos) implies if k > at {
            gap(s1[at], pos) < gap(s1[k], pos)
        } else {
            gap(s1[at], pos) <= gap(s1[k], pos)
        } by {
            if k < j {
                assert(s0[k] == staff[k]);
                assert(in_reach(s0[k], pos));
                if best is Some {
                    assert(s0[best.unwrap()] == staff[best.unwrap()]);
                }
            }
        }
    }
}

/// A click picks at most one employee.
pub proof fn lemma_pick_unique(employees: Seq<EmployeeModel>, pos: Position, a: int, b: int)
    requires
        picks(employees, pos, a),
        picks(employees, pos, b),
    ensures
        a == b,
{
    if a < b {
        assert(in_reach(employees[b], pos));
        assert(in_reach(employees[a], pos));
    }
    if b < a {
        assert(in_reach(employees[b], pos));
        assert(in_reach(employees[a], pos));
    }
}

impl Office {
    /// An office at the start of a game.
    pub fn new() -> (office: Office)
        ensures
            office@ == OfficeModel::initial(),
            office@.wf(),
    {
        let mut office = Office {
            computers: Vec::new(),
            available_computers: Vec::new(),
            employees: Vec::new(),
            selected_employee: None,
            money: STARTING_MONEY,
            door_state: DoorState::Open,
            window_open: false,
            game_state: GameState::MyLittleOfficeMenu,
        };
        office.start();
        office
    }

    /// Starts the game anew.
    pub fn start(&mut self)
        ensures
            final(self)@ == OfficeModel::initial(),
            final(self)@.wf(),
    {
        let mut computers: Vec<Computer> = Vec::new();
        let mut available: Vec<usize> = Vec::new();
        let mut h: usize = 0;
        while h < COMPUTER_COUNT
            invariant
                h <= COMPUTER_COUNT,
                computers@.len() == h,
                available@.len() == h,
                forall|k: int| 0 <= k < h ==> computers@[k] == Computer::at_grid(k),
                forall|k: int| 0 <= k < h ==> available@[k] == k,
            decreases COMPUTER_COUNT - h,
        {
            computers.push(Computer::grid(h));
            available.push(h);
            h = h + 1;
        }
        self.computers = computers;
        self.available_computers = available;
        self.employees = Vec::new();
        self.selected_employee = None;
        self.money = STARTING_MONEY;
        self.door_state = DoorState::Open;
        self.window_open = false;
        self.game_state = GameState::Running;
        proof {
            assert(self@.computers =~= OfficeModel::initial().computers);
            assert(self@.available =~= OfficeModel::initial().available);
            assert(self@.employees =~= OfficeModel::initial().employees);
        }
    }

    /// Gives the free workstation at place `spot_index` of the free list to a
    /// new employee of the given traits. Returns whether that was done; where it
    /// cannot be done the office stays as it is.
    pub fn add_employee_with(&mut self, spot_index: usize, traits: EmployeeTraits) -> (done: bool)
        requires
            old(self)@.wf(),
        ensures
            done == old(self)@.can_seat(spot_index as int, traits),
            final(self)@ == old(self)@.with_employee(spot_index as int, traits),
            final(self)@.wf(),
    {
        if spot_index < self.available_computers.len() && traits.is_valid() {
            let ghost before = self@;
            let ghost staff = self.employees@;
            let handle: usize = self.available_computers.remove(spot_index);
            let employee: Employee = Employee::with_traits(handle, traits);
            self.employees.push(employee);
            proof {
                before.available.remove_ensures(spot_index as int);
                assert(self.employees@ == staff.push(employee));
                assert(self@.employees =~= before.employees.push(employee@));
                let after = before.with_employee(spot_index as int, traits);
                assert(self@ == after);
                let n = before.employees.len() as int;
                assert forall|j: int, k: int| 0 <= j < k < after.employees.len() implies (
                #[trigger] after.employees[j]).computer != (#[trigger] after.employees[k]).computer by {
                    if k == n {
                        assert(after.employees[j] == before.employees[j]);
                        assert(before.available[spot_index as int] != before.employees[j].computer);
                    } else {
                        assert(after.employees[j] == before.employees[j]);
                        assert(after.employees[k] == before.employees[k]);
                    }
                }
                assert forall|i: int, j: int|
                    0 <= i < after.available.len() && 0 <= j < after.employees.len() implies (
                #[trigger] after.available[i]) != (#[trigger] after.employees[j]).computer by {
                    let i0 = if i < spot_index {
                        i
                    } else {
                        i + 1
                    };
                    assert(after.available[i] == before.available[i0]);
                    if j == n {
                        assert(before.available[i0] != before.available[spot_index as int]);
                    } else {
                        assert(after.employees[j] == before.employees[j]);
                        assert(before.available[i0] != before.employees[j].computer);
                    }
                }
                assert forall|i: int, k: int|
                    0 <= i < after.available.len() && 0 <= k < after.available.len() && i
                        != k implies after.available[i] != after.available[k] by {
                    let i0 = if i < spot_index {
                        i
                    } else {
                        i + 1
                    };
                    let k0 = if k < spot_index {
                        k
                    } else {
                        k + 1
                    };
                    assert(after.available[i] == before.available[i0]);
                    assert(after.available[k] == before.available[k0]);
                }
                assert forall|j: int| 0 <= j < after.employees.len() implies (
                #[trigger] after.employees[j]).wf() && after.employees[j].computer
                    < COMPUTER_COUNT by {
                    if j < n {
                        assert(after.employees[j] == before.employees[j]);
                    }
                }
                assert forall|i: int| 0 <= i < after.available.len() implies (
                #[trigger] after.available[i]) < COMPUTER_COUNT by {
                    let i0 = if i < spot_index {
                        i
                    } else {
                        i + 1
                    };
                    assert(after.available[i] == before.available[i0]);
                }
                if before.selected is Some {
                    let h = before.selected.unwrap();
                    let j = choose|j: int|
                        0 <= j < before.employees.len() && (#[trigger] before.employees[j]).computer
                            == h;
                    assert(after.employees[j] == before.employees[j]);
                }
            }
            true
        } else {
            false
        }
    }

    /// Hires an employee: gives a free workstation, drawn at random, to a new
    /// employee with traits drawn at random. Returns whether a workstation was
    /// free; where none is the office stays as it is.
    pub fn add_employee(&mut self) -> (done: bool)
        requires
            old(self)@.wf(),
        ensures
            done == (old(self)@.available.len() > 0),
            !done ==> final(self)@ == old(self)@,
            done ==> exists|spot_index: int, traits: EmployeeTraits|
                old(self)@.can_seat(spot_index, traits) && traits.starting() && final(self)@
                    == #[trigger] old(self)@.with_employee(spot_index, traits),
            final(self)@.wf(),
    {
        let free: usize = self.available_computers.len();
        if free > 0 {
            let spot_index: usize = draw_index(free).unwrap();
            let traits: EmployeeTraits = EmployeeTraits::random();
            self.add_employee_with(spot_index, traits)
        } else {
            false
        }
    }

    /// The handles of the free workstations.
    pub fn get_available(&self) -> (r: &Vec<usize>)
        ensures
            r@ == self@.available,
    {
        &self.available_computers
    }

    /// How many workstations are free.
    pub fn available_count(&self) -> (n: usize)
        ensures
            n == self@.available.len(),
    {
        self.available_computers.len()
    }

    pub fn employees_count(&self) -> (n: usize)
        ensures
            n == self@.employees.len(),
    {
        self.employees.len()
    }

    pub fn window_is_open(&self) -> (r: bool)
        ensures
            r == self@.window_open,
    {
        self.window_open
    }

    pub fn get_door_state(&self) -> (r: &DoorState)
        ensures
            *r == self@.door_state,
    {
        &self.door_state
    }

    /// The money in the till, in hundredths of a unit.
    pub fn get_money(&self) -> (r: i64)
        ensures
            r == self@.money,
    {
        self.money
    }

    /// Puts `money` in the till, in hundredths of a unit.
    pub fn set_money(&mut self, money: i64)
        ensures
            final(self)@ == (OfficeModel { money: money as int, ..old(self)@ }),
    {
        self.money = money;
    }

    pub fn get_game_state(&self) -> (r: GameState)
        ensures
            r == self@.game_state,
    {
        self.game_state
    }

    /// Whether the game is lost.
    pub fn is_game_over(&self) -> (r: bool)
        ensures
            r == (self@.game_state is GameOver),
    {
        self.game_state == GameState::GameOver
    }

    /// Works the door: an open door shuts, a closed door opens.
    pub fn update_door(&mut self)
        ensures
            final(self)@ == old(self)@.with_door_toggled(),
    {
        match self.door_state {
            DoorState::Open => {
                self.door_state = DoorState::Closed;
            },
            DoorState::Closed => {
                self.door_state = DoorState::Open;
            },
            DoorState::Broken => {},
        }
    }

    /// Opens the window if it is shut, and shuts it if it is open.
    pub fn update_window(&mut self)
        ensures
            final(self)@ == (OfficeModel { window_open: !old(self)@.window_open, ..old(self)@ }),
    {
        self.window_open = !self.window_open;
    }

    /// Strikes the employee at place `index` of the list dead. Returns whether
    /// there is such an employee and it was alive; where not, the office stays
    /// as it is.
    pub fn kill_employee_at(&mut self, index: usize) -> (done: bool)
        requires
            old(self)@.wf(),
        ensures
            done == (index < old(self)@.employees.len() && old(self)@.employees[index as int].state
                is Alive),
            final(self)@ == old(self)@.with_kill(index as int),
            final(self)@.wf(),
    {
        if index < self.employees.len() {
            let ghost before = self@;
            let ghost staff = self.employees@;
            let done: bool = self.employees[index].kill();
            proof {
                assert(self.employees@.len() == staff.len());
                assert(forall|j: int|
                    0 <= j < staff.len() && j != index ==> self.employees@[j] == staff[j]);
                assert(self@.employees =~= before.employees.update(
                    index as int,
                    before.employees[index as int].killed(),
                ));
                lemma_update_keeps_wf(
                    before,
                    index as int,
                    before.employees[index as int].killed(),
                );
            }
            done
        } else {
            false
        }
    }

    /// Strikes dead one employee, drawn at random among those who are alive.
    /// Returns whether anybody was alive; where nobody is, the office stays as
    /// it is.
    pub fn kill_random_employee(&mut self) -> (done: bool)
        requires
            old(self)@.wf(),
        ensures
            done == old(self)@.any_alive(),
            !done ==> final(self)@ == old(self)@,
            done ==> exists|index: int|
                0 <= index < old(self)@.employees.len() && old(self)@.employees[index].state
                    is Alive && final(self)@ == #[trigger] old(self)@.with_kill(index),
            final(self)@.wf(),
    {
        let mut alive: Vec<usize> = Vec::new();
        let n: usize = self.employees.len();
        let mut j: usize = 0;
        while j < n
            invariant
                j <= n,
                n == self.employees@.len(),
                n <= COMPUTER_COUNT,
                alive@.len() <= j,
                forall|k: int|
                    0 <= k < alive@.len() ==> (#[trigger] alive@[k]) < n && self@.employees[alive@[k] as int].state
                        is Alive,
                alive@.len() == 0 ==> forall|k: int|
                    0 <= k < j ==> !((#[trigger] self@.employees[k]).state is Alive),
            decreases n - j,
        {
            if self.employees[j].get_state() == EmployeeState::Alive {
                alive.push(j);
            }
            j = j + 1;
        }
        if alive.len() > 0 {
            let pick: usize = draw_index(alive.len()).unwrap();
            let index: usize = alive[pick];
            let done: bool = self.kill_employee_at(index);
            proof {
                assert(old(self)@.employees[index as int].state is Alive);
            }
            done
        } else {
            false
        }
    }

    /// The place on the list of the selected employee.
    fn selected_index(&self) -> (r: Option<usize>)
        requires
            self@.wf(),
        ensures
            r is Some <==> self@.selected is Some,
            r matches Some(j) ==> j < self@.employees.len() && j == self@.holder(
                self@.selected.unwrap(),
            ) && self@.employees[j as int].computer == self@.selected.unwrap(),
    {
        match self.selected_employee {
            Some(h) => {
                let n: usize = self.employees.len();
                let mut j: usize = 0;
                while j < n
                    invariant
                        j <= n,
                        n == self.employees@.len(),
                        self@.wf(),
                        self@.selected == Some(h),
                        forall|k: int| 0 <= k < j ==> (#[trigger] self@.employees[k]).computer != h,
                    decreases n - j,
                {
                    if self.employees[j].get_computer() == h {
                        proof {
                            lemma_holder_unique(self@, j as int);
                        }
                        return Some(j);
                    }
                    j = j + 1;
                }
                proof {
                    let w = self@.holder(h);
                    assert(self@.employees[w].computer == h);
                }
                None
            },
            None => None,
        }
    }

    /// The selected employee, if one is selected.
    pub fn get_selected_employee(&self) -> (r: Option<&Employee>)
        requires
            self@.wf(),
        ensures
            r is Some <==> self@.selected is Some,
            r matches Some(e) ==> e@ == self@.employees[self@.holder(self@.selected.unwrap())]
                && e@.computer == self@.selected.unwrap(),
    {
        match self.selected_index() {
            Some(j) => Some(&self.employees[j]),
            None => None,
        }
    }

    /// Selects the employee nearest to `mouse_pos` among those that a click
    /// there reaches, the last on the list among equally near ones. Returns
    /// whether the click reached somebody; where not, the office stays as it
    /// is, and whoever was selected stays selected.
    pub fn click(&mut self, mouse_pos: Position) -> (done: bool)
        requires
            old(self)@.wf(),
        ensures
            final(self)@ == old(self)@.after_click(mouse_pos),
            done == old(self)@.picked(mouse_pos) is Some,
            final(self)@.wf(),
    {
        let n: usize = self.employees.len();
        let mut best: Option<usize> = None;
        let mut best_gap: i64 = 0;
        let mut j: usize = 0;
        while j < n
            invariant
                j <= n,
                n == self.employees@.len(),
                self@ == old(self)@,
                best matches Some(b) ==> b < j && picks(self@.employees.take(j as int), mouse_pos, b as int)
                    && best_gap == gap(self@.employees[b as int], mouse_pos),
                best is None ==> forall|k: int|
                    0 <= k < j ==> !in_reach(#[trigger] self@.employees[k], mouse_pos),
            decreases n - j,
        {
            let ghost staff = self@.employees;
            let p: Position = self.employees[j].get_pos();
            proof {
                assert(distance_squared(p, mouse_pos) == gap(staff[j as int], mouse_pos));
                assert(within_reach(p, mouse_pos) == in_reach(staff[j as int], mouse_pos));
            }
            proof {
                lemma_pick_step(
                    staff,
                    mouse_pos,
                    j as int,
                    match best {
                        Some(b) => Some(b as int),
                        None => None,
                    },
                );
            }
            match reach(p, mouse_pos) {
                Some(d) => {
                    let better: bool = match best {
                        Some(_) => d <= best_gap,
                        None => true,
                    };
                    if better {
                        best = Some(j);
                        best_gap = d;
                    }
                },
                None => {},
            }
            j = j + 1;
        }
        proof {
            let staff = self@.employees;
            assert(staff.take(n as int) =~= staff);
            match best {
                Some(b) => {
                    let w = choose|w: int| picks(staff, mouse_pos, w);
                    lemma_pick_unique(staff, mouse_pos, w, b as int);
                },
                None => {
                    assert forall|w: int| !picks(staff, mouse_pos, w) by {
                        if 0 <= w < staff.len() {
                            assert(!in_reach(staff[w], mouse_pos));
                        }
                    }
                },
            }
        }
        match best {
            Some(b) => {
                self.selected_employee = Some(self.employees[b].get_computer());
                true
            },
            None => false,
        }
    }

    /// Asks the selected employee to take up `action`, or to drop it if already
    /// at it. Returns whether an employee is selected and alive; where not, the
    /// office stays as it is.
    pub fn set_selected_action(&mut self, action: EmployeeAction) -> (done: bool)
        requires
            old(self)@.wf(),
        ensures
            done == (old(self)@.selected is Some && old(self)@.employees[old(self)@.holder(
                old(self)@.selected.unwrap(),
            )].state is Alive),
            final(self)@ == old(self)@.with_selected_toggled(action),
            final(self)@.wf(),
    {
        match self.selected_index() {
            Some(j) => {
                let ghost before = self@;
                let ghost staff = self.employees@;
                let done: bool = self.employees[j].set_action(action);
                proof {
                    assert(forall|k: int|
                        0 <= k < staff.len() && k != j ==> self.employees@[k] == staff[k]);
                    assert(self@.employees =~= before.employees.update(
                        j as int,
                        before.employees[j as int].toggled(action),
                    ));
                    lemma_update_keeps_wf(before, j as int, before.employees[j as int].toggled(action));
                }
                done
            },
            None => false,
        }
    }

    /// Cleans the selected employee away if it is dead, so that the next tick
    /// removes it. Returns whether an employee is selected and dead; where not,
    /// the office stays as it is.
    pub fn clean_selected(&mut self) -> (done: bool)
        requires
            old(self)@.wf(),
        ensures
            done == (old(self)@.selected is Some && old(self)@.employees[old(self)@.holder(
                old(self)@.selected.unwrap(),
            )].state is Dead),
            final(self)@ == old(self)@.with_selected_cleaned(),
            final(self)@.wf(),
    {
        match self.selected_index() {
            Some(j) => {
                let ghost before = self@;
                let ghost staff = self.employees@;
                let done: bool = self.employees[j].clean();
                proof {
                    assert(forall|k: int|
                        0 <= k < staff.len() && k != j ==> self.employees@[k] == staff[k]);
                    assert(self@.employees =~= before.employees.update(
                        j as int,
                        before.employees[j as int].cleaned(),
                    ));
                    lemma_update_keeps_wf(before, j as int, before.employees[j as int].cleaned());
                }
                done
            },
            None => false,
        }
    }

    /// The employees, in the order in which they were hired.
    pub fn iter_employees(&self) -> (r: &Vec<Employee>)
        ensures
            models(r@) == self@.employees,
    {
        &self.employees
    }

    /// Every workstation, the free ones first, then the one of each employee
    /// in the order of the list.
    pub fn iter_computers(&self) -> (r: Vec<Computer>)
        requires
            self@.wf(),
        ensures
            r@ == self@.all_computers(),
    {
        let mut r: Vec<Computer> = Vec::new();
        let free: usize = self.available_computers.len();
        let mut i: usize = 0;
        while i < free
            invariant
                i <= free,
                free == self@.available.len(),
                self@.wf(),
                r@.len() == i,
                forall|k: int| 0 <= k < i ==> r@[k] == self@.all_computers()[k],
            decreases free - i,
        {
            r.push(self.computers[self.available_computers[i]]);
            i = i + 1;
        }
        let n: usize = self.employees.len();
        let mut j: usize = 0;
        while j < n
            invariant
                j <= n,
                n == self@.employees.len(),
                free == self@.available.len(),
                self@.wf(),
                r@.len() == free + j,
                forall|k: int| 0 <= k < free + j ==> r@[k] == self@.all_computers()[k],
            decreases n - j,
        {
            let handle: usize = self.employees[j].get_computer();
            assert(self@.employees[j as int].computer < COMPUTER_COUNT);
            r.push(self.computers[handle]);
            j = j + 1;
        }
        r
    }

    /// Tells whether an employee stands beyond the line at which the window
    /// opens.
    fn someone_at_window(&self) -> (r: bool)
        ensures
            r == self@.window_held_open(),
    {
        let n: usize = self.employees.len();
        let mut j: usize = 0;
        while j < n
            invariant
                j <= n,
                n == self.employees@.len(),
                forall|k: int| 0 <= k < j ==> (#[trigger] self@.employees[k]).x <= OPEN_WINDOW_X,
            decreases n - j,
        {
            if self.employees[j].get_pos().x > OPEN_WINDOW_X {
                assert(self@.employees[j as int].x > OPEN_WINDOW_X);
                return true;
            }
            j = j + 1;
        }
        false
    }

    /// Tells whether some employee holds the workstation `handle`.
    fn is_held(&self, handle: usize) -> (r: bool)
        ensures
            r == held(self@.employees, handle),
    {
        let n: usize = self.employees.len();
        let mut j: usize = 0;
        while j < n
            invariant
                j <= n,
                n == self.employees@.len(),
                forall|k: int| 0 <= k < j ==> (#[trigger] self@.employees[k]).computer != handle,
            decreases n - j,
        {
            if self.employees[j].get_computer() == handle {
                assert(self@.employees[j as int].computer == handle);
                return true;
            }
            j = j + 1;
        }
        false
    }

    /// Tells whether every employee on the list is dead.
    fn everyone_dead(&self) -> (r: bool)
        ensures
            r == all_dead(self@.employees),
    {
        let n: usize = self.employees.len();
        let mut j: usize = 0;
        while j < n
            invariant
                j <= n,
                n == self.employees@.len(),
                forall|k: int| 0 <= k < j ==> (#[trigger] self@.employees[k]).state is Dead,
            decreases n - j,
        {
            if self.employees[j].get_state() != EmployeeState::Dead {
                assert(!(self@.employees[j as int].state is Dead));
                return false;
            }
            j = j + 1;
        }
        true
    }

    /// Ticks every employee with its own workstation, and returns what they
    /// earned together.
    fn tick_employees(&mut self) -> (generated: i64)
        requires
            old(self)@.wf(),
        ensures
            final(self)@ == (OfficeModel {
                computers: old(self)@.computers_after_tick(),
                employees: old(self)@.all_ticked(),
                ..old(self)@
            }),
            generated == old(self)@.earned(old(self)@.employees.len() as int),
    {
        let ghost before = self@;
        let n: usize = self.employees.len();
        let door_state: DoorState = self.door_state;
        let mut generated: i64 = 0;
        let mut j: usize = 0;
        while j < n
            invariant
                j <= n,
                n == self.employees@.len(),
                n == before.employees.len(),
                n <= COMPUTER_COUNT,
                before.wf(),
                before == old(self)@,
                door_state == before.door_state,
                self.computers@.len() == COMPUTER_COUNT,
                forall|k: int| 0 <= k < j ==> (#[trigger] self.employees@[k])@ == before.ticked(k),
                forall|k: int|
                    j <= k < n ==> (#[trigger] self.employees@[k])@ == before.employees[k],
                forall|h: int|
                    0 <= h < COMPUTER_COUNT ==> #[trigger] self.computers@[h]
                        == before.computers[h].wrecked_if(before.wrecked_by(h, j as int)),
                generated == before.earned(j as int),
                0 <= generated <= j * EARNINGS,
                self@.available == before.available,
                self@.selected == before.selected,
                self@.money == before.money,
                self@.door_state == before.door_state,
                self@.window_open == before.window_open,
                self@.game_state == before.game_state,
            decreases n - j,
        {
            let handle: usize = self.employees[j].get_computer();
            proof {
                assert(self.employees@[j as int]@ == before.employees[j as int]);
                lemma_ticked_employee(before, j as int);
                assert(!before.wrecked_by(handle as int, j as int)) by {
                    if before.wrecked_by(handle as int, j as int) {
                        let k = choose|k: int|
                            0 <= k < j && k < before.employees.len() && (
                            #[trigger] before.employees[k]).computer == handle;
                        assert(before.employees[k].computer != before.employees[j as int].computer);
                    }
                }
                assert(self.computers@[handle as int] == before.computers[handle as int]);
            }
            let ghost staff = self.employees@;
            let ghost machines = self.computers@;
            let money: i64 = self.employees[j].tick(door_state, &mut self.computers[handle]);
            generated = generated + money;
            proof {
                assert(forall|k: int| 0 <= k < n && k != j ==> self.employees@[k] == staff[k]);
                assert(forall|h: int|
                    0 <= h < COMPUTER_COUNT && h != handle ==> self.computers@[h] == machines[h]);
                assert forall|h: int| 0 <= h < COMPUTER_COUNT implies #[trigger] self.computers@[h]
                    == before.computers[h].wrecked_if(before.wrecked_by(h, j as int + 1)) by {
                    let e = before.employees[j as int];
                    let wrecks_now = e.computer == h && !(e.state is Clean) && e.decayed().wrecks();
                    if before.wrecked_by(h, j as int + 1) {
                        let k = choose|k: int|
                            0 <= k < j + 1 && k < before.employees.len() && (
                            #[trigger] before.employees[k]).computer == h && !(
                            before.employees[k].state is Clean)
                                && before.employees[k].decayed().wrecks();
                        if k < j {
                            assert(before.wrecked_by(h, j as int));
                        }
                    }
                    if before.wrecked_by(h, j as int) {
                        let k = choose|k: int|
                            0 <= k < j && k < before.employees.len() && (
                            #[trigger] before.employees[k]).computer == h && !(
                            before.employees[k].state is Clean)
                                && before.employees[k].decayed().wrecks();
                        assert(before.wrecked_by(h, j as int + 1));
                    }
                    if wrecks_now {
                        assert(before.wrecked_by(h, j as int + 1));
                    }
                }
            }
            j = j + 1;
        }
        proof {
            assert(self@.employees =~= before.all_ticked());
            assert(self@.computers =~= before.computers_after_tick());
        }
        generated
    }

    /// Takes the employees that are ready for removal off the list and frees
    /// their workstations.
    fn sweep(&mut self)
        requires
            partitioned(old(self)@.available, old(self)@.employees),
        ensures
            final(self)@ == (OfficeModel {
                available: old(self)@.available + released(old(self)@.employees),
                employees: survivors(old(self)@.employees),
                ..old(self)@
            }),
    {
        let ghost before = self@;
        let ghost staff = before.employees;
        let ghost mut i: int = 0;
        let mut at: usize = 0;
        proof {
            assert(staff.take(0) =~= Seq::empty());
            assert(survivors(staff.take(0)) + staff.skip(0) =~= staff);
            assert(before.available + released(staff.take(0)) =~= before.available);
        }
        while at < self.employees.len()
            invariant
                0 <= i <= staff.len(),
                at == survivors(staff.take(i)).len(),
                self@.employees == survivors(staff.take(i)) + staff.skip(i),
                self@.available == before.available + released(staff.take(i)),
                self@.computers == before.computers,
                self@.selected == before.selected,
                self@.money == before.money,
                self@.door_state == before.door_state,
                self@.window_open == before.window_open,
                self@.game_state == before.game_state,
            decreases staff.len() - i,
        {
            proof {
                lemma_sweep_step(staff, i);
                assert(self@.employees[at as int] == staff[i]);
            }
            let ghost list = self.employees@;
            let ghost current = self@.employees;
            if self.employees[at].get_state() == EmployeeState::Clean {
                let gone: Employee = self.employees.remove(at);
                self.available_computers.push(gone.get_computer());
                proof {
                    list.remove_ensures(at as int);
                    current.remove_ensures(at as int);
                    assert(self@.employees =~= current.remove(at as int));
                    assert(current.remove(at as int) =~= survivors(staff.take(i)) + staff.skip(
                        i + 1,
                    ));
                    assert(self@.available =~= before.available + released(staff.take(i + 1)));
                }
            } else {
                at = at + 1;
                proof {
                    assert(self@.employees =~= survivors(staff.take(i + 1)) + staff.skip(i + 1));
                }
            }
            proof {
                i = i + 1;
            }
        }
        proof {
            assert(staff.skip(i).len() == 0);
            assert(staff.take(i) =~= staff);
            assert(self@.employees =~= survivors(staff));
        }
    }

    /// Advances the office by one tick.
    pub fn tick(&mut self)
        requires
            old(self)@.wf(),
        ensures
            final(self)@ == old(self)@.after_tick(),
            final(self)@.wf(),
            forall|j: int|
                0 <= j < final(self)@.employees.len() ==> (
                #[trigger] final(self)@.employees[j]).needs_in_range(),
            final(self)@.money == saturate(
                old(self)@.money + old(self)@.earned(old(self)@.employees.len() as int),
            ),
            0 <= old(self)@.earned(old(self)@.employees.len() as int),
            old(self)@.earned(old(self)@.employees.len() as int) <= old(self)@.employees.len()
                * EARNINGS,
            final(self)@.game_state == (if all_dead(final(self)@.employees) || final(self)@.money
                < 0 {
                GameState::GameOver
            } else {
                old(self)@.game_state
            }),
    {
        let ghost before = self@;
        proof {
            lemma_tick_keeps_office_wf(before);
            lemma_earned_bounds(before, before.employees.len() as int);
            lemma_ticked_staff(before);
        }
        let window_open: bool = self.someone_at_window();
        let generated: i64 = self.tick_employees();
        self.window_open = window_open;
        self.money = saturating_sum(self.money, generated);
        self.sweep();
        match self.selected_employee {
            Some(handle) => {
                if !self.is_held(handle) {
                    self.selected_employee = None;
                }
            },
            None => {},
        }
        if self.everyone_dead() || self.money < 0 {
            self.game_state = GameState::GameOver;
        }
    }

    /// Lets the money and the needs of an event take effect.
    fn shift(&mut self, effect: &QteEffect)
        requires
            old(self)@.wf(),
        ensures
            final(self)@ == old(self)@.shifted(*effect),
            final(self)@.wf(),
    {
        let ghost before = self@;
        proof {
            lemma_shift_keeps_wf(before, *effect);
        }
        self.money = saturating_sum(self.money, effect.money_delta);
        let n: usize = self.employees.len();
        let mut j: usize = 0;
        while j < n
            invariant
                j <= n,
                n == self.employees@.len(),
                n == before.employees.len(),
                before.wf(),
                forall|k: int|
                    0 <= k < j ==> (#[trigger] self.employees@[k])@ == before.shifted(
                        *effect,
                    ).employees[k],
                forall|k: int|
                    j <= k < n ==> (#[trigger] self.employees@[k])@ == before.employees[k],
                self@.money == before.shifted(*effect).money,
                self@.available == before.available,
                self@.computers == before.computers,
                self@.selected == before.selected,
                self@.door_state == before.door_state,
                self@.window_open == before.window_open,
                self@.game_state == before.game_state,
            decreases n - j,
        {
            let ghost staff = self.employees@;
            proof {
                assert(self.employees@[j as int]@ == before.employees[j as int]);
                assert(before.employees[j as int].wf());
            }
            self.employees[j].shift_needs(
                effect.satisfaction_delta,
                effect.energy_delta,
                effect.satiety_delta,
                effect.hope_delta,
            );
            proof {
                assert(forall|k: int| 0 <= k < n && k != j ==> self.employees@[k] == staff[k]);
            }
            j = j + 1;
        }
        proof {
            assert(self@.employees =~= before.shifted(*effect).employees);
        }
    }

    /// Hires `count` employees, or as many as there are free workstations for.
    pub(crate) fn hire(&mut self, count: i64)
        requires
            old(self)@.wf(),
            count >= 0,
        ensures
            old(self)@.hired(count as int, final(self)@),
    {
        let ghost before = self@;
        let mut done: i64 = 0;
        proof {
            assert(self@.employees.take(before.employees.len() as int) =~= before.employees);
        }
        while done < count && self.available_computers.len() > 0
            invariant
                0 <= done <= count,
                before.wf(),
                self@.wf(),
                self@.employees.len() == before.employees.len() + done,
                self@.available.len() == before.available.len() - done,
                self@.employees.take(before.employees.len() as int) == before.employees,
                forall|j: int|
                    before.employees.len() <= j < self@.employees.len() ==> (
                    #[trigger] self@.employees[j]).newcomer(),
                forall|i: int|
                    0 <= i < self@.available.len() ==> before.available.contains(
                        #[trigger] self@.available[i],
                    ),
                self@.computers == before.computers,
                self@.selected == before.selected,
                self@.money == before.money,
                self@.door_state == before.door_state,
                self@.window_open == before.window_open,
                self@.game_state == before.game_state,
            decreases count - done,
        {
            let ghost current = self@;
            let hired: bool = self.add_employee();
            proof {
                let (spot_index, traits): (int, EmployeeTraits) = choose|
                    spot_index: int,
                    traits: EmployeeTraits,
                |
                    current.can_seat(spot_index, traits) && traits.starting() && self@
                        == #[trigger] current.with_employee(spot_index, traits);
                current.available.remove_ensures(spot_index);
                let newcomer = EmployeeModel::fresh(current.available[spot_index], traits);
                assert(self@.employees == current.employees.push(newcomer));
                assert(newcomer.newcomer()) by {
                    assert(0 <= traits.name_index < crate::employee::NAME_COUNT && newcomer.name
                        == crate::employee::name_at(traits.name_index as int));
                }
                assert(self@.employees.take(before.employees.len() as int) =~= current.employees.take(
                    before.employees.len() as int,
                ));
                assert forall|j: int|
                    before.employees.len() <= j < self@.employees.len() implies (
                #[trigger] self@.employees[j]).newcomer() by {
                    if j < current.employees.len() {
                        assert(self@.employees[j] == current.employees[j]);
                    }
                }
                assert forall|i: int| 0 <= i < self@.available.len() implies before.available.contains(
                    #[trigger] self@.available[i],
                ) by {
                    let i0 = if i < spot_index {
                        i
                    } else {
                        i + 1
                    };
                    assert(self@.available[i] == current.available[i0]);
                }
            }
            done = done + 1;
        }
    }

    /// Strikes dead as many employees as `count` is below zero, each drawn at
    /// random among those who are alive, or all of them where they are fewer.
    fn cull(&mut self, count: i64)
        requires
            old(self)@.wf(),
            count < 0,
        ensures
            old(self)@.culled(-count, final(self)@),
    {
        let ghost before = self@;
        let mut left: i64 = count;
        let mut more: bool = true;
        proof {
            lemma_nobody_alive(before.employees);
        }
        while left < 0 && more
            invariant
                count <= left <= 0,
                before.wf(),
                self@.wf(),
                self@.employees.len() == before.employees.len(),
                forall|j: int|
                    0 <= j < before.employees.len() ==> (#[trigger] self@.employees[j])
                        == before.employees[j] || self@.employees[j]
                        == before.employees[j].killed(),
                alive_count(self@.employees) == alive_count(before.employees) - (left - count),
                alive_count(self@.employees) >= 0,
                !more ==> alive_count(self@.employees) == 0,
                self@.available == before.available,
                self@.computers == before.computers,
                self@.selected == before.selected,
                self@.money == before.money,
                self@.door_state == before.door_state,
                self@.window_open == before.window_open,
                self@.game_state == before.game_state,
            decreases
                    (0 - left) + if more {
                        1int
                    } else {
                        0int
                    },
        {
            let ghost current = self@;
            more = self.kill_random_employee();
            proof {
                lemma_nobody_alive(current.employees);
                if more {
                    let index = choose|index: int|
                        0 <= index < current.employees.len() && current.employees[index].state
                            is Alive && self@ == #[trigger] current.with_kill(index);
                    lemma_kill_counts(current.employees, index);
                    assert forall|j: int| 0 <= j < before.employees.len() implies (
                    #[trigger] self@.employees[j]) == before.employees[j] || self@.employees[j]
                        == before.employees[j].killed() by {
                        if j != index {
                            assert(self@.employees[j] == current.employees[j]);
                        } else {
                            assert(current.employees[j] == before.employees[j]);
                        }
                    }
                } else {
                    assert(!current.any_alive());
                }
                lemma_nobody_alive(self@.employees);
            }
            if more {
                left = left + 1;
            }
        }
    }

    /// Lets an event take hold of the office: its money goes to the till, the
    /// needs of every employee who is not dead shift and are clamped, and as many
    /// employees as it asks for are hired, or struck dead.
    pub fn apply_qte_effect(&mut self, effect: &QteEffect)
        requires
            old(self)@.wf(),
        ensures
            old(self)@.effect_applied(*effect, final(self)@),
            final(self)@.wf(),
            final(self)@.money == saturate(old(self)@.money + effect.money_delta),
            final(self)@.door_state == old(self)@.door_state,
            final(self)@.window_open == old(self)@.window_open,
            final(self)@.game_state == old(self)@.game_state,
            final(self)@.selected == old(self)@.selected,
            final(self)@.computers == old(self)@.computers,
    {
        self.shift(effect);
        if effect.employee_delta > 0 {
            self.hire(effect.employee_delta);
        } else if effect.employee_delta < 0 {
            self.cull(effect.employee_delta);
        }
    }

    /// Pays `cost` from the till and lets `effect` take hold of the office, if
    /// the till holds that much. Returns whether it did; where not, the office
    /// stays as it is.
    pub fn spend_and_apply(&mut self, cost: i64, effect: &QteEffect) -> (done: bool)
        requires
            old(self)@.wf(),
        ensures
            done == (old(self)@.money >= cost),
            !done ==> final(self)@ == old(self)@,
            done ==> old(self)@.paid(cost as int).effect_applied(*effect, final(self)@),
            final(self)@.wf(),
    {
        if self.money >= cost {
            self.money = saturating_difference(self.money, cost);
            self.apply_qte_effect(effect);
            true
        } else {
            false
        }
    }

    /// Buys a boost for every employee, if the till holds its price: more
    /// satisfaction, energy and satiety, and less hope, for everyone who is not
    /// dead. Returns whether the till held the price; where not, the office
    /// stays as it is.
    pub fn bonus_meth(&mut self) -> (done: bool)
        requires
            old(self)@.wf(),
        ensures
            done == (old(self)@.money >= BONUS_METH_COST),
            final(self)@ == (if done {
                old(self)@.paid(BONUS_METH_COST as int).shifted(boost())
            } else {
                old(self)@
            }),
            final(self)@.wf(),
    {
        let effect: QteEffect = QteEffect::new(3_000_000, 3_000_000, 3_000_000, -3_000_000, 0, 0);
        self.spend_and_apply(BONUS_METH_COST, &effect)
    }

    /// Pays for a hiring, if the till holds its price, and hires an employee
    /// if a workstation is free. Returns whether the till held the price;
    /// where not, the office stays as it is.
    pub fn bonus_rh(&mut self) -> (done: bool)
        requires
            old(self)@.wf(),
        ensures
            done == (old(self)@.money >= BONUS_RH_COST),
            !done ==> final(self)@ == old(self)@,
            done ==> old(self)@.paid(BONUS_RH_COST as int).hired(1, final(self)@),
            final(self)@.wf(),
    {
        if self.money >= BONUS_RH_COST {
            self.money = saturating_difference(self.money, BONUS_RH_COST);
            self.hire(1);
            true
        } else {
            false
        }
    }
}

} // verus!
