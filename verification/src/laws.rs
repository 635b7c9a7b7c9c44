//! What holds of the simulation whatever happens in it.
use vstd::prelude::*;
use vstd::set_lib::{lemma_int_range, lemma_subset_equality, set_int_range};
use crate::computer::Computer;
use crate::employee::{lemma_tick_keeps_wf, DoorState, EmployeeModel, EARNINGS};
use crate::fixed::{saturate, NEED_MAX};
use crate::game::GameModel;
use crate::geometry::COMPUTER_COUNT;
use crate::qte::QteEffect;
use crate::office::{
    all_dead, held, lemma_earned_bounds, lemma_tick_keeps_office_wf, lemma_ticked_employee,
    released, survivors, OfficeModel,
};
use crate::scheduler::{is_period, SchedulerModel};

verus! {

/// After a tick each need of an employee lies in `[0, NEED_MAX]`.
pub proof fn law_needs_in_range_after_tick(
    e: EmployeeModel,
    door_state: DoorState,
    computer: Computer,
)
    requires
        e.wf(),
        computer.reachable(),
    ensures
        e.after_tick(door_state, computer).needs_in_range(),
{
    lemma_tick_keeps_wf(e, door_state, computer);
}

/// After a tick of the office each need of each employee lies in
/// `[0, NEED_MAX]`.
pub proof fn law_office_needs_in_range_after_tick(office: OfficeModel)
    requires
        office.wf(),
    ensures
        forall|j: int|
            0 <= j < office.after_tick().employees.len() ==> (
            #[trigger] office.after_tick().employees[j]).needs_in_range(),
{
    lemma_tick_keeps_office_wf(office);
}

/// No two employees hold the same workstation, no workstation is free twice,
/// and none is both free and held.
pub proof fn law_workstations_exclusive(office: OfficeModel)
    requires
        office.wf(),
    ensures
        forall|j: int, k: int|
            0 <= j < office.employees.len() && 0 <= k < office.employees.len() && j != k ==> (
            #[trigger] office.employees[j]).computer != (#[trigger] office.employees[k]).computer,
        office.available.no_duplicates(),
        forall|h: usize| office.available.contains(h) ==> !held(office.employees, h),
{
    assert forall|j: int, k: int|
        0 <= j < office.employees.len() && 0 <= k < office.employees.len() && j != k implies (
    #[trigger] office.employees[j]).computer != (#[trigger] office.employees[k]).computer by {
        if j < k {
            assert(office.employees[j].computer != office.employees[k].computer);
        } else {
            assert(office.employees[k].computer != office.employees[j].computer);
        }
    }
    assert forall|h: usize| office.available.contains(h) implies !held(office.employees, h) by {
        let i = choose|i: int| 0 <= i < office.available.len() && office.available[i] == h;
        if held(office.employees, h) {
            let j = choose|j: int|
                0 <= j < office.employees.len() && (#[trigger] office.employees[j]).computer == h;
            assert(office.available[i] != office.employees[j].computer);
        }
    }
}

/// Every workstation is either free or held by an employee: the free and the
/// held ones leave none out.
pub proof fn law_workstations_covered(office: OfficeModel, handle: usize)
    requires
        office.wf(),
        handle < COMPUTER_COUNT,
    ensures
        office.available.contains(handle) || held(office.employees, handle),
        office.available.contains(handle) != held(office.employees, handle),
{
    law_workstations_exclusive(office);
    let free = office.available.len() as int;
    let all = Seq::new(
        COMPUTER_COUNT as nat,
        |i: int|
            if i < free {
                office.available[i] as int
            } else {
                office.employees[i - free].computer as int
            },
    );
    assert forall|i: int, k: int| 0 <= i < all.len() && 0 <= k < all.len() && i != k implies all[i]
        != all[k] by {
        if i < free && k < free {
            assert(office.available[i] != office.available[k]);
        } else if i < free {
            assert(office.available[i] != office.employees[k - free].computer);
        } else if k < free {
            assert(office.available[k] != office.employees[i - free].computer);
        } else {
            assert(office.employees[i - free].computer != office.employees[k - free].computer);
        }
    }
    all.unique_seq_to_set();
    lemma_int_range(0, COMPUTER_COUNT as int);
    let range = set_int_range(0, COMPUTER_COUNT as int);
    assert(all.to_set().subset_of(range)) by {
        assert forall|v: int| all.to_set().contains(v) implies range.contains(v) by {
            let i = choose|i: int| 0 <= i < all.len() && all[i] == v;
            if i < free {
                assert(office.available[i] < COMPUTER_COUNT);
            } else {
                assert(office.employees[i - free].computer < COMPUTER_COUNT);
            }
        }
    }
    vstd::set_lib::lemma_len_subset(all.to_set(), range);
    lemma_subset_equality(all.to_set(), range);
    assert(range.contains(handle as int));
    assert(all.to_set().contains(handle as int));
    let i = choose|i: int| 0 <= i < all.len() && all[i] == handle as int;
    if i < free {
        assert(office.available[i] == handle);
    } else {
        assert(office.employees[i - free].computer == handle);
    }
}

/// A tick keeps the workstations partitioned into free and held ones.
pub proof fn law_tick_keeps_partition(office: OfficeModel)
    requires
        office.wf(),
    ensures
        office.after_tick().wf(),
{
    lemma_tick_keeps_office_wf(office);
}

/// The workstation of an employee that a sweep takes off the list is among
/// those that the sweep frees.
proof fn lemma_released_contains(staff: Seq<EmployeeModel>, j: int)
    requires
        0 <= j < staff.len(),
        staff[j].state is Clean,
    ensures
        released(staff).contains(staff[j].computer),
    decreases staff.len(),
{
    if j == staff.len() - 1 {
        let r = released(staff);
        assert(r[r.len() - 1] == staff[j].computer);
    } else {
        lemma_released_contains(staff.drop_last(), j);
        let head = released(staff.drop_last());
        let i = choose|i: int| 0 <= i < head.len() && head[i] == staff[j].computer;
        assert(staff.drop_last()[j] == staff[j]);
        assert(released(staff)[i] == head[i]);
    }
}

/// Once a tick has made an employee ready for removal and taken it off the
/// list, its workstation is free exactly once, and nobody holds it.
pub proof fn law_removed_workstation_free_once(office: OfficeModel, j: int)
    requires
        office.wf(),
        0 <= j < office.employees.len(),
        office.ticked(j).state is Clean,
    ensures
        ({
            let free = office.after_tick().available;
            let handle = office.employees[j].computer;
            &&& exists|i: int|
                0 <= i < free.len() && free[i] == handle && forall|k: int|
                    0 <= k < free.len() && free[k] == handle ==> k == i
            &&& !held(office.after_tick().employees, handle)
        }),
{
    lemma_tick_keeps_office_wf(office);
    lemma_ticked_employee(office, j);
    let staff = office.all_ticked();
    assert(staff[j] == office.ticked(j));
    lemma_released_contains(staff, j);
    let handle = office.employees[j].computer;
    let gone = released(staff);
    let at = choose|i: int| 0 <= i < gone.len() && gone[i] == handle;
    let free = office.after_tick().available;
    let i = office.available.len() + at;
    assert(free[i] == handle);
    assert forall|k: int| 0 <= k < free.len() && free[k] == handle implies k == i by {
        if k != i {
            assert(free[k] != free[i]);
        }
    }
    law_workstations_exclusive(office.after_tick());
    assert(free.contains(handle));
}

/// After a tick the till holds what it held before and what the employees
/// earned in the tick, as far as an `i64` can hold it; and no employee earns
/// less than nothing or more than [`EARNINGS`], so that the till does not
/// shrink in a tick, nor grow by more than [`EARNINGS`] for each employee.
pub proof fn law_tick_money(office: OfficeModel)
    requires
        office.wf(),
    ensures
        office.after_tick().money == saturate(
            office.money + office.earned(office.employees.len() as int),
        ),
        0 <= office.earned(office.employees.len() as int) <= office.employees.len() * EARNINGS,
        i64::MIN <= office.money + office.earned(office.employees.len() as int) <= i64::MAX ==> {
            &&& office.after_tick().money == office.money + office.earned(
                office.employees.len() as int,
            )
            &&& office.money <= office.after_tick().money <= office.money
                + office.employees.len() * EARNINGS
        },
{
    lemma_earned_bounds(office, office.employees.len() as int);
}

/// After an event took hold of the office the till holds what it held before
/// and the money of the event, added once and not stopped at nothing, as far
/// as an `i64` can hold it; and the event leaves the door, the window, the
/// state of the game, the selection and the workstations as they were.
pub proof fn law_effect_money(office: OfficeModel, effect: QteEffect, post: OfficeModel)
    requires
        office.effect_applied(effect, post),
    ensures
        post.money == saturate(office.money + effect.money_delta),
        i64::MIN <= office.money + effect.money_delta <= i64::MAX ==> post.money == office.money
            + effect.money_delta,
        post.door_state == office.door_state,
        post.window_open == office.window_open,
        post.game_state == office.game_state,
        post.selected == office.selected,
        post.computers == office.computers,
{
}

/// Once every employee left on the list after a tick is dead, the game is
/// lost; so it is once the till is in the red; and a lost game stays lost.
pub proof fn law_game_over(office: OfficeModel)
    ensures
        all_dead(office.after_tick().employees) ==> office.after_tick().game_state is GameOver,
        office.after_tick().money < 0 ==> office.after_tick().game_state is GameOver,
        office.game_state is GameOver ==> office.after_tick().game_state is GameOver,
{
}

/// An employee who is alive and whose satiety runs out in a tick is dead after
/// it, unless it gives up in the same tick; a dead employee stays dead.
pub proof fn law_starved_is_dead(e: EmployeeModel, door_state: DoorState, computer: Computer)
    requires
        e.wf(),
        computer.reachable(),
    ensures
        e.state is Alive && e.decayed().starves() ==> e.after_tick(door_state, computer).state
            is Dead,
        e.state is Dead ==> e.after_tick(door_state, computer).state is Dead,
{
}

/// Every employee of a list that holds dead employees only stays on it.
proof fn lemma_dead_survive(staff: Seq<EmployeeModel>)
    requires
        all_dead(staff),
    ensures
        survivors(staff) == staff,
    decreases staff.len(),
{
    if staff.len() > 0 {
        assert(staff.last().state is Dead);
        assert(all_dead(staff.drop_last())) by {
            assert forall|j: int| 0 <= j < staff.drop_last().len() implies (
            #[trigger] staff.drop_last()[j]).state is Dead by {
                assert(staff[j].state is Dead);
            }
        }
        lemma_dead_survive(staff.drop_last());
        assert(staff.drop_last().push(staff.last()) =~= staff);
    } else {
        assert(staff =~= Seq::empty());
    }
}

/// Where the satiety of every employee who is alive runs out in a tick, and
/// none of them gives up in it, and the others are dead already, the game is
/// lost after the tick.
pub proof fn law_starved_office_is_game_over(office: OfficeModel)
    requires
        office.wf(),
        forall|j: int|
            0 <= j < office.employees.len() ==> (#[trigger] office.employees[j]).state is Dead || (
            office.employees[j].state is Alive && office.employees[j].decayed().starves()),
    ensures
        office.after_tick().game_state is GameOver,
        all_dead(office.after_tick().employees),
{
    let staff = office.all_ticked();
    assert(all_dead(staff)) by {
        assert forall|j: int| 0 <= j < staff.len() implies (#[trigger] staff[j]).state is Dead by {
            lemma_ticked_employee(office, j);
            law_starved_is_dead(office.employees[j], office.door_state, office.computer_of(j));
        }
    }
    lemma_dead_survive(staff);
}

/// While an employee sleeps, each tick adds to its energy until it is full:
/// what sleep restores outweighs what a tick takes.
pub proof fn law_sleep_restores_energy(e: EmployeeModel, door_state: DoorState, computer: Computer)
    requires
        e.wf(),
        computer.reachable(),
        !(e.state is Clean),
        e.action is Sleep,
    ensures
        e.energy < NEED_MAX ==> e.after_tick(door_state, computer).energy > e.energy,
        e.energy == NEED_MAX ==> e.after_tick(door_state, computer).energy == NEED_MAX,
        e.after_tick(door_state, computer).action is Sleep,
{
}

/// Where the time to answer a question has run out, a tick of the scheduler
/// gives the first answer: its effect takes hold of the office, and its
/// explanation is shown.
pub proof fn law_timeout_gives_first_answer(
    scheduler: SchedulerModel,
    office: OfficeModel,
    now: int,
    pick: usize,
    period: int,
    after: SchedulerModel,
    office_after: OfficeModel,
)
    requires
        scheduler.wf(),
        scheduler.phase() is Active,
        scheduler.timed_out(now),
        scheduler.advanced(office, now, pick, period, after, office_after),
    ensures
        after.phase() is Resolved,
        after.answer == Some(scheduler.current().explication1),
        office.effect_applied(scheduler.current().effect_1, office_after),
        office_after.money == saturate(office.money + scheduler.current().effect_1.money_delta),
        i64::MIN <= office.money + scheduler.current().effect_1.money_delta <= i64::MAX
            ==> office_after.money == office.money + scheduler.current().effect_1.money_delta,
{
}

/// While the time to answer a question has not run out, a tick of the
/// scheduler changes neither the scheduler nor the office: the question stays
/// put, no effect takes hold, and no tick is counted as waiting.
pub proof fn law_question_waits(
    scheduler: SchedulerModel,
    office: OfficeModel,
    now: int,
    pick: usize,
    period: int,
    after: SchedulerModel,
    office_after: OfficeModel,
)
    requires
        scheduler.wf(),
        scheduler.phase() is Active,
        !scheduler.timed_out(now),
        scheduler.advanced(office, now, pick, period, after, office_after),
    ensures
        after == scheduler,
        office_after == office,
        after.waiting == 0,
{
}

/// After a tick of a running game in which the player asks for nothing, the
/// till holds what it held before, what the employees earned in the tick, and
/// the money of the answer that the scheduler gave in it, if it gave one, as
/// far as an `i64` can hold each sum: the office ticks first, the scheduler
/// after it.
pub proof fn law_game_tick_money(game: GameModel, now: u64, post: GameModel)
    requires
        game.wf(),
        game.game_state is Running,
        game.ticked(now, None, post),
    ensures
        post.office.money == if game.scheduler.timed_out(now as int) {
            saturate(
                saturate(game.office.money + game.office.earned(game.office.employees.len() as int))
                    + game.scheduler.current().effect_1.money_delta,
            )
        } else {
            saturate(game.office.money + game.office.earned(game.office.employees.len() as int))
        },
        ({
            let earned = game.office.earned(game.office.employees.len() as int);
            let event = if game.scheduler.timed_out(now as int) {
                game.scheduler.current().effect_1.money_delta as int
            } else {
                0
            };
            i64::MIN <= game.office.money + earned <= i64::MAX && i64::MIN <= game.office.money
                + earned + event <= i64::MAX ==> post.office.money == game.office.money + earned
                + event
        }),
{
    lemma_earned_bounds(game.office, game.office.employees.len() as int);
    let settled = game.settled(now as int);
    let mid = choose|mid: GameModel| #[trigger]
        settled.handled(now, None, mid) && post == mid.concluded();
    let (pick, period, step): (usize, int, GameModel) = choose|
        pick: usize,
        period: int,
        step: GameModel,
    |
        pick < settled.scheduler.qtes.len() && is_period(period) && #[trigger] settled.event_step(
            now,
            pick,
            period,
            step,
        ) && mid == step;
}

} // verus!
