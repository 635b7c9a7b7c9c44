use office_sim::computer::Computer;
use office_sim::employee::{
    DoorState, Employee, EmployeeAction, EmployeeState, EmployeeTraits, EARNINGS,
    EARNINGS_COMPLACENT, STEP_ALIGN, STEP_APPROACH, STEP_DOOR, STEP_ENTER, STEP_EXIT,
    STEP_RETREAT, STEP_WORK,
};
use office_sim::fixed::NEED_MAX;
use office_sim::geometry::Position;

fn plain_traits(need: i64) -> EmployeeTraits {
    EmployeeTraits {
        name_index: 9,
        satisfaction: need,
        hope: need,
        energy: need,
        satiety: need,
        satisfaction_factor: 1_000,
        hope_factor: 1_000,
        energy_factor: 1_000,
        satiety_factor: 1_000,
    }
}

fn tick_n(e: &mut Employee, door: DoorState, c: &mut Computer, n: usize) -> i64 {
    let mut earned = 0;
    for _ in 0..n {
        earned += e.tick(door, c);
    }
    earned
}

#[test]
fn new_employee_starts_at_the_entrance() {
    let e = Employee::with_traits(5, plain_traits(5_000_000));
    assert_eq!(e.get_name(), "Edsger");
    assert_eq!(e.get_pos(), Position { x: 3_000, y: 3_500 });
    assert_eq!(e.get_state(), EmployeeState::Alive);
    assert_eq!(e.get_action(), EmployeeAction::Idle);
    assert_eq!(e.get_movement_step(), STEP_ENTER);
    assert_eq!(e.get_computer(), 5);
    assert_eq!(e.get_rotation(), 0);
}

#[test]
fn random_employee_is_a_newcomer() {
    for _ in 0..200 {
        let e = Employee::new(3);
        assert_eq!(e.get_state(), EmployeeState::Alive);
        assert_eq!(e.get_computer(), 3);
        assert_eq!(e.get_rotation(), 0);
        assert_eq!(e.get_pos(), Position { x: 3_000, y: 3_500 });
        assert_eq!(e.get_movement_step(), STEP_ENTER);
        assert_eq!(e.get_action(), EmployeeAction::Idle);
        for need in [e.get_satisfaction(), e.get_hope(), e.get_energy(), e.get_satiety()] {
            assert!(3_000_000 <= need && need <= 7_000_000);
        }
        assert!(!e.get_name().is_empty());
    }
}

#[test]
fn traits_out_of_range_make_no_employee() {
    let mut t = plain_traits(5_000_000);
    assert!(Employee::from_traits(0, t).is_some());
    t.satiety = NEED_MAX + 1;
    assert!(Employee::from_traits(0, t).is_none());
    let mut t = plain_traits(5_000_000);
    t.hope_factor = 699;
    assert!(Employee::from_traits(0, t).is_none());
    let mut t = plain_traits(5_000_000);
    t.energy_factor = 1_301;
    assert!(Employee::from_traits(0, t).is_none());
    let mut t = plain_traits(5_000_000);
    t.name_index = 16;
    assert!(Employee::from_traits(0, t).is_none());
    let mut t = plain_traits(5_000_000);
    t.satisfaction = -1;
    assert!(!t.is_valid());
}

#[test]
fn one_tick_decays_each_need_by_its_factor() {
    let mut t = plain_traits(5_000_000);
    t.satisfaction_factor = 700;
    t.hope_factor = 1_300;
    t.energy_factor = 1_234;
    let mut e = Employee::with_traits(0, t);
    let mut c = Computer::grid(0);
    let earned = e.tick(DoorState::Open, &mut c);
    assert_eq!(earned, 0);
    assert_eq!(e.get_satisfaction(), 5_000_000 - 700);
    assert_eq!(e.get_hope(), 5_000_000 - 2_600);
    assert_eq!(e.get_energy(), 5_000_000 - 1_234);
    assert_eq!(e.get_satiety(), 5_000_000 - 1_000);
    assert_eq!(e.get_pos(), Position { x: 3_010, y: 3_500 });
}

#[test]
fn an_action_restores_its_need() {
    let cases = [
        (EmployeeAction::Break, 0usize),
        (EmployeeAction::FamilyCall, 1),
        (EmployeeAction::Sleep, 2),
        (EmployeeAction::Eat, 3),
    ];
    for (action, which) in cases {
        let mut e = Employee::with_traits(0, plain_traits(5_000_000));
        let mut c = Computer::grid(0);
        assert!(e.set_action(action));
        let _ = e.tick(DoorState::Open, &mut c);
        let needs = [e.get_satisfaction(), e.get_hope(), e.get_energy(), e.get_satiety()];
        let losses = [1_000, 2_000, 1_000, 1_000];
        for i in 0..4 {
            let gain = if i == which { 10_000 } else { 0 };
            assert_eq!(needs[i], 5_000_000 - losses[i] + gain);
        }
    }
}

#[test]
fn sleeping_raises_energy_until_it_is_full() {
    let mut e = Employee::with_traits(0, plain_traits(5_000_000));
    let mut c = Computer::grid(0);
    assert!(e.set_action(EmployeeAction::Sleep));
    let mut last = e.get_energy();
    let mut full = false;
    for _ in 0..700 {
        let _ = e.tick(DoorState::Open, &mut c);
        let now = e.get_energy();
        if last < NEED_MAX {
            assert!(now > last);
            assert_eq!(now, (last + 9_000).min(NEED_MAX));
        } else {
            assert_eq!(now, NEED_MAX);
            full = true;
        }
        last = now;
    }
    assert!(full);
}

#[test]
fn needs_stay_in_range_whatever_happens() {
    for handle in 0..16 {
        let mut e = Employee::new(handle);
        let mut c = Computer::grid(handle);
        for n in 0..20_000 {
            if n % 3_000 == 0 {
                e.set_action(EmployeeAction::Eat);
            }
            let _ = e.tick(DoorState::Closed, &mut c);
            for need in [e.get_satisfaction(), e.get_hope(), e.get_energy(), e.get_satiety()] {
                assert!(0 <= need && need <= NEED_MAX);
            }
            assert!(e.get_movement_step() <= 8);
        }
    }
}

#[test]
fn employee_walks_to_its_seat_and_earns() {
    let mut e = Employee::with_traits(0, plain_traits(5_000_000));
    let mut c = Computer::grid(0);
    assert_eq!(c.spot, Position { x: 4_500, y: 1_750 });
    assert_eq!(tick_n(&mut e, DoorState::Open, &mut c, 101), 0);
    assert_eq!(e.get_pos(), Position { x: 4_010, y: 3_500 });
    assert_eq!(e.get_movement_step(), STEP_ENTER);
    assert_eq!(tick_n(&mut e, DoorState::Open, &mut c, 1), 0);
    assert_eq!(e.get_pos(), Position { x: 4_000, y: 3_500 });
    assert_eq!(e.get_movement_step(), STEP_ALIGN);
    assert_eq!(tick_n(&mut e, DoorState::Open, &mut c, 175), 0);
    assert_eq!(e.get_pos(), Position { x: 4_000, y: 1_750 });
    assert_eq!(e.get_rotation(), -90);
    assert_eq!(e.get_movement_step(), STEP_ALIGN);
    assert_eq!(tick_n(&mut e, DoorState::Open, &mut c, 1), 0);
    assert_eq!(e.get_movement_step(), STEP_APPROACH);
    assert_eq!(tick_n(&mut e, DoorState::Open, &mut c, 50), 0);
    assert_eq!(e.get_pos(), Position { x: 4_500, y: 1_750 });
    assert_eq!(e.get_rotation(), 0);
    assert_eq!(tick_n(&mut e, DoorState::Open, &mut c, 1), EARNINGS);
    assert_eq!(e.get_movement_step(), STEP_WORK);
    assert_eq!(tick_n(&mut e, DoorState::Open, &mut c, 10), 10 * EARNINGS);
    assert_eq!(e.get_pos(), c.spot);
}

#[test]
fn odd_column_is_approached_from_the_right() {
    let mut e = Employee::with_traits(7, plain_traits(5_000_000));
    let mut c = Computer::grid(7);
    assert_eq!(c.spot, Position { x: 6_500, y: 5_510 });
    assert_eq!(c.position, Position { x: 5_800, y: 5_510 });
    assert_eq!(c.rotation, -90);
    let mut ticks = 0;
    while e.get_movement_step() != STEP_WORK {
        let _ = e.tick(DoorState::Open, &mut c);
        ticks += 1;
        assert!(ticks < 2_000);
    }
    assert_eq!(e.get_pos(), c.spot);
    assert_eq!(e.get_rotation(), 180);
    assert_eq!(ticks, 402 + 202 + 51);
}

#[test]
fn full_satisfaction_earns_less() {
    let mut t = plain_traits(5_000_000);
    t.satisfaction = NEED_MAX;
    let mut e = Employee::with_traits(0, t);
    let mut c = Computer::grid(0);
    assert!(e.set_action(EmployeeAction::Break));
    let earned = tick_n(&mut e, DoorState::Open, &mut c, 329);
    assert!(e.is_happy());
    assert_eq!(e.get_movement_step(), STEP_WORK);
    assert_eq!(earned, EARNINGS_COMPLACENT);
}

#[test]
fn no_satiety_kills() {
    let mut t = plain_traits(5_000_000);
    t.satiety = 1_000;
    let mut e = Employee::with_traits(0, t);
    let mut c = Computer::grid(0);
    let _ = e.tick(DoorState::Open, &mut c);
    assert_eq!(e.get_satiety(), 0);
    assert_eq!(e.get_state(), EmployeeState::Dead);
    let at = e.get_pos();
    let _ = tick_n(&mut e, DoorState::Open, &mut c, 50);
    assert_eq!(e.get_state(), EmployeeState::Dead);
    assert_eq!(e.get_pos(), at);
    assert!(!e.set_action(EmployeeAction::Eat));
    assert!(e.clean());
    assert_eq!(e.get_state(), EmployeeState::Clean);
    assert_eq!(e.tick(DoorState::Open, &mut c), 0);
    assert_eq!(e.get_state(), EmployeeState::Clean);
}

#[test]
fn clean_leaves_the_living_alone() {
    let mut e = Employee::with_traits(0, plain_traits(5_000_000));
    assert!(!e.clean());
    assert_eq!(e.get_state(), EmployeeState::Alive);
    assert!(e.kill());
    assert!(!e.kill());
    assert_eq!(e.get_state(), EmployeeState::Dead);
}

#[test]
fn no_energy_forces_sleep() {
    let mut t = plain_traits(5_000_000);
    t.energy = 500;
    let mut e = Employee::with_traits(0, t);
    let mut c = Computer::grid(0);
    let _ = e.tick(DoorState::Open, &mut c);
    assert_eq!(e.get_energy(), 0);
    assert_eq!(e.get_action(), EmployeeAction::Sleep);
    let _ = e.tick(DoorState::Open, &mut c);
    assert_eq!(e.get_energy(), 9_000);
}

#[test]
fn set_action_toggles() {
    let mut e = Employee::with_traits(0, plain_traits(5_000_000));
    assert!(e.set_action(EmployeeAction::Eat));
    assert_eq!(e.get_action(), EmployeeAction::Eat);
    assert!(e.set_action(EmployeeAction::Sleep));
    assert_eq!(e.get_action(), EmployeeAction::Sleep);
    assert!(e.set_action(EmployeeAction::Sleep));
    assert_eq!(e.get_action(), EmployeeAction::Idle);
}

#[test]
fn no_satisfaction_at_work_wrecks_the_machine_and_sends_away() {
    let mut t = plain_traits(5_000_000);
    t.satisfaction = 330_000;
    let mut e = Employee::with_traits(0, t);
    let mut c = Computer::grid(0);
    let earned = tick_n(&mut e, DoorState::Open, &mut c, 329);
    assert_eq!(earned, EARNINGS);
    assert_eq!(e.get_satisfaction(), 1_000);
    assert!(!c.broken);
    let earned = e.tick(DoorState::Open, &mut c);
    assert!(e.is_mad());
    assert!(c.broken);
    assert_eq!(earned, 0);
    assert_eq!(e.get_movement_step(), STEP_RETREAT);
    assert_eq!(e.get_state(), EmployeeState::Alive);
    assert_eq!(e.get_pos(), Position { x: 4_470, y: 1_750 });
}

#[test]
fn leaver_runs_out_through_an_open_door() {
    let mut t = plain_traits(5_000_000);
    t.satisfaction = 330_000;
    let mut e = Employee::with_traits(0, t);
    let mut c = Computer::grid(0);
    let _ = tick_n(&mut e, DoorState::Open, &mut c, 330);
    let mut ticks = 0;
    while e.get_state() == EmployeeState::Alive {
        let _ = e.tick(DoorState::Open, &mut c);
        ticks += 1;
        assert!(ticks < 1_000);
    }
    assert_eq!(e.get_state(), EmployeeState::Clean);
    assert_eq!(e.get_pos().x, 2_500);
    assert!(e.get_pos().y < 0);
    assert_eq!(e.get_rotation(), -90);
}

#[test]
fn leaver_waits_at_a_closed_door() {
    let mut t = plain_traits(5_000_000);
    t.satisfaction = 330_000;
    let mut e = Employee::with_traits(0, t);
    let mut c = Computer::grid(0);
    let _ = tick_n(&mut e, DoorState::Closed, &mut c, 330);
    let _ = tick_n(&mut e, DoorState::Closed, &mut c, 200);
    assert_eq!(e.get_movement_step(), STEP_DOOR);
    assert_eq!(e.get_pos(), Position { x: 3_700, y: 3_500 });
    let _ = e.tick(DoorState::Open, &mut c);
    assert_eq!(e.get_movement_step(), STEP_EXIT);
}

#[test]
fn leaver_with_some_satisfaction_goes_back_from_a_closed_door() {
    let mut t = plain_traits(5_000_000);
    t.hope = NEED_MAX;
    let mut e = Employee::with_traits(0, t);
    let mut c = Computer::grid(0);
    assert!(e.set_action(EmployeeAction::FamilyCall));
    let _ = tick_n(&mut e, DoorState::Closed, &mut c, 329);
    assert_eq!(e.get_hope(), NEED_MAX);
    assert_eq!(e.get_movement_step(), STEP_WORK);
    let _ = e.tick(DoorState::Closed, &mut c);
    assert_eq!(e.get_movement_step(), STEP_RETREAT);
    assert!(e.set_action(EmployeeAction::FamilyCall));
    let mut seen_door = false;
    for _ in 0..2_000 {
        let _ = e.tick(DoorState::Closed, &mut c);
        if e.get_movement_step() == STEP_DOOR {
            seen_door = true;
        }
        if seen_door && e.get_movement_step() == STEP_ENTER {
            break;
        }
    }
    assert!(seen_door);
    assert_eq!(e.get_movement_step(), STEP_ENTER);
    assert!(e.get_hope() < 9_000_000);
    assert_eq!(e.get_state(), EmployeeState::Alive);
}

#[test]
fn no_hope_at_work_leads_to_the_window() {
    let mut t = plain_traits(5_000_000);
    t.hope = 660_000;
    let mut e = Employee::with_traits(0, t);
    let mut c = Computer::grid(0);
    let _ = tick_n(&mut e, DoorState::Open, &mut c, 329);
    assert_eq!(e.get_state(), EmployeeState::Alive);
    assert_eq!(e.get_hope(), 2_000);
    let earned = e.tick(DoorState::Open, &mut c);
    assert_eq!(earned, 0);
    assert_eq!(e.get_state(), EmployeeState::Suicide);
    assert_eq!(e.get_movement_step(), STEP_ENTER);
    let mut ticks = 0;
    while e.get_state() == EmployeeState::Suicide {
        let _ = e.tick(DoorState::Open, &mut c);
        ticks += 1;
        assert!(ticks < 2_000);
    }
    assert_eq!(e.get_state(), EmployeeState::Falling);
    assert_eq!(e.get_pos(), Position { x: 10_900, y: 3_500 });
    let _ = e.tick(DoorState::Open, &mut c);
    assert_eq!(e.get_pos(), Position { x: 10_921, y: 3_584 });
    let mut ticks = 0;
    while e.get_state() == EmployeeState::Falling {
        let _ = e.tick(DoorState::Open, &mut c);
        ticks += 1;
        assert!(ticks < 100);
    }
    assert_eq!(e.get_state(), EmployeeState::Clean);
    assert!(e.get_pos().y >= 7_700);
    assert!(!c.broken);
}

#[test]
fn shift_needs_moves_the_living_and_spares_the_dead() {
    let mut e = Employee::with_traits(0, plain_traits(5_000_000));
    e.shift_needs(1_000_000, -2_000_000, 6_000_000, -6_000_000);
    assert_eq!(e.get_satisfaction(), 6_000_000);
    assert_eq!(e.get_energy(), 3_000_000);
    assert_eq!(e.get_satiety(), NEED_MAX);
    assert_eq!(e.get_hope(), 0);
    assert!(e.kill());
    e.shift_needs(1_000_000, 1_000_000, -1_000_000, 1_000_000);
    assert_eq!(e.get_satisfaction(), 6_000_000);
    assert_eq!(e.get_energy(), 3_000_000);
    assert_eq!(e.get_satiety(), NEED_MAX);
    assert_eq!(e.get_hope(), 0);
    assert!(e.clean());
    e.shift_needs(1_000_000, 0, 0, 0);
    assert_eq!(e.get_satisfaction(), 7_000_000);
}
