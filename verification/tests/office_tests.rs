use office_sim::employee::{
    DoorState, EmployeeAction, EmployeeState, EmployeeTraits, GameState, STEP_WORK,
};
use office_sim::fixed::{MONEY_SCALE, NEED_MAX};
use office_sim::geometry::{Position, COMPUTER_COUNT};
use office_sim::office::{Office, BONUS_METH_COST, BONUS_RH_COST, STARTING_MONEY};
use office_sim::qte::QteEffect;

fn steady_traits(need: i64) -> EmployeeTraits {
    EmployeeTraits {
        name_index: 0,
        satisfaction: need,
        hope: need,
        energy: need,
        satiety: need,
        satisfaction_factor: 1_000,
        hope_factor: 1_000,
        energy_factor: 1_000,
        satiety_factor: 1_000,
    }
}

fn assert_partition(office: &Office) {
    let mut seen = [0usize; COMPUTER_COUNT];
    for h in office.get_available() {
        assert!(*h < COMPUTER_COUNT);
        seen[*h] += 1;
    }
    for e in office.iter_employees() {
        assert!(e.get_computer() < COMPUTER_COUNT);
        seen[e.get_computer()] += 1;
    }
    for n in seen {
        assert_eq!(n, 1);
    }
    assert_eq!(office.available_count() + office.employees_count(), COMPUTER_COUNT);
    assert_eq!(office.iter_computers().len(), COMPUTER_COUNT);
}

#[test]
fn new_office_has_money_and_no_employee() {
    let office = Office::new();
    assert_eq!(office.get_money(), 100 * MONEY_SCALE);
    assert_eq!(office.get_money(), STARTING_MONEY);
    assert_eq!(office.employees_count(), 0);
    assert_eq!(office.available_count(), COMPUTER_COUNT);
    assert_eq!(*office.get_door_state(), DoorState::Open);
    assert!(!office.window_is_open());
    assert_eq!(office.get_game_state(), GameState::Running);
    assert!(office.get_selected_employee().is_none());
    assert_partition(&office);
}

#[test]
fn office_layout_is_a_grid() {
    let office = Office::new();
    let computers = office.iter_computers();
    assert_eq!(computers[0].spot, Position { x: 4_500, y: 1_750 });
    assert_eq!(computers[0].position, Position { x: 5_100, y: 1_750 });
    assert_eq!(computers[0].rotation, 90);
    assert_eq!(computers[5].spot, Position { x: 6_500, y: 2_650 });
    assert_eq!(computers[5].position, Position { x: 5_800, y: 2_650 });
    assert_eq!(computers[5].rotation, -90);
    assert_eq!(computers[10].spot, Position { x: 7_500, y: 4_720 });
    assert_eq!(computers[10].position, Position { x: 8_150, y: 4_720 });
    assert_eq!(computers[15].spot, Position { x: 9_500, y: 5_510 });
    assert_eq!(computers[15].position, Position { x: 8_700, y: 5_510 });
    for c in computers {
        assert!(!c.broken);
    }
}

#[test]
fn add_employee_takes_one_workstation() {
    let mut office = Office::new();
    assert!(office.add_employee());
    assert_eq!(office.employees_count(), 1);
    assert_eq!(office.available_count(), COMPUTER_COUNT - 1);
    let e = &office.iter_employees()[0];
    assert_eq!(e.get_state(), EmployeeState::Alive);
    for need in [e.get_satisfaction(), e.get_hope(), e.get_energy(), e.get_satiety()] {
        assert!(3 * NEED_MAX / 10 <= need && need <= 7 * NEED_MAX / 10);
    }
    assert!(!office.get_available().contains(&e.get_computer()));
    assert_partition(&office);
}

#[test]
fn add_employee_with_takes_the_chosen_workstation() {
    let mut office = Office::new();
    assert!(office.add_employee_with(4, steady_traits(5_000_000)));
    assert_eq!(office.iter_employees()[0].get_computer(), 4);
    assert_eq!(office.get_available()[4], 5);
    assert!(office.add_employee_with(4, steady_traits(5_000_000)));
    assert_eq!(office.iter_employees()[1].get_computer(), 5);
    assert!(!office.add_employee_with(14, steady_traits(5_000_000)));
    assert!(!office.add_employee_with(0, steady_traits(NEED_MAX + 1)));
    assert_eq!(office.employees_count(), 2);
    assert_partition(&office);
}

#[test]
fn full_office_hires_nobody() {
    let mut office = Office::new();
    for _ in 0..COMPUTER_COUNT {
        assert!(office.add_employee());
    }
    assert!(!office.add_employee());
    assert_eq!(office.employees_count(), COMPUTER_COUNT);
    assert_eq!(office.available_count(), 0);
    assert_partition(&office);
}

#[test]
fn door_and_window_toggle() {
    let mut office = Office::new();
    office.update_door();
    assert_eq!(*office.get_door_state(), DoorState::Closed);
    office.update_door();
    assert_eq!(*office.get_door_state(), DoorState::Open);
    office.update_window();
    assert!(office.window_is_open());
    office.update_window();
    assert!(!office.window_is_open());
}

#[test]
fn tick_overwrites_the_window_toggle() {
    let mut office = Office::new();
    assert!(office.add_employee());
    office.update_window();
    assert!(office.window_is_open());
    office.tick();
    assert!(!office.window_is_open());
}

#[test]
fn effect_moves_money_and_loss_ends_the_game() {
    let mut office = Office::new();
    assert!(office.add_employee());
    office.set_money(500);
    office.apply_qte_effect(&QteEffect::new(0, 0, 0, 0, -1000, 0));
    assert_eq!(office.get_money(), -500);
    assert!(!office.is_game_over());
    office.tick();
    assert_eq!(office.get_game_state(), GameState::GameOver);
    assert!(office.is_game_over());
}

#[test]
fn game_over_is_not_undone_by_ticks() {
    let mut office = Office::new();
    assert!(office.add_employee());
    office.set_money(-1);
    office.tick();
    assert!(office.is_game_over());
    office.set_money(1_000_000);
    for _ in 0..10 {
        office.tick();
        assert!(office.is_game_over());
    }
    office.start();
    assert!(!office.is_game_over());
    assert_eq!(office.employees_count(), 0);
    assert_eq!(office.get_money(), STARTING_MONEY);
}

#[test]
fn empty_office_is_lost_at_the_first_tick() {
    let mut office = Office::new();
    office.tick();
    assert!(office.is_game_over());
}

#[test]
fn money_saturates() {
    let mut office = Office::new();
    office.set_money(i64::MAX - 5);
    office.apply_qte_effect(&QteEffect::new(0, 0, 0, 0, 100, 0));
    assert_eq!(office.get_money(), i64::MAX);
    office.set_money(i64::MIN + 5);
    office.apply_qte_effect(&QteEffect::new(0, 0, 0, 0, -100, 0));
    assert_eq!(office.get_money(), i64::MIN);
}

#[test]
fn effect_shifts_and_clamps_needs_of_the_living() {
    let mut office = Office::new();
    assert!(office.add_employee_with(0, steady_traits(5_000_000)));
    assert!(office.add_employee_with(0, steady_traits(5_000_000)));
    assert!(office.kill_employee_at(1));
    office.apply_qte_effect(&QteEffect::new(3_000_000, -6_000_000, 6_000_000, -1_000_000, 0, 0));
    let e = &office.iter_employees()[0];
    assert_eq!(e.get_satisfaction(), 8_000_000);
    assert_eq!(e.get_energy(), 0);
    assert_eq!(e.get_satiety(), NEED_MAX);
    assert_eq!(e.get_hope(), 4_000_000);
    let d = &office.iter_employees()[1];
    assert_eq!(d.get_state(), EmployeeState::Dead);
    assert_eq!(d.get_satisfaction(), 5_000_000);
    assert_eq!(d.get_energy(), 5_000_000);
    office.apply_qte_effect(&QteEffect::new(i64::MAX, i64::MIN, i64::MAX, i64::MIN, 0, 0));
    let e = &office.iter_employees()[0];
    assert_eq!(e.get_satisfaction(), NEED_MAX);
    assert_eq!(e.get_energy(), 0);
    assert_eq!(e.get_satiety(), NEED_MAX);
    assert_eq!(e.get_hope(), 0);
}

#[test]
fn effect_hires_as_many_as_there_is_room_for() {
    let mut office = Office::new();
    office.apply_qte_effect(&QteEffect::new(0, 0, 0, 0, 0, 3));
    assert_eq!(office.employees_count(), 3);
    assert_partition(&office);
    office.apply_qte_effect(&QteEffect::new(0, 0, 0, 0, 0, i64::MAX));
    assert_eq!(office.employees_count(), COMPUTER_COUNT);
    assert_partition(&office);
}

#[test]
fn effect_kills_as_many_as_are_alive() {
    let mut office = Office::new();
    office.apply_qte_effect(&QteEffect::new(0, 0, 0, 0, 0, 5));
    office.apply_qte_effect(&QteEffect::new(0, 0, 0, 0, 0, -2));
    let alive = |o: &Office| {
        o.iter_employees().iter().filter(|e| e.get_state() == EmployeeState::Alive).count()
    };
    assert_eq!(alive(&office), 3);
    assert_eq!(office.employees_count(), 5);
    office.apply_qte_effect(&QteEffect::new(0, 0, 0, 0, 0, i64::MIN));
    assert_eq!(alive(&office), 0);
    assert_eq!(office.employees_count(), 5);
    assert!(!office.kill_random_employee());
    assert_partition(&office);
}

#[test]
fn kill_random_employee_kills_one() {
    let mut office = Office::new();
    assert!(!office.kill_random_employee());
    office.apply_qte_effect(&QteEffect::new(0, 0, 0, 0, 0, 4));
    assert!(office.kill_random_employee());
    let dead = office.iter_employees().iter().filter(|e| e.get_state() == EmployeeState::Dead);
    assert_eq!(dead.count(), 1);
}

#[test]
fn kill_employee_at_wants_a_living_employee() {
    let mut office = Office::new();
    assert!(office.add_employee());
    assert!(!office.kill_employee_at(1));
    assert!(office.kill_employee_at(0));
    assert!(!office.kill_employee_at(0));
}

#[test]
fn starved_staff_ends_the_game() {
    let mut office = Office::new();
    for _ in 0..3 {
        let mut t = steady_traits(5_000_000);
        t.satiety = 900;
        assert!(office.add_employee_with(0, t));
    }
    office.tick();
    for e in office.iter_employees() {
        assert_eq!(e.get_satiety(), 0);
        assert_eq!(e.get_state(), EmployeeState::Dead);
    }
    assert_eq!(office.get_game_state(), GameState::GameOver);
}

#[test]
fn one_survivor_keeps_the_game_running() {
    let mut office = Office::new();
    let mut t = steady_traits(5_000_000);
    t.satiety = 900;
    assert!(office.add_employee_with(0, t));
    assert!(office.add_employee_with(0, steady_traits(5_000_000)));
    office.tick();
    assert_eq!(office.iter_employees()[0].get_state(), EmployeeState::Dead);
    assert_eq!(office.get_game_state(), GameState::Running);
}

#[test]
fn click_selects_the_nearest_in_reach() {
    let mut office = Office::new();
    assert!(office.add_employee_with(0, steady_traits(5_000_000)));
    for _ in 0..30 {
        office.tick();
    }
    assert!(office.add_employee_with(0, steady_traits(5_000_000)));
    let first = office.iter_employees()[0].get_computer();
    let second = office.iter_employees()[1].get_computer();
    assert_eq!(office.iter_employees()[0].get_pos(), Position { x: 3_300, y: 3_500 });
    assert_eq!(office.iter_employees()[1].get_pos(), Position { x: 3_000, y: 3_500 });
    assert!(office.click(Position { x: 3_140, y: 3_500 }));
    assert_eq!(office.get_selected_employee().unwrap().get_computer(), second);
    assert!(office.click(Position { x: 3_160, y: 3_500 }));
    assert_eq!(office.get_selected_employee().unwrap().get_computer(), first);
    assert!(office.click(Position { x: 3_150, y: 3_500 }));
    assert_eq!(office.get_selected_employee().unwrap().get_computer(), second);
    assert!(office.click(Position { x: 3_300, y: 3_999 }));
    assert_eq!(office.get_selected_employee().unwrap().get_computer(), first);
    assert!(!office.click(Position { x: 3_300, y: 4_000 }));
    assert_eq!(office.get_selected_employee().unwrap().get_computer(), first);
    assert!(!office.click(Position { x: i64::MAX, y: i64::MIN }));
    assert_eq!(office.get_selected_employee().unwrap().get_computer(), first);
}

#[test]
fn click_that_reaches_nobody_changes_nothing() {
    let mut office = Office::new();
    assert!(!office.click(Position { x: 3_000, y: 3_500 }));
    assert!(office.get_selected_employee().is_none());
    assert!(office.add_employee_with(2, steady_traits(5_000_000)));
    assert!(!office.click(Position { x: 3_000, y: 4_000 }));
    assert!(office.get_selected_employee().is_none());
    assert!(office.click(Position { x: 3_000, y: 3_999 }));
    let money = office.get_money();
    assert!(!office.click(Position { x: 9_000, y: 900 }));
    assert_eq!(office.get_selected_employee().unwrap().get_computer(), 2);
    assert_eq!(office.get_money(), money);
    assert_eq!(office.employees_count(), 1);
    assert_eq!(office.available_count(), COMPUTER_COUNT - 1);
    assert_eq!(*office.get_door_state(), DoorState::Open);
    assert!(!office.window_is_open());
    assert_eq!(office.get_game_state(), GameState::Running);
    assert_eq!(office.iter_employees()[0].get_state(), EmployeeState::Alive);
    assert_eq!(office.iter_employees()[0].get_satiety(), 5_000_000);
}

#[test]
fn effect_shifts_who_walks_to_the_window() {
    let mut office = Office::new();
    let mut t = steady_traits(5_000_000);
    t.hope = 660_000;
    assert!(office.add_employee_with(0, t));
    assert!(office.add_employee_with(0, steady_traits(9_000_000)));
    for _ in 0..330 {
        office.tick();
    }
    assert_eq!(office.iter_employees()[0].get_state(), EmployeeState::Suicide);
    let before = office.iter_employees()[0].get_satisfaction();
    office.apply_qte_effect(&QteEffect::new(1_000_000, -1_000_000, 2_000_000, 3_000_000, 0, 0));
    let e = &office.iter_employees()[0];
    assert_eq!(e.get_state(), EmployeeState::Suicide);
    assert_eq!(e.get_satisfaction(), before + 1_000_000);
    assert_eq!(e.get_energy(), 5_000_000 - 330_000 - 1_000_000);
    assert_eq!(e.get_satiety(), 5_000_000 - 330_000 + 2_000_000);
    assert_eq!(e.get_hope(), 3_000_000);
    while office.iter_employees()[0].get_state() == EmployeeState::Suicide {
        office.tick();
    }
    assert_eq!(office.iter_employees()[0].get_state(), EmployeeState::Falling);
    let before = office.iter_employees()[0].get_energy();
    office.apply_qte_effect(&QteEffect::new(0, 500_000, 0, 0, 0, 0));
    assert_eq!(office.iter_employees()[0].get_energy(), before + 500_000);
}

#[test]
fn selected_employee_takes_commands() {
    let mut office = Office::new();
    assert!(!office.set_selected_action(EmployeeAction::Eat));
    assert!(!office.clean_selected());
    assert!(office.add_employee_with(0, steady_traits(5_000_000)));
    assert!(office.click(Position { x: 3_000, y: 3_500 }));
    assert!(office.set_selected_action(EmployeeAction::Eat));
    assert_eq!(office.iter_employees()[0].get_action(), EmployeeAction::Eat);
    assert!(!office.clean_selected());
    assert!(office.kill_employee_at(0));
    assert!(!office.set_selected_action(EmployeeAction::Sleep));
    assert!(office.clean_selected());
    assert_eq!(office.iter_employees()[0].get_state(), EmployeeState::Clean);
}

#[test]
fn removed_employee_frees_its_workstation_once() {
    let mut office = Office::new();
    assert!(office.add_employee_with(3, steady_traits(5_000_000)));
    assert!(office.add_employee_with(7, steady_traits(5_000_000)));
    let handle = office.iter_employees()[0].get_computer();
    assert_eq!(handle, 3);
    assert!(office.kill_employee_at(0));
    assert!(office.click(Position { x: 3_000, y: 3_500 }));
    assert!(office.set_selected_action(EmployeeAction::Eat));
    assert!(office.kill_employee_at(1));
    assert!(office.click(Position { x: 3_000, y: 3_500 }));
    assert_eq!(office.get_selected_employee().unwrap().get_computer(), 8);
    assert!(office.clean_selected());
    office.tick();
    assert_eq!(office.employees_count(), 1);
    assert_eq!(office.iter_employees()[0].get_computer(), 3);
    assert_eq!(office.get_available().iter().filter(|h| **h == 8).count(), 1);
    assert_eq!(*office.get_available().last().unwrap(), 8);
    assert!(office.get_selected_employee().is_none());
    assert_partition(&office);
    office.tick();
    assert_eq!(office.get_available().iter().filter(|h| **h == 8).count(), 1);
    assert_partition(&office);
}

#[test]
fn selection_survives_the_removal_of_another() {
    let mut office = Office::new();
    assert!(office.add_employee_with(0, steady_traits(5_000_000)));
    for _ in 0..60 {
        office.tick();
    }
    assert!(office.add_employee_with(0, steady_traits(5_000_000)));
    assert!(office.kill_employee_at(1));
    assert!(office.click(Position { x: 3_000, y: 3_500 }));
    assert!(office.clean_selected());
    assert!(office.click(Position { x: 3_600, y: 3_500 }));
    let kept = office.get_selected_employee().unwrap().get_computer();
    office.tick();
    assert_eq!(office.employees_count(), 1);
    assert_eq!(office.get_selected_employee().unwrap().get_computer(), kept);
}

#[test]
fn tick_adds_what_the_employees_earn() {
    let mut office = Office::new();
    for _ in 0..6 {
        assert!(office.add_employee());
    }
    let mut earning_ticks = 0;
    for _ in 0..1_500 {
        let before = office.get_money();
        office.tick();
        let computers = office.iter_computers();
        let free = office.available_count();
        let mut expected = 0;
        for (j, e) in office.iter_employees().iter().enumerate() {
            if e.get_state() == EmployeeState::Alive
                && e.get_movement_step() == STEP_WORK
                && !computers[free + j].broken
            {
                expected += if e.get_satisfaction() == NEED_MAX { 1 } else { 10 };
            }
        }
        assert_eq!(office.get_money(), before + expected);
        if expected > 0 {
            earning_ticks += 1;
        }
    }
    assert!(earning_ticks > 500);
}

#[test]
fn one_worker_earns_ten_a_tick() {
    let mut office = Office::new();
    assert!(office.add_employee_with(0, steady_traits(5_000_000)));
    for _ in 0..328 {
        office.tick();
    }
    assert_eq!(office.get_money(), STARTING_MONEY);
    office.tick();
    assert_eq!(office.get_money(), STARTING_MONEY + 10);
    for _ in 0..100 {
        office.tick();
    }
    assert_eq!(office.get_money(), STARTING_MONEY + 1_010);
}

#[test]
fn partition_holds_through_a_long_game() {
    let mut office = Office::new();
    for round in 0..40_000u32 {
        if round % 700 == 0 {
            office.add_employee();
        }
        if round % 1_900 == 0 {
            office.kill_random_employee();
        }
        if round % 2_300 == 0 {
            office.click(Position { x: 3_000 + (round as i64 % 5_000), y: 3_500 });
            office.clean_selected();
            office.update_door();
        }
        office.tick();
        if round % 97 == 0 {
            assert_partition(&office);
            for e in office.iter_employees() {
                assert!(e.get_state() != EmployeeState::Clean);
                for need in [e.get_satisfaction(), e.get_hope(), e.get_energy(), e.get_satiety()]
                {
                    assert!(0 <= need && need <= NEED_MAX);
                }
            }
        }
    }
    assert_partition(&office);
}

#[test]
fn window_opens_for_who_walks_to_it() {
    let mut office = Office::new();
    let mut t = steady_traits(5_000_000);
    t.hope = 660_000;
    assert!(office.add_employee_with(0, t));
    assert!(office.add_employee_with(0, steady_traits(5_000_000)));
    let mut opened = false;
    for _ in 0..2_000 {
        let beyond = office.iter_employees().iter().any(|e| e.get_pos().x > 10_000);
        office.tick();
        assert_eq!(office.window_is_open(), beyond);
        if beyond {
            opened = true;
        }
    }
    assert!(opened);
    assert!(!office.window_is_open());
    assert_eq!(office.employees_count(), 1);
    assert_partition(&office);
}

#[test]
fn bonus_meth_needs_money() {
    let mut office = Office::new();
    assert!(office.add_employee_with(0, steady_traits(5_000_000)));
    assert!(!office.bonus_meth());
    assert_eq!(office.get_money(), STARTING_MONEY);
    office.set_money(BONUS_METH_COST + 7);
    assert!(office.bonus_meth());
    assert_eq!(office.get_money(), 7);
    let e = &office.iter_employees()[0];
    assert_eq!(e.get_satisfaction(), 8_000_000);
    assert_eq!(e.get_energy(), 8_000_000);
    assert_eq!(e.get_satiety(), 8_000_000);
    assert_eq!(e.get_hope(), 2_000_000);
}

#[test]
fn bonus_rh_needs_money() {
    let mut office = Office::new();
    assert!(!office.bonus_rh());
    assert_eq!(office.employees_count(), 0);
    office.set_money(BONUS_RH_COST);
    assert!(office.bonus_rh());
    assert_eq!(office.get_money(), 0);
    assert_eq!(office.employees_count(), 1);
}

#[test]
fn spend_and_apply_is_all_or_nothing() {
    let mut office = Office::new();
    let effect = QteEffect::new(0, 0, 0, 0, 50, 2);
    assert!(!office.spend_and_apply(STARTING_MONEY + 1, &effect));
    assert_eq!(office.get_money(), STARTING_MONEY);
    assert_eq!(office.employees_count(), 0);
    assert!(office.spend_and_apply(STARTING_MONEY, &effect));
    assert_eq!(office.get_money(), 50);
    assert_eq!(office.employees_count(), 2);
}
