use office_sim::employee::{DoorState, EmployeeAction, EmployeeState, GameState};
use office_sim::fixed::{
    elapsed_since, saturating_difference, saturating_sum, shift_need, NEED_MAX,
};
use office_sim::game::{Command, Game, DOOR_CD, METH_CD, RH_CD};
use office_sim::geometry::{column_of, reach, Position};
use office_sim::office::STARTING_MONEY;
use office_sim::scheduler::{QteEvent, QtePhase};

fn running() -> Game {
    let mut game = Game::new();
    game.set_game_state(GameState::Running);
    game
}

#[test]
fn new_game_waits_in_the_menu() {
    let mut game = Game::new();
    assert_eq!(game.get_game_state(), GameState::MyLittleOfficeMenu);
    assert_eq!(game.get_office().employees_count(), 1);
    assert_eq!(game.get_office().get_money(), STARTING_MONEY);
    assert!(game.get_qte_ongoing().is_none());
    assert!(game.get_answer().is_none());
    assert!(game.get_start_door_cd().is_none());
    assert!(game.get_start_rh_cd().is_none());
    assert!(game.get_start_meth_cd().is_none());
    let at = game.get_office().iter_employees()[0].get_pos();
    game.tick(16, Some(Command::Door));
    assert_eq!(game.get_office().iter_employees()[0].get_pos(), at);
    assert_eq!(*game.get_office().get_door_state(), DoorState::Open);
}

#[test]
fn running_game_ticks_the_office() {
    let mut game = running();
    game.tick(16, None);
    assert_eq!(
        game.get_office().iter_employees()[0].get_pos(),
        Position { x: 3_010, y: 3_500 }
    );
    assert_eq!(game.get_game_state(), GameState::Running);
}

#[test]
fn door_button_rests_after_a_press() {
    let mut game = running();
    game.tick(1_000, Some(Command::Door));
    assert_eq!(*game.get_office().get_door_state(), DoorState::Closed);
    assert_eq!(game.get_start_door_cd(), Some(1_000));
    game.tick(1_000 + DOOR_CD, Some(Command::Door));
    assert_eq!(*game.get_office().get_door_state(), DoorState::Closed);
    game.tick(1_001 + DOOR_CD, Some(Command::Door));
    assert_eq!(*game.get_office().get_door_state(), DoorState::Open);
    assert_eq!(game.get_start_door_cd(), Some(1_001 + DOOR_CD));
    game.tick(5_000, None);
    assert!(game.get_start_door_cd().is_none());
}

#[test]
fn purchases_need_money_and_rest() {
    let mut game = running();
    assert!(!game.handle(Command::Meth, 10));
    assert!(!game.handle(Command::Rh, 10));
    assert!(game.get_start_meth_cd().is_none());
    assert!(game.get_start_rh_cd().is_none());
    assert_eq!(game.get_office().get_money(), STARTING_MONEY);
    game.get_mut_office().set_money(250_000);
    let staff = game.get_office().employees_count();
    assert!(game.handle(Command::Rh, 100));
    assert_eq!(game.get_office().get_money(), 150_000);
    assert_eq!(game.get_office().employees_count(), staff + 1);
    assert_eq!(game.get_start_rh_cd(), Some(100));
    assert!(!game.handle(Command::Rh, 100 + RH_CD));
    assert_eq!(game.get_office().get_money(), 150_000);
    assert!(game.handle(Command::Meth, 100));
    assert_eq!(game.get_office().get_money(), 50_000);
    assert_eq!(game.get_start_meth_cd(), Some(100));
    assert!(!game.handle(Command::Meth, 100 + METH_CD));
    game.get_mut_office().set_money(250_000);
    game.tick(100 + RH_CD, Some(Command::Rh));
    assert_eq!(game.get_office().employees_count(), staff + 1);
    game.tick(101 + RH_CD, Some(Command::Rh));
    assert_eq!(game.get_office().employees_count(), staff + 2);
    game.tick(101 + METH_CD, Some(Command::Meth));
    assert_eq!(game.get_start_meth_cd(), Some(101 + METH_CD));
}

#[test]
fn dead_employee_is_cleaned_with_the_break_button() {
    let mut game = running();
    assert!(game.handle(Command::Click(Position { x: 3_000, y: 3_500 }), 0));
    assert!(game.get_mut_office().kill_employee_at(0));
    assert!(!game.handle(Command::Action(EmployeeAction::Eat), 0));
    assert_eq!(game.get_office().iter_employees()[0].get_state(), EmployeeState::Dead);
    assert!(game.handle(Command::Action(EmployeeAction::Break), 0));
    assert_eq!(game.get_office().iter_employees()[0].get_state(), EmployeeState::Clean);
    game.tick(16, None);
    assert_eq!(game.get_office().employees_count(), 0);
    assert!(game.get_office().get_selected_employee().is_none());
    assert!(game.get_office().is_game_over());
    assert_eq!(game.get_game_state(), GameState::GameOver);
}

#[test]
fn click_and_action_reach_the_selected_employee() {
    let mut game = running();
    assert!(!game.handle(Command::Action(EmployeeAction::Eat), 0));
    assert!(!game.handle(Command::Click(Position { x: 0, y: 0 }), 0));
    assert!(game.handle(Command::Click(Position { x: 3_100, y: 3_400 }), 0));
    assert!(game.handle(Command::Action(EmployeeAction::Eat), 0));
    assert_eq!(game.get_office().iter_employees()[0].get_action(), EmployeeAction::Eat);
    assert!(game.handle(Command::Action(EmployeeAction::Eat), 0));
    assert_eq!(game.get_office().iter_employees()[0].get_action(), EmployeeAction::Idle);
    assert!(game.handle(Command::Action(EmployeeAction::Break), 0));
    assert_eq!(game.get_office().iter_employees()[0].get_state(), EmployeeState::Alive);
}

#[test]
fn answer_needs_a_question() {
    let mut game = running();
    assert!(!game.handle(Command::Choose(1), 0));
    let mut now = 0u64;
    while game.get_qte_ongoing().is_none() {
        now += 16;
        game.tick(now, None);
        assert!(now < 16 * 4_000);
    }
    assert_eq!(now, 16 * 3_601);
    assert_eq!(game.get_scheduler().phase(), QtePhase::Active);
    assert!(game.get_office().get_money() > STARTING_MONEY);
    let second = game.get_qte_ongoing().unwrap().get_explication2().to_owned();
    assert!(!game.handle(Command::Choose(7), now));
    assert!(game.handle(Command::Choose(2), now));
    assert_eq!(game.get_answer().unwrap(), second);
    assert_eq!(game.get_scheduler().phase(), QtePhase::Resolved);
}

#[test]
fn lost_office_ends_the_game_once_the_explanation_is_down() {
    let mut game = running();
    let mut now = 0u64;
    while game.get_game_state() == GameState::Running {
        now += 16;
        game.tick(now, None);
        if game.get_office().is_game_over() && game.get_answer().is_some() {
            assert_eq!(game.get_game_state(), GameState::Running);
        }
        assert!(now < 16 * 2_000_000);
    }
    assert_eq!(game.get_game_state(), GameState::GameOver);
    assert!(game.get_office().is_game_over());
    assert!(game.get_answer().is_none());
    let money = game.get_office().get_money();
    game.tick(now + 16, Some(Command::Door));
    assert_eq!(game.get_office().get_money(), money);
    assert_eq!(game.get_game_state(), GameState::GameOver);
    game.restart();
    assert_eq!(game.get_game_state(), GameState::Running);
    assert_eq!(game.get_office().employees_count(), 1);
    assert_eq!(game.get_office().get_money(), STARTING_MONEY);
    assert!(!game.get_office().is_game_over());
}

#[test]
fn event_handling_reports_what_the_scheduler_did() {
    let mut game = running();
    for n in 0..3_600u64 {
        assert_eq!(game.in_game_event_handling(n, None), QteEvent::Nothing);
    }
    assert_eq!(game.in_game_event_handling(3_600, None), QteEvent::Launched);
    let time = game.get_qte_ongoing().unwrap().get_time();
    assert_eq!(game.in_game_event_handling(3_600 + time, None), QteEvent::Nothing);
    assert_eq!(game.in_game_event_handling(3_601 + time, None), QteEvent::TimedOut);
    assert!(game.get_answer().is_some());
}

#[test]
fn fixed_point_helpers() {
    assert_eq!(shift_need(5, -6), 0);
    assert_eq!(shift_need(5, -5), 0);
    assert_eq!(shift_need(5, -4), 1);
    assert_eq!(shift_need(NEED_MAX - 1, 1), NEED_MAX);
    assert_eq!(shift_need(NEED_MAX - 1, 2), NEED_MAX);
    assert_eq!(shift_need(0, i64::MIN), 0);
    assert_eq!(shift_need(NEED_MAX, i64::MAX), NEED_MAX);
    assert_eq!(shift_need(-5, 3), 0);
    assert_eq!(shift_need(i64::MIN, -1), 0);
    assert_eq!(shift_need(i64::MAX, 1), NEED_MAX);
    assert_eq!(shift_need(-5, 8), 3);
    assert_eq!(saturating_sum(i64::MAX, 1), i64::MAX);
    assert_eq!(saturating_sum(i64::MIN, -1), i64::MIN);
    assert_eq!(saturating_sum(-3, 5), 2);
    assert_eq!(saturating_difference(i64::MIN, 1), i64::MIN);
    assert_eq!(saturating_difference(i64::MAX, -1), i64::MAX);
    assert_eq!(saturating_difference(0, i64::MIN), i64::MAX);
    assert_eq!(saturating_difference(7, 9), -2);
    assert_eq!(elapsed_since(10, 4), 6);
    assert_eq!(elapsed_since(4, 10), 0);
}

#[test]
fn geometry_helpers() {
    assert_eq!(column_of(4_500), Some(0));
    assert_eq!(column_of(6_500), Some(1));
    assert_eq!(column_of(7_500), Some(2));
    assert_eq!(column_of(9_500), Some(3));
    assert_eq!(column_of(4_000), None);
    let a = Position { x: 100, y: 200 };
    assert_eq!(reach(a, Position { x: 400, y: 600 }), None);
    assert_eq!(reach(a, Position { x: 400, y: 599 }), Some(300 * 300 + 399 * 399));
    assert_eq!(reach(a, a), Some(0));
    assert_eq!(reach(a, Position { x: 599, y: 200 }), Some(499 * 499));
    assert_eq!(reach(a, Position { x: 600, y: 200 }), None);
    assert_eq!(reach(Position { x: i64::MIN, y: 0 }, Position { x: i64::MAX, y: 0 }), None);
}
