use office_sim::catalog::{
    default_qtes, CATALOG_LEN, EXPLICATION1_14, EXPLICATION2_14, EXPLICATION2_7, TEXT_0, TEXT_14,
};
use office_sim::office::{Office, STARTING_MONEY};
use office_sim::qte::{QteEffect, QTE};
use office_sim::random::{draw_between, draw_index, RANDOM_LIMIT};
use office_sim::scheduler::{
    QteEvent, QtePhase, QteScheduler, DISPLAY_ANSWER_TIME, FIRST_PERIOD_WITHOUT_QTE,
};

fn staffed() -> Office {
    let mut office = Office::new();
    assert!(office.add_employee());
    office
}

#[test]
fn empty_catalog_makes_no_scheduler() {
    assert!(QteScheduler::new(Vec::new()).is_none());
    assert!(QteScheduler::new(default_qtes()).is_some());
}

#[test]
fn catalog_holds_the_events() {
    let qtes = default_qtes();
    assert_eq!(qtes.len(), CATALOG_LEN);
    assert_eq!(qtes.len(), 15);
    for q in &qtes {
        assert_eq!(q.get_choice1(), "Oui");
        assert_eq!(q.get_choice2(), "Non");
        assert!(!q.get_text().is_empty());
        assert!(!q.get_explication1().is_empty());
        assert!(!q.get_explication2().is_empty());
        assert!(q.get_time() >= 1_500);
    }
    assert_eq!(*qtes[0].get_effect_1(), QteEffect::new(-3_000_000, 0, 0, 0, 0, 0));
    assert_eq!(*qtes[0].get_effect_2(), QteEffect::new(0, 0, 0, 0, -20_000, 0));
    assert_eq!(*qtes[1].get_effect_1(), QteEffect::new(0, -2_000_000, 2_000_000, 0, 0, 0));
    assert_eq!(*qtes[2].get_effect_2(), QteEffect::new(0, 0, 0, 0, 20_000, -1));
    assert_eq!(*qtes[4].get_effect_1(), QteEffect::new(2_000_000, 0, 0, 4_000_000, 0, 0));
    assert_eq!(*qtes[9].get_effect_1(), QteEffect::new(0, 0, 0, 0, -100_000, 0));
    assert_eq!(*qtes[9].get_effect_2(), QteEffect::new(0, 0, 0, 0, 0, -2));
    assert_eq!(*qtes[14].get_effect_2(), QteEffect::new(0, 0, -3_000_000, 0, 0, 0));
    assert_eq!(qtes[3].get_time(), 2_000);
    assert_eq!(qtes[11].get_time(), 1_500);
    assert_eq!(qtes[14].get_time(), 3_000);
    assert_eq!(qtes[0].get_time(), 4_000);
    assert_eq!(qtes[11].get_text(), "Mail urgent ! Ouvrir maintenant ?");
    assert_eq!(qtes[3].get_explication2(), "Vous l'avez laissé passer");
    assert_eq!(
        qtes[14].get_explication1(),
        "Vos employés tombent malade, et leur énergie en prend un coup"
    );
    assert_eq!(
        qtes[14].get_explication2(),
        "Vos employés ont très faim car il ne mange pas"
    );
    assert_eq!(qtes[0].get_text(), TEXT_0);
    assert_eq!(qtes[14].get_text(), TEXT_14);
    assert_eq!(qtes[14].get_explication1(), EXPLICATION1_14);
    assert_eq!(qtes[14].get_explication2(), EXPLICATION2_14);
    assert_eq!(qtes[7].get_explication2(), EXPLICATION2_7);
}

#[test]
fn no_tick_counts_as_waiting_while_a_question_is_put() {
    let mut s = QteScheduler::new(default_qtes()).unwrap();
    let mut office = staffed();
    for tick in 0..100 {
        assert_eq!(s.advance_with(tick, &mut office, 0, 900), QteEvent::Nothing);
    }
    assert_eq!(s.get_waiting_time_qte(), 100);
    assert_eq!(s.get_next_time_qte(), FIRST_PERIOD_WITHOUT_QTE);
    s.launch_with(100, 4);
    assert_eq!(s.get_waiting_time_qte(), 0);
    for tick in 100..4_100 {
        assert_eq!(s.advance_with(tick, &mut office, 0, 900), QteEvent::Nothing);
        assert_eq!(s.get_waiting_time_qte(), 0);
        assert_eq!(s.phase(), QtePhase::Active);
        assert!(s.get_answer().is_none());
    }
    assert_eq!(office.get_money(), STARTING_MONEY);
    assert_eq!(s.advance_with(4_101, &mut office, 0, 1_111), QteEvent::TimedOut);
    assert_eq!(s.get_waiting_time_qte(), 0);
    assert_eq!(s.get_next_time_qte(), 1_111);
}

#[test]
fn scaled_effect_counts_tenths_and_units() {
    assert_eq!(
        QteEffect::from_tenths(-3, 2, 1, -4, -200, 2),
        QteEffect::new(-3_000_000, 2_000_000, 1_000_000, -4_000_000, -20_000, 2)
    );
}

#[test]
fn qte_keeps_what_it_was_made_of() {
    let q = QTE::new(
        "t".to_owned(),
        QteEffect::new(1, 2, 3, 4, 5, 6),
        QteEffect::new(7, 8, 9, 10, 11, 12),
        "a".to_owned(),
        "b".to_owned(),
        "x".to_owned(),
        "y".to_owned(),
        77,
    );
    let d = q.duplicate();
    for q in [&q, &d] {
        assert_eq!(q.get_text(), "t");
        assert_eq!(q.get_choice1(), "a");
        assert_eq!(q.get_choice2(), "b");
        assert_eq!(q.get_explication1(), "x");
        assert_eq!(q.get_explication2(), "y");
        assert_eq!(q.get_effect_1().money_delta, 5);
        assert_eq!(q.get_effect_2().employee_delta, 12);
        assert_eq!(q.get_time(), 77);
    }
}

#[test]
fn first_event_comes_after_the_first_period() {
    let mut s = QteScheduler::new(default_qtes()).unwrap();
    let mut office = staffed();
    assert_eq!(s.phase(), QtePhase::Idle);
    for tick in 0..FIRST_PERIOD_WITHOUT_QTE {
        assert_eq!(s.advance_with(tick * 16, &mut office, 3, 900), QteEvent::Nothing);
        assert_eq!(s.phase(), QtePhase::Idle);
    }
    assert_eq!(s.advance_with(70_000, &mut office, 3, 900), QteEvent::Launched);
    assert_eq!(s.phase(), QtePhase::Active);
    assert_eq!(s.get_starting_time_qte(), 70_000);
    assert_eq!(
        s.get_qte_ongoing().unwrap().get_text(),
        "Un stagiaire passe dans le couloir, le capturez ?"
    );
    assert!(s.get_answer().is_none());
}

#[test]
fn timeout_gives_the_first_answer() {
    let mut s = QteScheduler::new(default_qtes()).unwrap();
    let mut office = staffed();
    s.launch_with(1_000, 9);
    assert_eq!(s.advance_with(5_000, &mut office, 0, 1_000), QteEvent::Nothing);
    assert_eq!(s.phase(), QtePhase::Active);
    assert_eq!(office.get_money(), STARTING_MONEY);
    assert_eq!(s.advance_with(5_001, &mut office, 0, 1_000), QteEvent::TimedOut);
    assert_eq!(s.phase(), QtePhase::Resolved);
    assert_eq!(office.get_money(), STARTING_MONEY - 100_000);
    assert_eq!(office.employees_count(), 1);
    let expected = default_qtes()[9].get_explication1().to_owned();
    assert_eq!(s.get_answer().unwrap(), expected);
    assert!(s.get_qte_ongoing().is_none());
}

#[test]
fn explanation_is_shown_for_a_while() {
    let mut s = QteScheduler::new(default_qtes()).unwrap();
    let mut office = staffed();
    s.launch_with(0, 3);
    assert!(s.choose_answer_with(2, 100, &mut office, 900));
    assert_eq!(s.phase(), QtePhase::Resolved);
    assert_eq!(
        s.advance_with(100 + DISPLAY_ANSWER_TIME, &mut office, 0, 900),
        QteEvent::Nothing
    );
    assert_eq!(s.phase(), QtePhase::Resolved);
    assert_eq!(
        s.advance_with(101 + DISPLAY_ANSWER_TIME, &mut office, 0, 900),
        QteEvent::Dismissed
    );
    assert_eq!(s.phase(), QtePhase::Idle);
    assert!(s.get_answer().is_none());
    for _ in 0..900 {
        assert_eq!(s.advance_with(6_000, &mut office, 5, 900), QteEvent::Nothing);
    }
    assert_eq!(s.advance_with(6_000, &mut office, 5, 900), QteEvent::Launched);
    assert_eq!(
        s.get_qte_ongoing().unwrap().get_text(),
        default_qtes()[5].get_text()
    );
}

#[test]
fn answers_apply_their_own_effect() {
    let mut s = QteScheduler::new(default_qtes()).unwrap();
    let mut office = staffed();
    s.launch_with(0, 3);
    assert!(!s.choose_answer_with(0, 10, &mut office, 900));
    assert!(!s.choose_answer_with(3, 10, &mut office, 900));
    assert_eq!(s.phase(), QtePhase::Active);
    assert!(s.choose_answer_with(1, 10, &mut office, 900));
    assert_eq!(office.employees_count(), 2);
    assert_eq!(s.get_answer().unwrap(), default_qtes()[3].get_explication1());
    assert!(!s.choose_answer_with(1, 20, &mut office, 900));
    assert_eq!(office.employees_count(), 2);

    let mut s = QteScheduler::new(default_qtes()).unwrap();
    s.launch_with(0, 2);
    assert!(s.choose_answer_with(2, 10, &mut office, 900));
    assert_eq!(office.get_money(), STARTING_MONEY + 20_000);
    assert_eq!(s.get_answer().unwrap(), default_qtes()[2].get_explication2());
}

#[test]
fn answer_without_a_question_does_nothing() {
    let mut s = QteScheduler::new(default_qtes()).unwrap();
    let mut office = staffed();
    assert!(!s.choose_answer(1, 0, &mut office));
    assert!(!s.choose_answer(2, 0, &mut office));
    assert_eq!(s.phase(), QtePhase::Idle);
    assert_eq!(office.get_money(), STARTING_MONEY);
}

#[test]
fn random_scheduler_runs_through_its_phases() {
    let mut s = QteScheduler::new(default_qtes()).unwrap();
    let mut office = Office::new();
    let mut launched = 0;
    let mut timed_out = 0;
    let mut dismissed = 0;
    for tick in 0..40_000u64 {
        office.set_money(1_000_000);
        match s.advance(tick * 17, &mut office) {
            QteEvent::Launched => launched += 1,
            QteEvent::TimedOut => timed_out += 1,
            QteEvent::Dismissed => dismissed += 1,
            QteEvent::Nothing => {}
        }
    }
    assert!(launched >= 20);
    assert!(timed_out >= launched - 1);
    assert!(dismissed >= timed_out - 1);
}

#[test]
fn launch_and_quit_by_hand() {
    let mut s = QteScheduler::new(default_qtes()).unwrap();
    assert!(s.launch_qte(5));
    assert_eq!(s.phase(), QtePhase::Active);
    s.quit_qte("done".to_owned(), 9);
    assert_eq!(s.phase(), QtePhase::Resolved);
    assert_eq!(s.get_answer().unwrap(), "done");
    assert!(!s.launch_qte(10));
    s.reset();
    assert_eq!(s.phase(), QtePhase::Idle);
    assert_eq!(s.get_qtes().len(), 15);
}

#[test]
fn draws_stay_in_range_and_vary() {
    let mut seen = [false; 10];
    for _ in 0..500 {
        let v = draw_between(10, 20).unwrap();
        assert!((10..20).contains(&v));
        seen[(v - 10) as usize] = true;
    }
    assert!(seen.iter().filter(|s| **s).count() >= 5);
    let mut hit = [false; 7];
    for _ in 0..500 {
        hit[draw_index(7).unwrap()] = true;
    }
    assert!(hit.iter().filter(|s| **s).count() >= 4);
    for _ in 0..100 {
        let p = QteScheduler::draw_period();
        assert!((900..1_200).contains(&p));
    }
}

#[test]
fn draws_refuse_bad_ranges() {
    assert!(draw_between(5, 5).is_none());
    assert!(draw_between(6, 5).is_none());
    assert!(draw_between(0, RANDOM_LIMIT + 1).is_none());
    assert!(draw_between(0, RANDOM_LIMIT).is_some());
    assert!(draw_index(0).is_none());
    assert!(draw_index(RANDOM_LIMIT as usize + 1).is_none());
    assert_eq!(draw_index(1), Some(0));
}
