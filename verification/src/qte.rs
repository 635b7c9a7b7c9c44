//! Timed events: a question, two answers, and what each answer does to the
//! office.
use vstd::prelude::*;
use crate::fixed::MONEY_SCALE;

verus! {

/// What an answer does: a shift of each need of every employee who is not dead,
/// a sum of money, and a number of employees to hire or to strike dead.
#[derive(Clone, Copy, Debug, PartialEq, Eq, Structural)]
pub struct QteEffect {
    /// In need units.
    pub satisfaction_delta: i64,
    /// In need units.
    pub energy_delta: i64,
    /// In need units.
    pub satiety_delta: i64,
    /// In need units.
    pub hope_delta: i64,
    /// In hundredths of a unit of money.
    pub money_delta: i64,
    /// Employees to hire if positive, to strike dead if negative.
    pub employee_delta: i64,
}

/// The need units in one tenth of a need.
pub const NEED_TENTH: i64 = 1_000_000;

impl QteEffect {
    /// The effect whose need deltas are given in tenths of a need and whose
    /// money is given in whole units.
    pub open spec fn scaled(
        satisfaction: int,
        energy: int,
        satiety: int,
        hope: int,
        money: int,
        employees: int,
    ) -> QteEffect {
        QteEffect {
            satisfaction_delta: (satisfaction * NEED_TENTH) as i64,
            energy_delta: (energy * NEED_TENTH) as i64,
            satiety_delta: (satiety * NEED_TENTH) as i64,
            hope_delta: (hope * NEED_TENTH) as i64,
            money_delta: (money * MONEY_SCALE) as i64,
            employee_delta: employees as i64,
        }
    }

    /// Builds [`QteEffect::scaled`].
    pub fn from_tenths(
        satisfaction: i32,
        energy: i32,
        satiety: i32,
        hope: i32,
        money: i32,
        employees: i32,
    ) -> (e: QteEffect)
        ensures
            e == QteEffect::scaled(
                satisfaction as int,
                energy as int,
                satiety as int,
                hope as int,
                money as int,
                employees as int,
            ),
    {
        QteEffect {
            satisfaction_delta: satisfaction as i64 * NEED_TENTH,
            energy_delta: energy as i64 * NEED_TENTH,
            satiety_delta: satiety as i64 * NEED_TENTH,
            hope_delta: hope as i64 * NEED_TENTH,
            money_delta: money as i64 * MONEY_SCALE,
            employee_delta: employees as i64,
        }
    }

    pub fn new(
        satisfaction_delta: i64,
        energy_delta: i64,
        satiety_delta: i64,
        hope_delta: i64,
        money_delta: i64,
        employee_delta: i64,
    ) -> (e: QteEffect)
        ensures
            e == (QteEffect {
                satisfaction_delta,
                energy_delta,
                satiety_delta,
                hope_delta,
                money_delta,
                employee_delta,
            }),
    {
        QteEffect {
            satisfaction_delta,
            energy_delta,
            satiety_delta,
            hope_delta,
            money_delta,
            employee_delta,
        }
    }
}

/// An event as contracts see it.
pub struct QteModel {
    pub text: Seq<char>,
    pub effect_1: QteEffect,
    pub effect_2: QteEffect,
    pub choice1: Seq<char>,
    pub choice2: Seq<char>,
    pub explication1: Seq<char>,
    pub explication2: Seq<char>,
    /// How long the player has to answer, in milliseconds.
    pub time: int,
}

/// An event: a question with two answers, the effect and the explanation of
/// each, and the time the player has to answer.
pub struct QTE {
    text: String,
    effect_choice_1: QteEffect,
    effect_choice_2: QteEffect,
    choice1: String,
    choice2: String,
    explication1: String,
    explication2: String,
    time: u64,
}

impl View for QTE {
    type V = QteModel;

    closed spec fn view(&self) -> QteModel {
        QteModel {
            text: self.text@,
            effect_1: self.effect_choice_1,
            effect_2: self.effect_choice_2,
            choice1: self.choice1@,
            choice2: self.choice2@,
            explication1: self.explication1@,
            explication2: self.explication2@,
            time: self.time as int,
        }
    }
}

impl QTE {
    pub fn new(
        text: String,
        effect_choice_1: QteEffect,
        effect_choice_2: QteEffect,
        choice1: String,
        choice2: String,
        explication1: String,
        explication2: String,
        time: u64,
    ) -> (q: QTE)
        ensures
            q@ == (QteModel {
                text: text@,
                effect_1: effect_choice_1,
                effect_2: effect_choice_2,
                choice1: choice1@,
                choice2: choice2@,
                explication1: explication1@,
                explication2: explication2@,
                time: time as int,
            }),
    {
        QTE {
            text,
            effect_choice_1,
            effect_choice_2,
            choice1,
            choice2,
            explication1,
            explication2,
            time,
        }
    }

    /// A copy of the event.
    pub fn duplicate(&self) -> (q: QTE)
        ensures
            q@ == self@,
    {
        QTE {
            text: self.text.clone(),
            effect_choice_1: self.effect_choice_1,
            effect_choice_2: self.effect_choice_2,
            choice1: self.choice1.clone(),
            choice2: self.choice2.clone(),
            explication1: self.explication1.clone(),
            explication2: self.explication2.clone(),
            time: self.time,
        }
    }

    pub fn get_text(&self) -> (s: &str)
        ensures
            s@ == self@.text,
    {
        self.text.as_str()
    }

    pub fn get_choice1(&self) -> (s: &str)
        ensures
            s@ == self@.choice1,
    {
        self.choice1.as_str()
    }

    pub fn get_choice2(&self) -> (s: &str)
        ensures
            s@ == self@.choice2,
    {
        self.choice2.as_str()
    }

    pub fn get_explication1(&self) -> (s: &str)
        ensures
            s@ == self@.explication1,
    {
        self.explication1.as_str()
    }

    pub fn get_explication2(&self) -> (s: &str)
        ensures
            s@ == self@.explication2,
    {
        self.explication2.as_str()
    }

    pub fn get_effect_1(&self) -> (e: &QteEffect)
        ensures
            *e == self@.effect_1,
    {
        &self.effect_choice_1
    }

    pub fn get_effect_2(&self) -> (e: &QteEffect)
        ensures
            *e == self@.effect_2,
    {
        &self.effect_choice_2
    }

    /// How long the player has to answer, in milliseconds.
    pub fn get_time(&self) -> (t: u64)
        ensures
            t == self@.time,
    {
        self.time
    }
}

} // verus!
