//! The scheduler of timed events: it waits, puts a question, applies the
//! answer or the default, shows the explanation, and waits again.
use vstd::prelude::*;
use crate::fixed::{elapsed, elapsed_since};
use crate::office::{Office, OfficeModel};
use crate::qte::{QteEffect, QteModel, QTE};
use crate::random::{draw_between, draw_index, RANDOM_LIMIT};

verus! {

/// The shortest wait between two events, in ticks.
pub const MIN_PERIOD_WITHOUT_QTE: u64 = 900;

/// The wait between two events stays below this, in ticks.
pub const MAX_PERIOD_WITHOUT_QTE: u64 = 1_200;

/// The wait before the first event, in ticks.
pub const FIRST_PERIOD_WITHOUT_QTE: u64 = 3_600;

/// How long an explanation is shown, in milliseconds.
pub const DISPLAY_ANSWER_TIME: u64 = 5_000;

/// What the scheduler is doing.
#[derive(Clone, Copy, Debug, PartialEq, Eq, Structural)]
pub enum QtePhase {
    /// Waiting for the next event.
    Idle,
    /// A question is put and the clock runs.
    Active,
    /// The explanation of the last answer is shown.
    Resolved,
}

/// What a step of the scheduler did.
#[derive(Clone, Copy, Debug, PartialEq, Eq, Structural)]
pub enum QteEvent {
    /// Nothing but the passing of time.
    Nothing,
    /// A question was put.
    Launched,
    /// The time to answer ran out, and the first answer was given.
    TimedOut,
    /// The explanation was taken down.
    Dismissed,
}

/// The scheduler as contracts see it.
pub struct SchedulerModel {
    /// The catalog of events.
    pub qtes: Seq<QteModel>,
    /// The place in the catalog of the event that is put, if one is.
    pub ongoing: Option<usize>,
    /// When the event was put, in milliseconds.
    pub starting_time_qte: int,
    /// The ticks spent waiting since the last event.
    pub waiting: int,
    /// The ticks to wait for the next event.
    pub next: int,
    /// The explanation that is shown, if one is.
    pub answer: Option<Seq<char>>,
    /// When the explanation went up, in milliseconds.
    pub starting_time_answer: int,
}

/// The scheduler of timed events.
pub struct QteScheduler {
    qtes: Vec<QTE>,
    qte_ongoing: Option<usize>,
    starting_time_qte: u64,
    waiting_time_qte: u64,
    next_time_qte: u64,
    answer: Option<String>,
    starting_time_answer: u64,
}

/// A catalog as contracts see it.
pub open spec fn catalog(qtes: Seq<QTE>) -> Seq<QteModel> {
    Seq::new(qtes.len(), |i: int| qtes[i]@)
}

impl View for QteScheduler {
    type V = SchedulerModel;

    closed spec fn view(&self) -> SchedulerModel {
        SchedulerModel {
            qtes: catalog(self.qtes@),
            ongoing: self.qte_ongoing,
            starting_time_qte: self.starting_time_qte as int,
            waiting: self.waiting_time_qte as int,
            next: self.next_time_qte as int,
            answer: match self.answer {
                Some(s) => Some(s@),
                None => None,
            },
            starting_time_answer: self.starting_time_answer as int,
        }
    }
}

/// Whether a catalog can be scheduled from: it holds an event, and no more
/// than a draw can tell apart.
pub open spec fn usable(len: int) -> bool {
    0 < len <= RANDOM_LIMIT
}

/// Whether `period` is a wait that can be drawn.
pub open spec fn is_period(period: int) -> bool {
    MIN_PERIOD_WITHOUT_QTE <= period < MAX_PERIOD_WITHOUT_QTE
}

impl SchedulerModel {
    /// Whether the scheduler is in a state that it can reach: the catalog is
    /// usable, the event that is put is in it, no explanation is shown and
    /// no tick is counted as waiting while a question is put, and the wait has
    /// not run past its end.
    pub open spec fn wf(self) -> bool {
        &&& usable(self.qtes.len() as int)
        &&& self.ongoing matches Some(i) ==> i < self.qtes.len() && self.answer is None
            && self.waiting == 0
        &&& 0 <= self.waiting <= self.next <= FIRST_PERIOD_WITHOUT_QTE
        &&& 0 <= self.starting_time_qte <= u64::MAX
        &&& 0 <= self.starting_time_answer <= u64::MAX
    }

    /// What the scheduler is doing.
    pub open spec fn phase(self) -> QtePhase {
        if self.ongoing is Some {
            QtePhase::Active
        } else if self.answer is Some {
            QtePhase::Resolved
        } else {
            QtePhase::Idle
        }
    }

    /// The event that is put.
    pub open spec fn current(self) -> QteModel {
        self.qtes[self.ongoing.unwrap() as int]
    }

    /// A scheduler over `qtes` that waits for its first event.
    pub open spec fn initial(qtes: Seq<QteModel>) -> SchedulerModel {
        SchedulerModel {
            qtes,
            ongoing: None,
            starting_time_qte: 0,
            waiting: 0,
            next: FIRST_PERIOD_WITHOUT_QTE as int,
            answer: None,
            starting_time_answer: 0,
        }
    }

    /// The scheduler after it put the event at place `pick` of the catalog at
    /// time `now`.
    pub open spec fn launched(self, now: int, pick: usize) -> SchedulerModel {
        SchedulerModel { ongoing: Some(pick), starting_time_qte: now, waiting: 0, ..self }
    }

    /// The scheduler after the event was answered at time `now`: the
    /// explanation `answer` is shown, and the next wait lasts `period` ticks.
    pub open spec fn quit(self, answer: Seq<char>, now: int, period: int) -> SchedulerModel {
        SchedulerModel {
            ongoing: None,
            answer: Some(answer),
            starting_time_answer: now,
            next: period,
            waiting: 0,
            ..self
        }
    }

    /// Whether the time to answer has run out at time `now`.
    pub open spec fn timed_out(self, now: int) -> bool {
        self.ongoing is Some && elapsed(now, self.starting_time_qte) > self.current().time
    }

    /// Whether the explanation has been shown for long enough at time `now`.
    pub open spec fn shown_enough(self, now: int) -> bool {
        elapsed(now, self.starting_time_answer) > DISPLAY_ANSWER_TIME
    }

    /// The effect of an answer to the event that is put: of the first answer
    /// for 1, of the second for any other number.
    pub open spec fn effect_of(self, choice: int) -> QteEffect {
        if choice == 1 {
            self.current().effect_1
        } else {
            self.current().effect_2
        }
    }

    /// The explanation of an answer to the event that is put.
    pub open spec fn explication_of(self, choice: int) -> Seq<char> {
        if choice == 1 {
            self.current().explication1
        } else {
            self.current().explication2
        }
    }

    /// Whether `(after, office_after)` is what one tick at time `now` makes of
    /// this scheduler and of `office`, where `pick` and `period` are what
    /// chance gives for the next event and the next wait.
    ///
    /// While a question is put, nothing happens until its time runs out; then
    /// the effect of the first answer takes hold of the office, and its
    /// explanation is shown. While an explanation is shown, it is taken down
    /// once it was up for [`DISPLAY_ANSWER_TIME`]. Else one more tick was spent
    /// waiting, and once the wait is over the event `pick` is put.
    pub open spec fn advanced(
        self,
        office: OfficeModel,
        now: int,
        pick: usize,
        period: int,
        after: SchedulerModel,
        office_after: OfficeModel,
    ) -> bool {
        match self.phase() {
            QtePhase::Active => if self.timed_out(now) {
                &&& after == self.quit(self.current().explication1, now, period)
                &&& office.effect_applied(self.current().effect_1, office_after)
            } else {
                after == self && office_after == office
            },
            QtePhase::Resolved => {
                &&& office_after == office
                &&& after == if self.shown_enough(now) {
                    SchedulerModel { answer: None, ..self }
                } else {
                    self
                }
            },
            QtePhase::Idle => {
                &&& office_after == office
                &&& after == if self.waiting + 1 > self.next {
                    self.launched(now, pick)
                } else {
                    SchedulerModel { waiting: self.waiting + 1, ..self }
                }
            },
        }
    }

    /// What [`SchedulerModel::advanced`] reports.
    pub open spec fn event_at(self, now: int) -> QteEvent {
        match self.phase() {
            QtePhase::Active => if self.timed_out(now) {
                QteEvent::TimedOut
            } else {
                QteEvent::Nothing
            },
            QtePhase::Resolved => if self.shown_enough(now) {
                QteEvent::Dismissed
            } else {
                QteEvent::Nothing
            },
            QtePhase::Idle => if self.waiting + 1 > self.next {
                QteEvent::Launched
            } else {
                QteEvent::Nothing
            },
        }
    }

    /// Whether the player can give the answer `choice`: a question is put, and
    /// the answer is the first or the second.
    pub open spec fn can_choose(self, choice: int) -> bool {
        self.ongoing is Some && (choice == 1 || choice == 2)
    }

    /// Whether `(after, office_after)` is what the answer `choice`, given at
    /// time `now`, makes of this scheduler and of `office`, where `period` is
    /// what chance gives for the next wait. An answer that cannot be given
    /// changes nothing.
    pub open spec fn chosen(
        self,
        office: OfficeModel,
        choice: int,
        now: int,
        period: int,
        after: SchedulerModel,
        office_after: OfficeModel,
    ) -> bool {
        if self.can_choose(choice) {
            &&& after == self.quit(self.explication_of(choice), now, period)
            &&& office.effect_applied(self.effect_of(choice), office_after)
        } else {
            after == self && office_after == office
        }
    }
}

impl QteScheduler {
    /// A scheduler over the catalog `qtes`, waiting for its first event; `None`
    /// where the catalog is empty, or longer than a draw can tell apart.
    pub fn new(qtes: Vec<QTE>) -> (r: Option<QteScheduler>)
        ensures
            r is Some <==> usable(qtes@.len() as int),
            r matches Some(s) ==> s@ == SchedulerModel::initial(catalog(qtes@)) && s@.wf(),
    {
        if qtes.len() > 0 && qtes.len() <= RANDOM_LIMIT as usize {
            Some(
                QteScheduler {
                    qtes,
                    qte_ongoing: None,
                    starting_time_qte: 0,
                    waiting_time_qte: 0,
                    next_time_qte: FIRST_PERIOD_WITHOUT_QTE,
                    answer: None,
                    starting_time_answer: 0,
                },
            )
        } else {
            None
        }
    }

    /// Goes back to waiting for the first event.
    pub fn reset(&mut self)
        requires
            old(self)@.wf(),
        ensures
            final(self)@ == SchedulerModel::initial(old(self)@.qtes),
            final(self)@.wf(),
    {
        self.qte_ongoing = None;
        self.starting_time_qte = 0;
        self.waiting_time_qte = 0;
        self.next_time_qte = FIRST_PERIOD_WITHOUT_QTE;
        self.answer = None;
        self.starting_time_answer = 0;
    }

    /// What the scheduler is doing.
    pub fn phase(&self) -> (p: QtePhase)
        ensures
            p == self@.phase(),
    {
        if self.qte_ongoing.is_some() {
            QtePhase::Active
        } else if self.answer.is_some() {
            QtePhase::Resolved
        } else {
            QtePhase::Idle
        }
    }

    /// The event that is put, if one is.
    pub fn get_qte_ongoing(&self) -> (r: Option<&QTE>)
        requires
            self@.wf(),
        ensures
            r is Some <==> self@.ongoing is Some,
            r matches Some(q) ==> q@ == self@.current(),
    {
        match self.qte_ongoing {
            Some(i) => Some(&self.qtes[i]),
            None => None,
        }
    }

    /// The explanation that is shown, if one is.
    pub fn get_answer(&self) -> (r: Option<&str>)
        ensures
            r is Some <==> self@.answer is Some,
            r matches Some(s) ==> s@ == self@.answer.unwrap(),
    {
        match &self.answer {
            Some(s) => Some(s.as_str()),
            None => None,
        }
    }

    /// When the event was put, in milliseconds.
    pub fn get_starting_time_qte(&self) -> (t: u64)
        ensures
            t == self@.starting_time_qte,
    {
        self.starting_time_qte
    }

    /// The ticks spent waiting since the last event.
    pub fn get_waiting_time_qte(&self) -> (t: u64)
        ensures
            t == self@.waiting,
    {
        self.waiting_time_qte
    }

    /// The ticks to wait for the next event.
    pub fn get_next_time_qte(&self) -> (t: u64)
        ensures
            t == self@.next,
    {
        self.next_time_qte
    }

    /// The events of the catalog.
    pub fn get_qtes(&self) -> (r: &Vec<QTE>)
        ensures
            catalog(r@) == self@.qtes,
    {
        &self.qtes
    }

    /// Draws a wait for the next event.
    pub fn draw_period() -> (period: u64)
        ensures
            is_period(period as int),
    {
        let ticks: u32 = draw_between(900, 1_200).unwrap();
        ticks as u64
    }

    /// Draws an event of the catalog.
    pub fn draw_pick(&self) -> (pick: usize)
        requires
            self@.wf(),
        ensures
            pick < self@.qtes.len(),
    {
        draw_index(self.qtes.len()).unwrap()
    }

    /// Puts the event at place `pick` of the catalog, at time `now`.
    pub fn launch_with(&mut self, now: u64, pick: usize)
        requires
            old(self)@.wf(),
            old(self)@.answer is None,
            pick < old(self)@.qtes.len(),
        ensures
            final(self)@ == old(self)@.launched(now as int, pick),
            final(self)@.wf(),
    {
        self.qte_ongoing = Some(pick);
        self.starting_time_qte = now;
        self.waiting_time_qte = 0;
    }

    /// Puts an event of the catalog, drawn at random, at time `now`. Returns
    /// whether it did; while an explanation is shown it does not.
    pub fn launch_qte(&mut self, now: u64) -> (done: bool)
        requires
            old(self)@.wf(),
        ensures
            done == old(self)@.answer is None,
            !done ==> final(self)@ == old(self)@,
            done ==> exists|pick: usize|
                pick < old(self)@.qtes.len() && final(self)@ == #[trigger] old(self)@.launched(
                    now as int,
                    pick,
                ),
            final(self)@.wf(),
    {
        if self.answer.is_none() {
            let pick: usize = self.draw_pick();
            self.launch_with(now, pick);
            true
        } else {
            false
        }
    }

    /// Takes the question down at time `now`, shows `answer`, and waits
    /// `period` ticks for the next event.
    pub fn quit_with(&mut self, answer: String, now: u64, period: u64)
        requires
            old(self)@.wf(),
            is_period(period as int),
        ensures
            final(self)@ == old(self)@.quit(answer@, now as int, period as int),
            final(self)@.wf(),
    {
        self.qte_ongoing = None;
        self.answer = Some(answer);
        self.starting_time_answer = now;
        self.next_time_qte = period;
        self.waiting_time_qte = 0;
    }

    /// Takes the question down at time `now`, shows `answer`, and draws the
    /// wait for the next event.
    pub fn quit_qte(&mut self, answer: String, now: u64)
        requires
            old(self)@.wf(),
        ensures
            exists|period: int|
                is_period(period) && final(self)@ == #[trigger] old(self)@.quit(
                    answer@,
                    now as int,
                    period,
                ),
            final(self)@.wf(),
    {
        let period: u64 = QteScheduler::draw_period();
        self.quit_with(answer, now, period);
        proof {
            assert(self@ == old(self)@.quit(answer@, now as int, period as int));
        }
    }

    /// Advances the scheduler by one tick at time `now`, with `pick` and
    /// `period` for what chance gives. Where the time to answer has run out,
    /// the effect of the first answer takes hold of `office`.
    pub fn advance_with(&mut self, now: u64, office: &mut Office, pick: usize, period: u64) -> (event:
        QteEvent)
        requires
            old(self)@.wf(),
            old(office)@.wf(),
            pick < old(self)@.qtes.len(),
            is_period(period as int),
        ensures
            old(self)@.advanced(
                old(office)@,
                now as int,
                pick,
                period as int,
                final(self)@,
                final(office)@,
            ),
            event == old(self)@.event_at(now as int),
            final(self)@.wf(),
            final(office)@.wf(),
    {
        match self.qte_ongoing {
            Some(i) => {
                if elapsed_since(now, self.starting_time_qte) > self.qtes[i].get_time() {
                    let effect: QteEffect = *self.qtes[i].get_effect_1();
                    let answer: String = self.qtes[i].get_explication1().to_owned();
                    office.apply_qte_effect(&effect);
                    self.quit_with(answer, now, period);
                    QteEvent::TimedOut
                } else {
                    QteEvent::Nothing
                }
            },
            None => {
                if self.answer.is_some() {
                    if elapsed_since(now, self.starting_time_answer) > DISPLAY_ANSWER_TIME {
                        self.answer = None;
                        QteEvent::Dismissed
                    } else {
                        QteEvent::Nothing
                    }
                } else {
                    if self.waiting_time_qte + 1 > self.next_time_qte {
                        self.launch_with(now, pick);
                        QteEvent::Launched
                    } else {
                        self.waiting_time_qte = self.waiting_time_qte + 1;
                        QteEvent::Nothing
                    }
                }
            },
        }
    }

    /// Advances the scheduler by one tick at time `now`, drawing at random
    /// what it needs.
    pub fn advance(&mut self, now: u64, office: &mut Office) -> (event: QteEvent)
        requires
            old(self)@.wf(),
            old(office)@.wf(),
        ensures
            exists|pick: usize, period: int|
                pick < old(self)@.qtes.len() && is_period(period) && #[trigger] old(self)@.advanced(
                    old(office)@,
                    now as int,
                    pick,
                    period,
                    final(self)@,
                    final(office)@,
                ),
            event == old(self)@.event_at(now as int),
            final(self)@.wf(),
            final(office)@.wf(),
    {
        let timed_out: bool = match self.qte_ongoing {
            Some(i) => elapsed_since(now, self.starting_time_qte) > self.qtes[i].get_time(),
            None => false,
        };
        let wait_over: bool = self.qte_ongoing.is_none() && self.answer.is_none()
            && self.waiting_time_qte + 1 > self.next_time_qte;
        let pick: usize = if wait_over {
            self.draw_pick()
        } else {
            0
        };
        let period: u64 = if timed_out {
            QteScheduler::draw_period()
        } else {
            MIN_PERIOD_WITHOUT_QTE
        };
        let event: QteEvent = self.advance_with(now, office, pick, period);
        proof {
            assert(old(self)@.advanced(
                old(office)@,
                now as int,
                pick,
                period as int,
                self@,
                office@,
            ));
        }
        event
    }

    /// Gives the answer `choice`, 1 or 2, at time `now`, with `period` for the
    /// wait that chance gives: its effect takes hold of `office`, and its
    /// explanation is shown. Returns whether the answer could be given; where
    /// not, nothing changes.
    pub fn choose_answer_with(&mut self, choice: u8, now: u64, office: &mut Office, period: u64) -> (done:
        bool)
        requires
            old(self)@.wf(),
            old(office)@.wf(),
            is_period(period as int),
        ensures
            done == old(self)@.can_choose(choice as int),
            old(self)@.chosen(
                old(office)@,
                choice as int,
                now as int,
                period as int,
                final(self)@,
                final(office)@,
            ),
            final(self)@.wf(),
            final(office)@.wf(),
    {
        match self.qte_ongoing {
            Some(i) => {
                if choice == 1 {
                    let effect: QteEffect = *self.qtes[i].get_effect_1();
                    let answer: String = self.qtes[i].get_explication1().to_owned();
                    office.apply_qte_effect(&effect);
                    self.quit_with(answer, now, period);
                    true
                } else if choice == 2 {
                    let effect: QteEffect = *self.qtes[i].get_effect_2();
                    let answer: String = self.qtes[i].get_explication2().to_owned();
                    office.apply_qte_effect(&effect);
                    self.quit_with(answer, now, period);
                    true
                } else {
                    false
                }
            },
            None => false,
        }
    }

    /// Gives the answer `choice`, 1 or 2, at time `now`, and draws the wait for
    /// the next event.
    pub fn choose_answer(&mut self, choice: u8, now: u64, office: &mut Office) -> (done: bool)
        requires
            old(self)@.wf(),
            old(office)@.wf(),
        ensures
            done == old(self)@.can_choose(choice as int),
            exists|period: int|
                is_period(period) && #[trigger] old(self)@.chosen(
                    old(office)@,
                    choice as int,
                    now as int,
                    period,
                    final(self)@,
                    final(office)@,
                ),
            final(self)@.wf(),
            final(office)@.wf(),
    {
        let period: u64 = QteScheduler::draw_period();
        let done: bool = self.choose_answer_with(choice, now, office, period);
        proof {
            assert(old(self)@.chosen(
                old(office)@,
                choice as int,
                now as int,
                period as int,
                self@,
                office@,
            ));
        }
        done
    }
}

} // verus!
