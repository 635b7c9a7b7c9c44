//! The game: an office, the scheduler of its events, the cooldowns of the
//! player's buttons, and the rule that ends it.
use vstd::prelude::*;
use crate::catalog::{default_qtes, is_default_catalog};
use crate::employee::{EmployeeAction, GameState};
use crate::fixed::{elapsed, elapsed_since};
use crate::geometry::Position;
use crate::office::{boost, Office, OfficeModel, BONUS_METH_COST, BONUS_RH_COST};
use crate::qte::QTE;
use crate::scheduler::{is_period, QteEvent, QteScheduler, SchedulerModel};

verus! {

/// How long the door button rests after a press, in milliseconds.
pub const DOOR_CD: u64 = 500;

/// How long the hiring button rests after a press, in milliseconds.
pub const RH_CD: u64 = 3_000;

/// How long the boost button rests after a press, in milliseconds.
pub const METH_CD: u64 = 5_000;

/// What the player asks for.
#[derive(Clone, Copy, Debug)]
pub enum Command {
    /// A click in the office, at the given point.
    Click(Position),
    /// The first or the second answer to the question that is put.
    Choose(u8),
    /// A press on the door button.
    Door,
    /// A press on the boost button.
    Meth,
    /// A press on the hiring button.
    Rh,
    /// A press on the button of an action of the selected employee. On a dead
    /// employee the button of the break cleans it away.
    Action(EmployeeAction),
}

/// The game as contracts see it.
pub struct GameModel {
    pub office: OfficeModel,
    pub scheduler: SchedulerModel,
    pub game_state: GameState,
    /// When the door button was pressed, while it rests.
    pub door_start_cd: Option<u64>,
    /// When the hiring button was pressed, while it rests.
    pub rh_start_cd: Option<u64>,
    /// When the boost button was pressed, while it rests.
    pub meth_start_cd: Option<u64>,
}

/// The game.
pub struct Game {
    office: Office,
    scheduler: QteScheduler,
    game_state: GameState,
    door_start_cd: Option<u64>,
    rh_start_cd: Option<u64>,
    meth_start_cd: Option<u64>,
}

impl View for Game {
    type V = GameModel;

    closed spec fn view(&self) -> GameModel {
        GameModel {
            office: self.office@,
            scheduler: self.scheduler@,
            game_state: self.game_state,
            door_start_cd: self.door_start_cd,
            rh_start_cd: self.rh_start_cd,
            meth_start_cd: self.meth_start_cd,
        }
    }
}

/// A cooldown at time `now`: over once more than `limit` has passed since it
/// started.
pub open spec fn cooled(start: Option<u64>, now: int, limit: int) -> Option<u64> {
    match start {
        Some(t) => if elapsed(now, t as int) > limit {
            None
        } else {
            Some(t)
        },
        None => None,
    }
}

impl GameModel {
    /// Whether the office and the scheduler are in states that they can reach.
    pub open spec fn wf(self) -> bool {
        self.office.wf() && self.scheduler.wf()
    }

    /// First part of a tick of a running game: the office ticks, and the
    /// cooldowns that are over end.
    pub open spec fn settled(self, now: int) -> GameModel {
        GameModel {
            office: self.office.after_tick(),
            door_start_cd: cooled(self.door_start_cd, now, DOOR_CD as int),
            rh_start_cd: cooled(self.rh_start_cd, now, RH_CD as int),
            meth_start_cd: cooled(self.meth_start_cd, now, METH_CD as int),
            ..self
        }
    }

    /// Whether `post` differs from this game in office and scheduler at most.
    pub open spec fn same_controls(self, post: GameModel) -> bool {
        &&& post.game_state == self.game_state
        &&& post.door_start_cd == self.door_start_cd
        &&& post.rh_start_cd == self.rh_start_cd
        &&& post.meth_start_cd == self.meth_start_cd
    }

    /// The office after a press on the button of `action`: the selected
    /// employee takes the action up or drops it if it is alive, and is cleaned
    /// away if it is dead and the action is the break.
    pub open spec fn office_after_action(self, action: EmployeeAction) -> OfficeModel {
        if self.office.selected is Some && action is Break && self.office.employees[self.office.holder(
            self.office.selected.unwrap(),
        )].state is Dead {
            self.office.with_selected_cleaned()
        } else {
            self.office.with_selected_toggled(action)
        }
    }

    /// Whether `command` can be carried out: a click that picks an employee,
    /// an answer to a question that is put, a press on a button that is ready
    /// and, where it costs, that the till can pay, an action for a selected
    /// employee who is alive, or the break for one who is dead.
    pub open spec fn accepts(self, command: Command) -> bool {
        match command {
            Command::Click(pos) => self.office.picked(pos) is Some,
            Command::Choose(choice) => self.scheduler.can_choose(choice as int),
            Command::Door => self.door_start_cd is None,
            Command::Meth => self.meth_start_cd is None && self.office.money >= BONUS_METH_COST,
            Command::Rh => self.rh_start_cd is None && self.office.money >= BONUS_RH_COST,
            Command::Action(action) => self.office.selected is Some && {
                let state = self.office.employees[self.office.holder(
                    self.office.selected.unwrap(),
                )].state;
                state is Alive || (state is Dead && action is Break)
            },
        }
    }

    /// Whether `post` is what `command`, given at time `now`, makes of this
    /// game. A click that reaches nobody, a press on a button that rests, a
    /// purchase that the till cannot pay, and an answer where no question is
    /// put change nothing.
    pub open spec fn commanded(self, command: Command, now: u64, post: GameModel) -> bool {
        match command {
            Command::Click(pos) => post == (GameModel {
                office: self.office.after_click(pos),
                ..self
            }),
            Command::Choose(choice) => {
                &&& self.same_controls(post)
                &&& exists|period: int|
                    is_period(period) && #[trigger] self.scheduler.chosen(
                        self.office,
                        choice as int,
                        now as int,
                        period,
                        post.scheduler,
                        post.office,
                    )
            },
            Command::Door => post == if self.door_start_cd is None {
                GameModel {
                    office: self.office.with_door_toggled(),
                    door_start_cd: Some(now),
                    ..self
                }
            } else {
                self
            },
            Command::Meth => post == if self.meth_start_cd is None && self.office.money
                >= BONUS_METH_COST {
                GameModel {
                    office: self.office.paid(BONUS_METH_COST as int).shifted(boost()),
                    meth_start_cd: Some(now),
                    ..self
                }
            } else {
                self
            },
            Command::Rh => if self.rh_start_cd is None && self.office.money >= BONUS_RH_COST {
                &&& self.office.paid(BONUS_RH_COST as int).hired(1, post.office)
                &&& post == (GameModel { office: post.office, rh_start_cd: Some(now), ..self })
            } else {
                post == self
            },
            Command::Action(action) => post == (GameModel {
                office: self.office_after_action(action),
                ..self
            }),
        }
    }

    /// Whether `mid` is what one tick of the scheduler at time `now` makes of
    /// this game, where `pick` and `period` are what chance gives.
    pub open spec fn event_step(self, now: u64, pick: usize, period: int, mid: GameModel) -> bool {
        &&& self.same_controls(mid)
        &&& self.scheduler.advanced(
            self.office,
            now as int,
            pick,
            period,
            mid.scheduler,
            mid.office,
        )
    }

    /// Whether `post` is what the events of one tick at time `now` make of
    /// this game: first the scheduler advances, then the command of the
    /// player, if there is one, is carried out.
    pub open spec fn handled(self, now: u64, command: Option<Command>, post: GameModel) -> bool {
        exists|pick: usize, period: int, mid: GameModel|
            pick < self.scheduler.qtes.len() && is_period(period) && #[trigger] self.event_step(
                now,
                pick,
                period,
                mid,
            ) && match command {
                Some(c) => mid.commanded(c, now, post),
                None => post == mid,
            }
    }

    /// Last part of a tick of a running game: the game is over once the office
    /// is lost and no explanation is left to show.
    pub open spec fn concluded(self) -> GameModel {
        GameModel {
            game_state: if self.office.game_state is GameOver && self.scheduler.answer is None {
                GameState::GameOver
            } else {
                self.game_state
            },
            ..self
        }
    }

    /// Whether `post` is what one tick at time `now` makes of this game. A
    /// game that is not running does not change.
    pub open spec fn ticked(self, now: u64, command: Option<Command>, post: GameModel) -> bool {
        if self.game_state is Running {
            exists|mid: GameModel| #[trigger]
                self.settled(now as int).handled(now, command, mid) && post == mid.concluded()
        } else {
            post == self
        }
    }
}

/// Computes [`cooled`].
fn cool(start: Option<u64>, now: u64, limit: u64) -> (r: Option<u64>)
    ensures
        r == cooled(start, now as int, limit as int),
{
    match start {
        Some(t) => if elapsed_since(now, t) > limit {
            None
        } else {
            Some(t)
        },
        None => None,
    }
}

impl Game {
    /// A game in its menu: an office with its first employee, the catalog of
    /// events, and every button ready.
    pub fn new() -> (game: Game)
        ensures
            game@.wf(),
            game@.game_state is MyLittleOfficeMenu,
            OfficeModel::initial().hired(1, game@.office),
            game@.scheduler.phase() is Idle,
            game@.scheduler.waiting == 0,
            exists|qtes: Seq<QTE>|
                is_default_catalog(qtes) && game@.scheduler == SchedulerModel::initial(
                    #[trigger] crate::scheduler::catalog(qtes),
                ),
            game@.door_start_cd is None && game@.rh_start_cd is None && game@.meth_start_cd
                is None,
    {
        let mut office: Office = Office::new();
        office.hire(1);
        let qtes: Vec<QTE> = default_qtes();
        let ghost listed = qtes@;
        let scheduler: QteScheduler = QteScheduler::new(qtes).unwrap();
        let game = Game {
            office,
            scheduler,
            game_state: GameState::MyLittleOfficeMenu,
            door_start_cd: None,
            rh_start_cd: None,
            meth_start_cd: None,
        };
        proof {
            assert(is_default_catalog(listed) && game@.scheduler == SchedulerModel::initial(
                crate::scheduler::catalog(listed),
            ));
        }
        game
    }

    pub fn get_office(&self) -> (r: &Office)
        ensures
            r@ == self@.office,
    {
        &self.office
    }

    pub fn get_mut_office(&mut self) -> (r: &mut Office)
        ensures
            r@ == old(self)@.office,
            final(self)@ == (GameModel { office: final(r)@, ..old(self)@ }),
    {
        &mut self.office
    }

    pub fn get_scheduler(&self) -> (r: &QteScheduler)
        ensures
            r@ == self@.scheduler,
    {
        &self.scheduler
    }

    /// The event that is put, if one is.
    pub fn get_qte_ongoing(&self) -> (r: Option<&QTE>)
        requires
            self@.wf(),
        ensures
            r is Some <==> self@.scheduler.ongoing is Some,
            r matches Some(q) ==> q@ == self@.scheduler.current(),
    {
        self.scheduler.get_qte_ongoing()
    }

    /// The explanation that is shown, if one is.
    pub fn get_answer(&self) -> (r: Option<&str>)
        ensures
            r is Some <==> self@.scheduler.answer is Some,
            r matches Some(s) ==> s@ == self@.scheduler.answer.unwrap(),
    {
        self.scheduler.get_answer()
    }

    /// When the door button was pressed, while it rests.
    pub fn get_start_door_cd(&self) -> (r: Option<u64>)
        ensures
            r == self@.door_start_cd,
    {
        self.door_start_cd
    }

    /// When the hiring button was pressed, while it rests.
    pub fn get_start_rh_cd(&self) -> (r: Option<u64>)
        ensures
            r == self@.rh_start_cd,
    {
        self.rh_start_cd
    }

    /// When the boost button was pressed, while it rests.
    pub fn get_start_meth_cd(&self) -> (r: Option<u64>)
        ensures
            r == self@.meth_start_cd,
    {
        self.meth_start_cd
    }

    pub fn get_game_state(&self) -> (r: GameState)
        ensures
            r == self@.game_state,
    {
        self.game_state
    }

    /// Leaves the menu, or enters it.
    pub fn set_game_state(&mut self, game_state: GameState)
        ensures
            final(self)@ == (GameModel { game_state, ..old(self)@ }),
    {
        self.game_state = game_state;
    }

    /// Starts over: the office and the scheduler are as in a new game, every
    /// button is ready, and the game runs.
    pub fn restart(&mut self)
        requires
            old(self)@.wf(),
        ensures
            final(self)@.wf(),
            final(self)@.game_state is Running,
            OfficeModel::initial().hired(1, final(self)@.office),
            final(self)@.scheduler == SchedulerModel::initial(old(self)@.scheduler.qtes),
            final(self)@.door_start_cd is None,
            final(self)@.rh_start_cd is None,
            final(self)@.meth_start_cd is None,
    {
        self.office.start();
        self.office.hire(1);
        self.scheduler.reset();
        self.game_state = GameState::Running;
        self.door_start_cd = None;
        self.rh_start_cd = None;
        self.meth_start_cd = None;
    }

    /// Carries out a command of the player at time `now`. Returns whether it
    /// could be carried out; where not, the game stays as it is.
    pub fn handle(&mut self, command: Command, now: u64) -> (done: bool)
        requires
            old(self)@.wf(),
        ensures
            done == old(self)@.accepts(command),
            old(self)@.commanded(command, now, final(self)@),
            final(self)@.wf(),
    {
        match command {
            Command::Click(pos) => self.office.click(pos),
            Command::Choose(choice) => self.scheduler.choose_answer(choice, now, &mut self.office),
            Command::Door => {
                if self.door_start_cd.is_none() {
                    self.office.update_door();
                    self.door_start_cd = Some(now);
                    true
                } else {
                    false
                }
            },
            Command::Meth => {
                if self.meth_start_cd.is_none() && self.office.bonus_meth() {
                    self.meth_start_cd = Some(now);
                    true
                } else {
                    false
                }
            },
            Command::Rh => {
                if self.rh_start_cd.is_none() && self.office.bonus_rh() {
                    self.rh_start_cd = Some(now);
                    true
                } else {
                    false
                }
            },
            Command::Action(action) => {
                let dead: bool = match self.office.get_selected_employee() {
                    Some(e) => e.get_state() == crate::employee::EmployeeState::Dead,
                    None => false,
                };
                if dead && action == EmployeeAction::Break {
                    self.office.clean_selected()
                } else {
                    self.office.set_selected_action(action)
                }
            },
        }
    }

    /// The events of one tick at time `now`: the scheduler advances, then the
    /// command of the player, if there is one, is carried out.
    pub fn in_game_event_handling(&mut self, now: u64, command: Option<Command>) -> (event:
        QteEvent)
        requires
            old(self)@.wf(),
        ensures
            old(self)@.handled(now, command, final(self)@),
            event == old(self)@.scheduler.event_at(now as int),
            final(self)@.wf(),
    {
        let event: QteEvent = self.scheduler.advance(now, &mut self.office);
        let ghost mid = self@;
        proof {
            let (pick, period): (usize, int) = choose|pick: usize, period: int|
                pick < old(self)@.scheduler.qtes.len() && is_period(period)
                    && #[trigger] old(self)@.scheduler.advanced(
                    old(self)@.office,
                    now as int,
                    pick,
                    period,
                    mid.scheduler,
                    mid.office,
                );
            assert(old(self)@.event_step(now, pick, period, mid));
        }
        match command {
            Some(c) => {
                let done: bool = self.handle(c, now);
            },
            None => {},
        }
        event
    }

    /// Advances the game by one tick at time `now`, with the command of the
    /// player, if there is one. A game that is not running does not change.
    pub fn tick(&mut self, now: u64, command: Option<Command>)
        requires
            old(self)@.wf(),
        ensures
            old(self)@.ticked(now, command, final(self)@),
            final(self)@.wf(),
    {
        if self.game_state == GameState::Running {
            self.office.tick();
            self.door_start_cd = cool(self.door_start_cd, now, DOOR_CD);
            self.rh_start_cd = cool(self.rh_start_cd, now, RH_CD);
            self.meth_start_cd = cool(self.meth_start_cd, now, METH_CD);
            assert(self@ == old(self)@.settled(now as int));
            let event: QteEvent = self.in_game_event_handling(now, command);
            let ghost mid = self@;
            if self.office.is_game_over() && self.scheduler.get_answer().is_none() {
                self.game_state = GameState::GameOver;
            }
            assert(old(self)@.settled(now as int).handled(now, command, mid));
            assert(self@ == mid.concluded());
        }
    }
}

} // verus!
