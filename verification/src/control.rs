//! The control loop, one decision at a time.
//!
//! The loop talks to nothing. It hands its caller one [`Command`] at a time
//! and is told the [`Outcome`] of each; the caller carries the commands out,
//! in order and for ever:
//!
//! 1. `QueryPosition`: ask the device where the pointer is;
//! 2. `MoveTo`, or `NoAction` in a tick without a move;
//! 3. `Click`, where clicks were asked for;
//! 4. `Sleep` until the next tick.
//!
//! No outcome but a position that cannot be narrowed stops the loop: a
//! query that fails is answered from the origin, and a move or a click that
//! fails is followed by the same command as one that went well.

use vstd::prelude::*;

use crate::config::Config;
use crate::pattern::{lemma_every_tick_moves, Action};
use crate::position::{CoordinateRangeError, MousePoint, Point};

verus! {

/// What the loop remembers from one tick to the next.
#[derive(Clone, Copy, Debug, PartialEq, Eq, Structural)]
pub struct LoopState {
    /// The action of the tick before; `Stay` before the first.
    pub previous_action: Action,
}

/// The command whose outcome the loop is waiting for.
#[derive(Clone, Copy, Debug, PartialEq, Eq, Structural)]
pub enum Phase {
    /// Between two ticks: none, or the sleep that ended the last tick.
    Resting,
    /// The position query.
    Locating,
    /// The move, or the notice that this tick has none.
    Moving,
    /// The click.
    Clicking,
}

/// What the caller is to do next.
#[derive(Clone, Copy, Debug, PartialEq, Eq, Structural)]
pub enum Command {
    /// Ask the device where the pointer is.
    QueryPosition,
    /// Send the pointer to this position.
    MoveTo(MousePoint),
    /// This tick moves nothing; there is at most a line to log.
    NoAction,
    /// Press and release the primary button where the pointer is.
    Click,
    /// Do nothing for this many seconds.
    Sleep(u64),
}

/// What came of the last command.
#[derive(Clone, Copy, Debug, PartialEq, Eq, Structural)]
pub enum Outcome {
    /// It was carried out. Also the outcome to begin with, when there has
    /// been no command yet.
    Done,
    /// The device refused.
    Failed,
    /// The device reported this position.
    Position(Point),
}

/// The loop: its settings, its memory and its place in the tick.
#[derive(Clone, Copy, Debug, PartialEq, Eq, Structural)]
pub struct ControlLoop {
    pub config: Config,
    pub state: LoopState,
    pub phase: Phase,
}

impl LoopState {
    /// The memory of a loop that has not moved yet.
    pub open spec fn initial() -> LoopState {
        LoopState { previous_action: Action::Stay }
    }

    /// The memory of a loop that has not moved yet.
    #[verifier::when_used_as_spec(initial)]
    pub fn new() -> (state: LoopState)
        ensures
            state == LoopState::initial(),
    {
        LoopState { previous_action: Action::Stay }
    }
}

impl Outcome {
    /// The position that a query's outcome stands for: the one reported,
    /// or the origin where none was.
    pub open spec fn located(&self) -> Point {
        match self {
            Outcome::Position(point) => *point,
            _ => Point::origin(),
        }
    }

    /// The position that a query's outcome stands for: the one reported,
    /// or the origin where none was.
    #[verifier::when_used_as_spec(located)]
    pub fn position_or_origin(&self) -> (point: Point)
        ensures
            point == self.located(),
    {
        match self {
            Outcome::Position(point) => *point,
            _ => Point::origin(),
        }
    }
}

impl ControlLoop {
    /// A loop before its first tick.
    pub open spec fn started(config: Config) -> ControlLoop {
        ControlLoop { config, state: LoopState::initial(), phase: Phase::Resting }
    }

    /// A loop before its first tick. Its first command is had by telling
    /// it `Outcome::Done`.
    #[verifier::when_used_as_spec(started)]
    pub fn new(config: Config) -> (control: ControlLoop)
        ensures
            control == ControlLoop::started(config),
    {
        ControlLoop { config, state: LoopState::new(), phase: Phase::Resting }
    }

    /// The action of the tick under way, or about to begin.
    pub open spec fn action(&self) -> Action {
        self.config.pattern.successor(self.state.previous_action)
    }

    /// The action of the tick under way, or about to begin.
    #[verifier::when_used_as_spec(action)]
    pub fn current_action(&self) -> (action: Action)
        ensures
            action == self.action(),
    {
        self.config.pattern.next_action(self.state.previous_action)
    }

    /// The command that takes the pointer from `at` by this tick's action.
    pub open spec fn movement(&self, at: MousePoint) -> Command {
        match at.target(self.action(), self.config.step) {
            Some(target) => Command::MoveTo(target),
            None => Command::NoAction,
        }
    }

    /// The command that ends a tick.
    pub open spec fn rest(&self) -> Command {
        Command::Sleep(self.config.interval_seconds)
    }

    /// Whether the loop can be told `outcome`: always, but for a reported
    /// position from which this tick's move would lead out of `i32`.
    pub open spec fn admits(&self, outcome: Outcome) -> bool {
        self.phase == Phase::Locating ==> match outcome.located().narrowed() {
            Ok(at) => at.reaches(self.action(), self.config.step),
            Err(_) => true,
        }
    }

    /// The loop's answer to `outcome`: the next command, or the coordinate
    /// on which the loop ends.
    pub open spec fn reply(&self, outcome: Outcome) -> Result<Command, CoordinateRangeError> {
        match self.phase {
            Phase::Resting => Ok(Command::QueryPosition),
            Phase::Locating => match outcome.located().narrowed() {
                Ok(at) => Ok(self.movement(at)),
                Err(error) => Err(error),
            },
            Phase::Moving => Ok(
                if self.config.click {
                    Command::Click
                } else {
                    self.rest()
                },
            ),
            Phase::Clicking => Ok(self.rest()),
        }
    }

    /// The loop at rest when the tick under way is over: the tick's action
    /// is now the one remembered.
    pub open spec fn ended(&self) -> ControlLoop {
        ControlLoop {
            config: self.config,
            state: LoopState { previous_action: self.action() },
            phase: Phase::Resting,
        }
    }

    /// The loop after it was told `outcome`.
    ///
    /// The settings never change. The phases follow each other in a ring,
    /// which leaves the click out where none was asked for. The tick is
    /// over when its last command before the sleep has been answered,
    /// whatever the answers were. A loop that has ended on a position out
    /// of range stays as it was.
    pub open spec fn after(&self, outcome: Outcome) -> ControlLoop {
        match self.phase {
            Phase::Resting => ControlLoop { phase: Phase::Locating, ..*self },
            Phase::Locating => if outcome.located().narrowed() is Ok {
                ControlLoop { phase: Phase::Moving, ..*self }
            } else {
                *self
            },
            Phase::Moving => if self.config.click {
                ControlLoop { phase: Phase::Clicking, ..*self }
            } else {
                self.ended()
            },
            Phase::Clicking => self.ended(),
        }
    }

    /// The loop at rest after `ticks` whole ticks.
    pub open spec fn rested(config: Config, ticks: nat) -> ControlLoop
        decreases ticks,
    {
        if ticks == 0 {
            ControlLoop::started(config)
        } else {
            ControlLoop::rested(config, (ticks - 1) as nat).ended()
        }
    }

    /// The number of commands in a tick: four with the click, three without.
    pub open spec fn tick_length(config: Config) -> nat {
        if config.click {
            4
        } else {
            3
        }
    }

    /// The loop after it was told `outcomes`, one after the other.
    pub open spec fn after_all(&self, outcomes: Seq<Outcome>) -> ControlLoop
        decreases outcomes.len(),
    {
        if outcomes.len() == 0 {
            *self
        } else {
            self.after_all(outcomes.drop_last()).after(outcomes.last())
        }
    }

    /// Whether the loop goes on through all of `outcomes`: none of them is
    /// the position out of range on which it would end.
    pub open spec fn survives(&self, outcomes: Seq<Outcome>) -> bool
        decreases outcomes.len(),
    {
        outcomes.len() == 0 || (self.survives(outcomes.drop_last()) && self.after_all(
            outcomes.drop_last(),
        ).reply(outcomes.last()) is Ok)
    }

    /// The loop that has been told `told` outcomes since its start: some
    /// whole ticks behind it, and the rest of `told` into the next.
    pub open spec fn progressed(config: Config, told: nat) -> ControlLoop {
        let length = ControlLoop::tick_length(config);
        ControlLoop {
            config,
            state: ControlLoop::rested(config, told / length).state,
            phase: if told % length == 0 {
                Phase::Resting
            } else if told % length == 1 {
                Phase::Locating
            } else if told % length == 2 {
                Phase::Moving
            } else {
                Phase::Clicking
            },
        }
    }

    /// Whether the loop can be told `outcome`.
    #[verifier::when_used_as_spec(admits)]
    pub fn can_step(&self, outcome: Outcome) -> (admitted: bool)
        ensures
            admitted == self.admits(outcome),
    {
        match self.phase {
            Phase::Locating => match outcome.position_or_origin().into_mouse_point() {
                Ok(at) => at.can_reach(self.current_action(), self.config.step),
                Err(_) => true,
            },
            _ => true,
        }
    }

    /// Tells the loop what came of its last command, and has the next.
    ///
    /// An `Err` is final: the reported position cannot be narrowed, and the
    /// loop is left as it was.
    pub fn step(&mut self, outcome: Outcome) -> (command: Result<Command, CoordinateRangeError>)
        requires
            old(self).admits(outcome),
        ensures
            command == old(self).reply(outcome),
            *final(self) == old(self).after(outcome),
            final(self).config == old(self).config,
    {
        match self.phase {
            Phase::Resting => {
                self.phase = Phase::Locating;
                Ok(Command::QueryPosition)
            },
            Phase::Locating => {
                let at: MousePoint = match outcome.position_or_origin().into_mouse_point() {
                    Ok(at) => at,
                    Err(error) => {
                        return Err(error);
                    },
                };
                self.phase = Phase::Moving;
                match at.offset(self.current_action(), self.config.step) {
                    Some(target) => Ok(Command::MoveTo(target)),
                    None => Ok(Command::NoAction),
                }
            },
            Phase::Moving => {
                if self.config.click {
                    self.phase = Phase::Clicking;
                    Ok(Command::Click)
                } else {
                    Ok(self.finish_tick())
                }
            },
            Phase::Clicking => Ok(self.finish_tick()),
        }
    }

    /// Remembers this tick's action and goes to rest.
    fn finish_tick(&mut self) -> (command: Command)
        ensures
            command == old(self).rest(),
            *final(self) == old(self).ended(),
    {
        self.state.previous_action = self.current_action();
        self.phase = Phase::Resting;
        Command::Sleep(self.config.interval_seconds)
    }
}

/// One whole tick, from rest to rest.
///
/// Whatever the four outcomes are, so long as the position can be narrowed:
/// the commands are the query, the move from the position that the query
/// stands for, the click where clicks were asked for, and the sleep; and
/// the loop is at rest again with this tick's action for its memory. A tick
/// without clicks has three commands and is over one outcome earlier.
pub proof fn lemma_tick(
    control: ControlLoop,
    begun: Outcome,
    queried: Outcome,
    moved: Outcome,
    clicked: Outcome,
)
    requires
        control.phase == Phase::Resting,
        queried.located().narrowed() is Ok,
    ensures
        control.reply(begun) == Ok::<Command, CoordinateRangeError>(Command::QueryPosition),
        control.after(begun).reply(queried) == Ok::<Command, CoordinateRangeError>(
            control.movement(queried.located().narrowed()->Ok_0),
        ),
        control.config.click ==> {
            let moving = control.after(begun).after(queried);
            &&& moving.reply(moved) == Ok::<Command, CoordinateRangeError>(Command::Click)
            &&& moving.after(moved).reply(clicked) == Ok::<Command, CoordinateRangeError>(
                control.rest(),
            )
            &&& moving.after(moved).after(clicked) == control.ended()
        },
        !control.config.click ==> {
            let moving = control.after(begun).after(queried);
            &&& moving.reply(moved) == Ok::<Command, CoordinateRangeError>(control.rest())
            &&& moving.after(moved) == control.ended()
        },
        control.ended().state.previous_action == control.config.pattern.successor(
            control.state.previous_action,
        ),
{
}

/// A query that brought no position counts as one that brought the
/// origin: the answer and the loop afterwards are the same. Nothing of it
/// is kept: the loop holds no position.
pub proof fn lemma_failed_query_counts_as_origin(control: ControlLoop, queried: Outcome)
    requires
        !(queried is Position),
    ensures
        control.reply(queried) == control.reply(Outcome::Position(Point::origin())),
        control.after(queried) == control.after(Outcome::Position(Point::origin())),
        control.phase == Phase::Locating ==> control.reply(queried) == Ok::<
            Command,
            CoordinateRangeError,
        >(control.movement(MousePoint { x: 0, y: 0 })),
{
}

/// A tick whose query failed: its move begins at the origin, and the tick
/// ends like any other, with its action remembered.
pub proof fn lemma_tick_without_position(
    control: ControlLoop,
    begun: Outcome,
    queried: Outcome,
    moved: Outcome,
    clicked: Outcome,
)
    requires
        control.phase == Phase::Resting,
        !(queried is Position),
    ensures
        control.after(begun).reply(queried) == Ok::<Command, CoordinateRangeError>(
            control.movement(MousePoint { x: 0, y: 0 }),
        ),
        control.config.click ==> control.after(begun).after(queried).after(moved).after(clicked)
            == control.ended(),
        !control.config.click ==> control.after(begun).after(queried).after(moved)
            == control.ended(),
        control.ended().state.previous_action == control.config.pattern.successor(
            control.state.previous_action,
        ),
{
    lemma_tick(control, begun, queried, moved, clicked);
}

/// What follows a move does not depend on what came of the move: the
/// click where clicks were asked for, else the sleep.
pub proof fn lemma_click_follows_any_move(control: ControlLoop, moved: Outcome)
    requires
        control.phase == Phase::Moving,
    ensures
        control.reply(moved) == control.reply(Outcome::Failed),
        control.after(moved) == control.after(Outcome::Failed),
        control.config.click ==> control.reply(moved) == Ok::<Command, CoordinateRangeError>(
            Command::Click,
        ),
        !control.config.click ==> control.after(moved) == control.ended(),
{
}

/// The loop ends on one thing only: a reported position of which a
/// coordinate is outside `i32`. It then stays as it was.
pub proof fn lemma_only_the_range_is_fatal(control: ControlLoop, outcome: Outcome)
    ensures
        control.reply(outcome) is Err <==> control.phase == Phase::Locating
            && outcome is Position && outcome.located().narrowed() is Err,
        control.reply(outcome) is Err ==> control.reply(outcome) == Err::<
            Command,
            CoordinateRangeError,
        >(outcome.located().narrowed()->Err_0),
        control.reply(outcome) is Err ==> control.after(outcome) == control,
        control.after(outcome).config == control.config,
{
}

/// A loop run from its start: before tick number `tick`, counted from 0,
/// it is at rest with the settings that it began with, the tick's action
/// is the pattern's at that number, and its move is a real one from
/// wherever the pointer is.
pub proof fn lemma_run(config: Config, tick: nat)
    ensures
        ControlLoop::rested(config, tick).phase == Phase::Resting,
        ControlLoop::rested(config, tick).config == config,
        ControlLoop::rested(config, tick).action() == config.pattern.action_at(tick),
        ControlLoop::rested(config, tick).action() != Action::Stay,
        forall|at: MousePoint| #[trigger]
            ControlLoop::rested(config, tick).movement(at) is MoveTo,
    decreases tick,
{
    if tick > 0 {
        lemma_run(config, (tick - 1) as nat);
    }
    lemma_every_tick_moves(config.pattern, tick);
}

/// Where a loop stands depends on nothing but the number of outcomes that
/// it has been told since its start. So long as it goes on, no outcome
/// leaves a trace: not the positions, not the failures.
pub proof fn lemma_progress(config: Config, outcomes: Seq<Outcome>)
    requires
        ControlLoop::started(config).survives(outcomes),
    ensures
        ControlLoop::started(config).after_all(outcomes) == ControlLoop::progressed(
            config,
            outcomes.len(),
        ),
    decreases outcomes.len(),
{
    if outcomes.len() == 0 {
        if config.click {
            assert(0nat / 4 == 0 && 0nat % 4 == 0);
        } else {
            assert(0nat / 3 == 0 && 0nat % 3 == 0);
        }
    } else {
        lemma_progress(config, outcomes.drop_last());
        let told = outcomes.drop_last().len();
        // One outcome more is one phase on, or one tick on.
        if config.click {
            assert((told + 1) % 4 == if told % 4 == 3 { 0 } else { told % 4 + 1 });
            assert((told + 1) / 4 == if told % 4 == 3 { told / 4 + 1 } else { told / 4 });
            lemma_run(config, told / 4);
        } else {
            assert((told + 1) % 3 == if told % 3 == 2 { 0 } else { told % 3 + 1 });
            assert((told + 1) / 3 == if told % 3 == 2 { told / 3 + 1 } else { told / 3 });
            lemma_run(config, told / 3);
        }
    }
}

} // verus!
