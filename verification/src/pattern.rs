//! Movement patterns: which direction follows which.

use vstd::prelude::*;
use vstd::string::*;

verus! {

/// The direction of one tick's move. `Stay` is the tick without a move, and
/// the state before the first tick.
#[derive(Clone, Copy, Debug, PartialEq, Eq, Structural)]
pub enum Action {
    Stay,
    Left,
    Right,
    Up,
    Down,
}

/// A named table of successors over [`Action`].
#[derive(Clone, Copy, Debug, PartialEq, Eq, Structural)]
pub enum Pattern {
    /// Left, right, left, right.
    BackAndForth,
    /// Left, up, right, down, and round again.
    Compass,
}

impl Pattern {
    /// The successor table of each pattern.
    ///
    /// `BackAndForth` swings between `Left` and `Right`; `Up` and `Down` are
    /// no part of it and lead to `Stay`. `Compass` goes round all four
    /// directions. Both begin with `Left`.
    pub open spec fn successor(&self, previous: Action) -> Action {
        match self {
            Pattern::BackAndForth => match previous {
                Action::Stay => Action::Left,
                Action::Left => Action::Right,
                Action::Right => Action::Left,
                Action::Up => Action::Stay,
                Action::Down => Action::Stay,
            },
            Pattern::Compass => match previous {
                Action::Stay => Action::Left,
                Action::Left => Action::Up,
                Action::Up => Action::Right,
                Action::Right => Action::Down,
                Action::Down => Action::Left,
            },
        }
    }

    /// The name by which the pattern is asked for.
    pub open spec fn name(&self) -> Seq<char> {
        match self {
            Pattern::BackAndForth => "back-and-forth"@,
            Pattern::Compass => "compass"@,
        }
    }

    /// What `name` names: a pattern, or nothing.
    pub open spec fn named(name: Seq<char>) -> Option<Pattern> {
        if name == Pattern::BackAndForth.name() {
            Some(Pattern::BackAndForth)
        } else if name == Pattern::Compass.name() {
            Some(Pattern::Compass)
        } else {
            None
        }
    }

    /// What is said of a name that names no pattern.
    pub open spec fn unknown(name: Seq<char>) -> Seq<char> {
        "Unknown pattern: "@ + name
    }

    /// Reads a pattern's name.
    ///
    /// The two names are taken as they are written here, to the letter;
    /// for anything else the error quotes what was given.
    pub fn from_str(s: &str) -> (parsed: Result<Pattern, String>)
        ensures
            match Pattern::named(s@) {
                Some(pattern) => parsed == Ok::<Pattern, String>(pattern),
                None => parsed is Err && parsed->Err_0@ == Pattern::unknown(s@),
            },
    {
        let given: String = String::from_str(s);
        if given == String::from_str("back-and-forth") {
            Ok(Pattern::BackAndForth)
        } else if given == String::from_str("compass") {
            Ok(Pattern::Compass)
        } else {
            Err(String::from_str("Unknown pattern: ").concat(s))
        }
    }

    /// The action that follows `prev_action` under this pattern.
    #[verifier::when_used_as_spec(successor)]
    pub fn next_action(&self, prev_action: Action) -> (next: Action)
        ensures
            next == self.successor(prev_action),
    {
        match self {
            Pattern::BackAndForth => match prev_action {
                Action::Stay => Action::Left,
                Action::Left => Action::Right,
                Action::Right => Action::Left,
                _ => Action::Stay,
            },
            Pattern::Compass => match prev_action {
                Action::Stay => Action::Left,
                Action::Left => Action::Up,
                Action::Right => Action::Down,
                Action::Up => Action::Right,
                Action::Down => Action::Left,
            },
        }
    }
}

impl Pattern {
    /// The action of tick number `tick`, counted from 0, of a run that
    /// begins with `Stay` behind it.
    pub open spec fn action_at(&self, tick: nat) -> Action
        decreases tick,
    {
        if tick == 0 {
            self.successor(Action::Stay)
        } else {
            self.successor(self.action_at((tick - 1) as nat))
        }
    }
}

/// Each pattern is read from its own name and from no other text.
pub proof fn lemma_names(pattern: Pattern, text: Seq<char>)
    ensures
        Pattern::named(pattern.name()) == Some(pattern),
        Pattern::named(text) == Some(pattern) <==> text == pattern.name(),
{
    reveal_strlit("back-and-forth");
    reveal_strlit("compass");
    assert("back-and-forth"@.len() == 14);
    assert("compass"@.len() == 7);
}

/// Back and forth, from every action: `Left` follows `Stay` and `Right`,
/// `Right` follows `Left`, and `Stay` follows `Up` and `Down`.
pub proof fn lemma_back_and_forth_table(previous: Action)
    ensures
        Pattern::BackAndForth.successor(previous) == Action::Left <==> previous == Action::Stay
            || previous == Action::Right,
        Pattern::BackAndForth.successor(previous) == Action::Right <==> previous == Action::Left,
        Pattern::BackAndForth.successor(previous) == Action::Stay <==> previous == Action::Up
            || previous == Action::Down,
        Pattern::BackAndForth.successor(previous) != Action::Up,
        Pattern::BackAndForth.successor(previous) != Action::Down,
{
}

/// The compass is one cycle of four: it begins with `Left`, goes from
/// `Left` to `Up` to `Right` to `Down` and back to `Left`, never stays, and
/// is back where it was after four steps and not before.
pub proof fn lemma_compass_cycle(previous: Action)
    ensures
        Pattern::Compass.successor(Action::Stay) == Action::Left,
        Pattern::Compass.successor(Action::Left) == Action::Up,
        Pattern::Compass.successor(Action::Up) == Action::Right,
        Pattern::Compass.successor(Action::Right) == Action::Down,
        Pattern::Compass.successor(Action::Down) == Action::Left,
        Pattern::Compass.successor(previous) != Action::Stay,
        previous != Action::Stay ==> {
            let first = Pattern::Compass.successor(previous);
            let second = Pattern::Compass.successor(first);
            let third = Pattern::Compass.successor(second);
            let fourth = Pattern::Compass.successor(third);
            &&& first != previous
            &&& second != previous
            &&& third != previous
            &&& fourth == previous
        },
{
}

/// A run back and forth goes left on the even ticks and right on the odd.
pub proof fn lemma_back_and_forth_run(tick: nat)
    ensures
        Pattern::BackAndForth.action_at(tick) == if tick % 2 == 0 {
            Action::Left
        } else {
            Action::Right
        },
    decreases tick,
{
    if tick > 0 {
        lemma_back_and_forth_run((tick - 1) as nat);
    }
}

/// A run round the compass goes left, up, right and down, by the tick's
/// number modulo four.
pub proof fn lemma_compass_run(tick: nat)
    ensures
        Pattern::Compass.action_at(tick) == if tick % 4 == 0 {
            Action::Left
        } else if tick % 4 == 1 {
            Action::Up
        } else if tick % 4 == 2 {
            Action::Right
        } else {
            Action::Down
        },
    decreases tick,
{
    if tick > 0 {
        lemma_compass_run((tick - 1) as nat);
    }
}

/// No tick of a run stays, whatever the pattern.
pub proof fn lemma_every_tick_moves(pattern: Pattern, tick: nat)
    ensures
        pattern.action_at(tick) != Action::Stay,
{
    match pattern {
        Pattern::BackAndForth => lemma_back_and_forth_run(tick),
        Pattern::Compass => lemma_compass_run(tick),
    }
}

impl core::str::FromStr for Pattern {
    type Err = String;

    /// Reads a pattern's name, as [`Pattern::from_str`] does.
    fn from_str(s: &str) -> (parsed: Result<Pattern, String>)
        ensures
            match Pattern::named(s@) {
                Some(pattern) => parsed == Ok::<Pattern, String>(pattern),
                None => parsed is Err && parsed->Err_0@ == Pattern::unknown(s@),
            },
    {
        Pattern::from_str(s)
    }
}

} // verus!
