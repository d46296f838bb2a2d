//! What the agent was asked to do, and what it does when nobody said.

use vstd::prelude::*;

use crate::pattern::Pattern;

verus! {

/// Seconds between two moves where none were given.
pub const DEFAULT_INTERVAL_SECONDS: u64 = 60;

/// Units per move where none were given.
pub const DEFAULT_STEP: i32 = 5;

/// Whether each move is followed by a click where nobody said.
pub const DEFAULT_CLICK: bool = false;

/// The flags of the command line, each as given or left out.
#[derive(Clone, Copy, Debug, PartialEq, Eq, Structural)]
pub struct Args {
    /// The number of seconds between each mouse movement.
    pub interval: Option<u64>,
    /// The amount to move the mouse in each direction.
    pub step: Option<i32>,
    /// Whether to click the mouse after moving.
    pub click: Option<bool>,
    /// The movement pattern to use.
    pub pattern: Option<Pattern>,
}

/// The settings of one run. They are fixed before the first tick.
#[derive(Clone, Copy, Debug, PartialEq, Eq, Structural)]
pub struct Config {
    pub interval_seconds: u64,
    pub step: i32,
    pub click: bool,
    pub pattern: Pattern,
}

impl Args {
    /// The command line without a flag.
    pub open spec fn none() -> Args {
        Args { interval: None, step: None, click: None, pattern: None }
    }

    /// The settings that these flags ask for: each flag's value where it
    /// was given, the default where it was left out.
    pub open spec fn settings(&self) -> Config {
        Config {
            interval_seconds: match self.interval {
                Some(seconds) => seconds,
                None => DEFAULT_INTERVAL_SECONDS,
            },
            step: match self.step {
                Some(step) => step,
                None => DEFAULT_STEP,
            },
            click: match self.click {
                Some(click) => click,
                None => DEFAULT_CLICK,
            },
            pattern: match self.pattern {
                Some(pattern) => pattern,
                None => Pattern::BackAndForth,
            },
        }
    }
}

impl Default for Args {
    fn default() -> (args: Args)
        ensures
            args == Args::none(),
    {
        Args { interval: None, step: None, click: None, pattern: None }
    }
}

impl Config {
    /// The settings of a run that was given no flag: a move of 5 units every
    /// 60 seconds, back and forth, without a click.
    pub open spec fn standard() -> Config {
        Config {
            interval_seconds: 60,
            step: 5,
            click: false,
            pattern: Pattern::BackAndForth,
        }
    }

    /// Fills in the defaults for the flags that were left out.
    pub fn from_args(args: &Args) -> (config: Config)
        ensures
            config == args.settings(),
            args.interval matches Some(seconds) ==> config.interval_seconds == seconds,
            args.step matches Some(step) ==> config.step == step,
            args.click matches Some(click) ==> config.click == click,
            args.pattern matches Some(pattern) ==> config.pattern == pattern,
            args.interval is None ==> config.interval_seconds == 60,
            args.step is None ==> config.step == 5,
            args.click is None ==> !config.click,
            args.pattern is None ==> config.pattern == Pattern::BackAndForth,
    {
        Config {
            interval_seconds: args.interval.unwrap_or(DEFAULT_INTERVAL_SECONDS),
            step: args.step.unwrap_or(DEFAULT_STEP),
            click: args.click.unwrap_or(DEFAULT_CLICK),
            pattern: args.pattern.unwrap_or(Pattern::BackAndForth),
        }
    }
}

impl Default for Config {
    fn default() -> (config: Config)
        ensures
            config == Config::standard(),
    {
        Config::from_args(&Args::default())
    }
}

/// Flags that are left out, or given with the value of their default, ask
/// for the standard settings: a move of 5 units every 60 seconds, back and
/// forth, without a click.
pub proof fn lemma_defaults(args: Args)
    requires
        args.interval is None || args.interval == Some(DEFAULT_INTERVAL_SECONDS),
        args.step is None || args.step == Some(DEFAULT_STEP),
        args.click is None || args.click == Some(DEFAULT_CLICK),
        args.pattern is None || args.pattern == Some(Pattern::BackAndForth),
    ensures
        args.settings() == Config::standard(),
        args.settings().interval_seconds == 60,
        args.settings().step == 5,
        args.settings().click == false,
        args.settings().pattern == Pattern::BackAndForth,
        Args::none().settings() == args.settings(),
{
}

} // verus!
