//! How much the ledger server logs.

use vstd::prelude::*;

verus! {

/// How much is logged: each level logs what the one before it does, and more.
#[derive(Clone, Copy, Debug, PartialEq, Eq, Structural)]
pub enum LogLevel {
    Off,
    Error,
    Warn,
    Info,
    Debug,
    Trace,
}

impl LogLevel {
    /// The level's place in the order of the levels.
    pub open spec fn rank(self) -> int {
        match self {
            LogLevel::Off => 0,
            LogLevel::Error => 1,
            LogLevel::Warn => 2,
            LogLevel::Info => 3,
            LogLevel::Debug => 4,
            LogLevel::Trace => 5,
        }
    }
}

/// The rank of the level that this many requests for more output and this many
/// for less come to: they count up and down from [`LogLevel::Info`], as far as
/// the levels go.
pub open spec fn log_rank(verbose: int, quiet: int) -> int {
    let rank = LogLevel::Info.rank() + verbose - quiet;
    if rank < LogLevel::Off.rank() {
        LogLevel::Off.rank()
    } else if rank > LogLevel::Trace.rank() {
        LogLevel::Trace.rank()
    } else {
        rank
    }
}

/// The log level for this many requests for more output and this many for less.
pub fn log_level(verbose: i8, quiet: i8) -> (level: LogLevel)
    requires
        2 + verbose <= i8::MAX,
        i8::MIN <= 2 + verbose - quiet <= i8::MAX,
    ensures
        level.rank() == log_rank(verbose as int, quiet as int),
{
    let verbose_level: i8 = 2 + verbose - quiet;
    if verbose_level > 3 {
        LogLevel::Trace
    } else if verbose_level == 3 {
        LogLevel::Debug
    } else if verbose_level == 2 {
        LogLevel::Info
    } else if verbose_level == 1 {
        LogLevel::Warn
    } else if verbose_level == 0 {
        LogLevel::Error
    } else {
        LogLevel::Off
    }
}

/// A rank stands for one level.
pub proof fn rank_tells_the_level(here: LogLevel, there: LogLevel)
    ensures
        here.rank() == there.rank() <==> here == there,
        LogLevel::Off.rank() <= here.rank() <= LogLevel::Trace.rank(),
{
}

/// Asking for more output never gives less, and asking for less never gives more.
pub proof fn requests_count_their_way(verbose: int, quiet: int, more: nat)
    ensures
        log_rank(verbose, quiet) <= log_rank(verbose + more, quiet),
        log_rank(verbose, quiet + more) <= log_rank(verbose, quiet),
{
}

/// A request for more output and one for less cancel each other out.
pub proof fn requests_cancel_out(verbose: int, quiet: int, both: int)
    ensures
        log_rank(verbose + both, quiet + both) == log_rank(verbose, quiet),
{
}

/// Where as much output is asked for as is asked away, the server logs as
/// [`LogLevel::Info`] says. Each request more leads to the next level, as far as
/// [`LogLevel::Trace`], and each request less to the one before, as far as
/// [`LogLevel::Off`].
pub proof fn requests_lead_from_level_to_level(verbose: i8, quiet: i8, level: LogLevel)
    requires
        call_ensures(log_level, (verbose, quiet), level),
    ensures
        level is Trace <==> verbose - quiet >= 2,
        level is Debug <==> verbose - quiet == 1,
        level is Info <==> verbose == quiet,
        level is Warn <==> quiet - verbose == 1,
        level is Error <==> quiet - verbose == 2,
        level is Off <==> quiet - verbose >= 3,
{
}

} // verus!
