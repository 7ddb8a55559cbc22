//! How much the tool reports: the verbosity the user asks for and the level
//! of messages it lets through.

use vstd::prelude::*;

verus! {

/// The least severe kind of message that is shown.
#[derive(Clone, Copy, Debug, PartialEq, Eq, Structural)]
pub enum LogLevel {
    Critical,
    Error,
    Warning,
    Info,
    Debug,
    Trace,
}

/// The verbosity asked for: each `-v` raises it by one, each `-q` lowers it
/// by one.
pub fn verbose_level(verbose: u8, quiet: u8) -> (res: i64)
    ensures
        res == verbose - quiet,
{
    verbose as i64 - quiet as i64
}

/// The level of messages shown at a verbosity: from critical only at -3 up
/// to everything above 0; below -3 nothing is shown (`None`).
pub fn log_level(verbose_level: i64) -> (res: Option<LogLevel>)
    ensures
        verbose_level == -3 ==> res == Some(LogLevel::Critical),
        verbose_level == -2 ==> res == Some(LogLevel::Error),
        verbose_level == -1 ==> res == Some(LogLevel::Warning),
        verbose_level == 0 ==> res == Some(LogLevel::Info),
        verbose_level == 1 ==> res == Some(LogLevel::Debug),
        verbose_level > 1 ==> res == Some(LogLevel::Trace),
        verbose_level < -3 ==> res is None,
{
    if verbose_level == -3 {
        Some(LogLevel::Critical)
    } else if verbose_level == -2 {
        Some(LogLevel::Error)
    } else if verbose_level == -1 {
        Some(LogLevel::Warning)
    } else if verbose_level == 0 {
        Some(LogLevel::Info)
    } else if verbose_level == 1 {
        Some(LogLevel::Debug)
    } else if verbose_level > 0 {
        Some(LogLevel::Trace)
    } else {
        None
    }
}

} // verus!
