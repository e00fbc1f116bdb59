//! The switch for the plugin's boss logs.
use vstd::prelude::*;

verus! {

/// Boss logs are on only where the configuration turns them on.
pub fn enabled(debug_boss_logs: Option<bool>) -> (r: bool)
    ensures
        r == (debug_boss_logs == Some(true)),
{
    match debug_boss_logs {
        Some(on) => on,
        None => false,
    }
}

} // verus!
