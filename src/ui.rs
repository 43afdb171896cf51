//! Display state of the terminal client: focus, connection, event levels
//! and the symbol of each host state.

use vstd::prelude::*;
use crate::inventory::{lowercase_of, to_lowercase};

verus! {

/// Which pane has the keyboard focus.
#[derive(Debug, Clone, Copy, PartialEq, Eq, Structural)]
pub enum Focus {
    Hosts,
    Details,
    Events,
}

/// State of the connection to the daemon.
#[derive(Debug, Clone, Copy, PartialEq, Eq, Structural)]
pub enum ConnectionState {
    Connected,
    Connecting,
    Disconnected,
}

/// Severity of an entry of the event log.
#[derive(Debug, Clone, Copy, PartialEq, Eq, Structural)]
pub enum EventLevel {
    Info,
    Warning,
    Error,
    Success,
}

/// The symbol of a state name (already in lower case) at animation step
/// `tick`: busy states spin, resting states have fixed marks.
pub open spec fn symbol_for(lower: Seq<char>, tick: u64) -> Seq<char> {
    if lower == "querying"@ || lower == "rebooting"@ || lower == "verifying"@ {
        if tick % 4 < 2 {
            "◐"@
        } else {
            "◑"@
        }
    } else if lower == "idle"@ || lower == "pendingupdates"@ || lower == "pending_updates"@ {
        "●"@
    } else if lower == "updating"@ {
        if tick % 4 == 0 {
            "◐"@
        } else if tick % 4 == 1 {
            "◓"@
        } else if tick % 4 == 2 {
            "◑"@
        } else {
            "◒"@
        }
    } else if lower == "waitingreboot"@ || lower == "waiting_reboot"@ {
        "◎"@
    } else if lower == "failed"@ {
        "✗"@
    } else if lower == "offline"@ {
        "○"@
    } else {
        "?"@
    }
}

fn is(s: &String, lit: &str) -> (r: bool)
    ensures
        r == (s@ == lit@),
{
    *s == String::from_str(lit)
}

/// The symbol of a state name given in lower case.
pub fn symbol_of_lower(lower: &str, tick: u64) -> (r: &'static str)
    ensures
        r@ == symbol_for(lower@, tick),
{
    let l = String::from_str(lower);
    if is(&l, "querying") || is(&l, "rebooting") || is(&l, "verifying") {
        if tick % 4 < 2 {
            "◐"
        } else {
            "◑"
        }
    } else if is(&l, "idle") || is(&l, "pendingupdates") || is(&l, "pending_updates") {
        "●"
    } else if is(&l, "updating") {
        if tick % 4 == 0 {
            "◐"
        } else if tick % 4 == 1 {
            "◓"
        } else if tick % 4 == 2 {
            "◑"
        } else {
            "◒"
        }
    } else if is(&l, "waitingreboot") || is(&l, "waiting_reboot") {
        "◎"
    } else if is(&l, "failed") {
        "✗"
    } else if is(&l, "offline") {
        "○"
    } else {
        "?"
    }
}

/// The symbol of a state name in any letter case.
pub fn state_symbol(state: &str, tick: u64) -> (r: &'static str)
    ensures
        r@ == symbol_for(lowercase_of(state@), tick),
{
    let lower = to_lowercase(state);
    symbol_of_lower(lower.as_str(), tick)
}

} // verus!
