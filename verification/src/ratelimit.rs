//! When the rate limiter is switched off, and when it forgets idle clients.

use vstd::prelude::*;
use vstd::string::*;

use crate::text::text_eq;

verus! {

/// How many clients are kept in mind before idle ones are forgotten.
pub const MAX_TRACKED_IPS: usize = 65_536;

/// Whether a switch with this value is on: it is set, to something else than nothing
/// and `0`.
pub open spec fn is_on(value: Option<Seq<char>>) -> bool {
    value matches Some(v) && v.len() > 0 && v != "0"@
}

/// Whether a switch with this value is on.
pub fn env_truthy(value: Option<&str>) -> (on: bool)
    ensures
        on == is_on(
            match value {
                Some(v) => Some(v@),
                None => None,
            },
        ),
{
    match value {
        Some(v) => v.unicode_len() > 0 && !text_eq(v, "0"),
        None => false,
    }
}

/// Whether idle clients are to be forgotten now: there are too many, and it was not
/// looked into for a while.
pub open spec fn sweeps(checks: usize, clients: usize) -> bool {
    checks % MAX_TRACKED_IPS == 0 && clients > MAX_TRACKED_IPS
}

/// Whether idle clients are to be forgotten now, after this many requests and with this
/// many clients kept in mind.
pub fn sweep_due(checks: usize, clients: usize) -> (due: bool)
    ensures
        due == sweeps(checks, clients),
{
    checks % MAX_TRACKED_IPS == 0 && clients > MAX_TRACKED_IPS
}

// ----------------------------------------------------------------------- laws

/// A switch is off when it is not set, when it is empty and when it is `0`; everything else
/// turns it on.
pub proof fn law_what_turns_a_switch_on(value: Option<&str>, on: bool)
    requires
        call_ensures(env_truthy, (value,), on),
    ensures
        value is None ==> !on,
        value matches Some(v) ==> (on <==> !(v@.len() == 0 || (v@.len() == 1 && v@[0] == '0'))),
{
    if let Some(v) = value {
        reveal_strlit("0");
        if v@.len() == 1 && v@[0] == '0' {
            assert(v@ =~= "0"@);
        }
    }
}

/// Idle clients are forgotten only while more than 65,536 are kept in mind, and then at
/// every 65,536th request: once in any such stretch of requests, and not twice.
pub proof fn law_a_sweep_comes_once_in_a_while(
    clients: usize,
    checks: usize,
    later: usize,
    due: bool,
    again: bool,
)
    requires
        checks < later,
        call_ensures(sweep_due, (checks, clients), due),
        call_ensures(sweep_due, (later, clients), again),
    ensures
        clients <= 65_536 ==> !due,
        due && later - checks < 65_536 ==> !again,
        due && later - checks == 65_536 ==> again,
        clients > 65_536 && checks == 0 ==> due,
{
}

} // verus!
