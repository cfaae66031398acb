//! The fixed parameters of the sleep-inhibitor lock request.
//!
//! The lock broker is asked for exactly one kind of lock, with these four
//! build-time constants; nothing about the request is configurable.

use vstd::prelude::*;

verus! {

/// The inhibition category: handle sleep on lid close.
pub fn inhibit_what() -> (r: &'static str)
    ensures
        r@ == "sleep:handle-lid-switch"@,
{
    "sleep:handle-lid-switch"
}

/// The caller identity presented to the lock broker.
pub fn inhibit_who() -> (r: &'static str)
    ensures
        r@ == "cdock-inhibit"@,
{
    "cdock-inhibit"
}

/// The human-readable justification for holding the lock.
pub fn inhibit_why() -> (r: &'static str)
    ensures
        r@ == "Docked via USB-C"@,
{
    "Docked via USB-C"
}

/// The inhibition mode: block the action rather than merely delay it.
pub fn inhibit_mode() -> (r: &'static str)
    ensures
        r@ == "block"@,
{
    "block"
}

} // verus!
