use vstd::prelude::*;

verus! {

/// A delivered signal, by its number.
#[derive(Clone, Copy, Debug, PartialEq, Eq, Structural)]
pub struct SignalEvent(pub i32);

/// Whether nix knows `n` as a signal number on this target.
pub uninterp spec fn known_signal(n: i32) -> bool;

/// Relies on nix's `TryFrom<i32>` for `nix::sys::signal::Signal`: it succeeds
/// only for a number that names a signal nix knows on this target, and such a
/// signal's `i32` value is that number. The set of such numbers is a fixed
/// table of the target. Every signal number is positive.
#[verifier::external_body]
fn resolve_signal(signal: i32) -> (r: Option<i32>)
    ensures
        r is Some <==> known_signal(signal),
        r is Some ==> r->0 == signal,
        signal <= 0 ==> r is None,
{
    nix::sys::signal::Signal::try_from(signal).ok().map(|s| s as i32)
}

/// The event for a delivered signal number; `None` where the number names no
/// known signal.
pub fn signal_event(signal: i32) -> (r: Option<SignalEvent>)
    ensures
        r is Some <==> known_signal(signal),
        r is Some ==> r->0 == SignalEvent(signal),
        signal <= 0 ==> r is None,
{
    match resolve_signal(signal) {
        Some(n) => Some(SignalEvent(n)),
        None => None,
    }
}

} // verus!
