//! The outcome-dispatch policy shared by the three engine operations.
//!
//! Servicing an event means calling the engine once (or, for decapsulate,
//! in a loop) and then acting on the outcome.  The three operations share
//! one dispatch table: emitted network bytes go to the transport, delivered
//! packets go to the interface, an expiry triggers the reconnect policy,
//! and anything unexpected is logged.  Only the timer path can see an
//! expiry; on the other paths it counts as unexpected.

use vstd::prelude::*;
use crate::outcome::Outcome;

verus! {

/// Action chosen after a timer-advance call of the engine.
#[derive(Debug, PartialEq, Eq)]
pub enum TimerPlan {
    /// Write these bytes to the transport channel.
    Send(Vec<u8>),
    /// Nothing to do.
    Nothing,
    /// Write these bytes to the interface channel.
    Deliver(Vec<u8>),
    /// Run the reconnect policy.
    Reconnect,
    /// Log a warning.
    Warn,
}

/// Action chosen after an encapsulate call (single shot: one outcome,
/// one action, no looping).
#[derive(Debug, PartialEq, Eq)]
pub enum EncapPlan {
    /// Write these bytes to the transport channel.
    Send(Vec<u8>),
    /// Nothing to do.
    Nothing,
    /// Write these bytes to the interface channel.
    Deliver(Vec<u8>),
    /// Log a warning.
    Warn,
}

/// Action chosen after one decapsulate call, together with whether the
/// loop goes on.  Emitted network bytes keep the loop alive: they are sent
/// and the engine is re-invoked with an empty input.  Every other outcome
/// ends the loop.
#[derive(Debug, PartialEq, Eq)]
pub enum DecapStep {
    /// Send these bytes, then call decapsulate again with an empty input.
    SendThenContinue(Vec<u8>),
    /// The engine is done; stop.
    Stop,
    /// Write these bytes to the interface channel, then stop.
    DeliverThenStop(Vec<u8>),
    /// Log a warning, then stop.
    WarnThenStop,
}

/// Dispatch one timer-advance outcome.
pub fn plan_timer(o: Outcome) -> (p: TimerPlan)
    ensures
        (o matches Outcome::EmitNetwork(b) ==> p matches TimerPlan::Send(s) && s@ == b@),
        (o matches Outcome::Done ==> p matches TimerPlan::Nothing),
        (o matches Outcome::Deliver4(b) ==> p matches TimerPlan::Deliver(s) && s@ == b@),
        (o matches Outcome::Deliver6(b) ==> p matches TimerPlan::Deliver(s) && s@ == b@),
        (o matches Outcome::Expired ==> p matches TimerPlan::Reconnect),
        (o matches Outcome::Other ==> p matches TimerPlan::Warn),
{
    match o {
        Outcome::EmitNetwork(b) => TimerPlan::Send(b),
        Outcome::Done => TimerPlan::Nothing,
        Outcome::Deliver4(b) => TimerPlan::Deliver(b),
        Outcome::Deliver6(b) => TimerPlan::Deliver(b),
        Outcome::Expired => TimerPlan::Reconnect,
        Outcome::Other => TimerPlan::Warn,
    }
}

/// Dispatch one encapsulate outcome.  An expiry cannot come from
/// encapsulate, so it is treated as unexpected and only logged.
pub fn plan_encapsulate(o: Outcome) -> (p: EncapPlan)
    ensures
        (o matches Outcome::EmitNetwork(b) ==> p matches EncapPlan::Send(s) && s@ == b@),
        (o matches Outcome::Done ==> p matches EncapPlan::Nothing),
        (o matches Outcome::Deliver4(b) ==> p matches EncapPlan::Deliver(s) && s@ == b@),
        (o matches Outcome::Deliver6(b) ==> p matches EncapPlan::Deliver(s) && s@ == b@),
        (o matches Outcome::Expired ==> p matches EncapPlan::Warn),
        (o matches Outcome::Other ==> p matches EncapPlan::Warn),
{
    match o {
        Outcome::EmitNetwork(b) => EncapPlan::Send(b),
        Outcome::Done => EncapPlan::Nothing,
        Outcome::Deliver4(b) => EncapPlan::Deliver(b),
        Outcome::Deliver6(b) => EncapPlan::Deliver(b),
        Outcome::Expired => EncapPlan::Warn,
        Outcome::Other => EncapPlan::Warn,
    }
}

/// Dispatch one decapsulate outcome inside the decapsulate loop.
pub fn plan_decap_step(o: Outcome) -> (s: DecapStep)
    ensures
        (o matches Outcome::EmitNetwork(b) ==> s matches DecapStep::SendThenContinue(c) && c@ == b@),
        (o matches Outcome::Done ==> s matches DecapStep::Stop),
        (o matches Outcome::Deliver4(b) ==> s matches DecapStep::DeliverThenStop(c) && c@ == b@),
        (o matches Outcome::Deliver6(b) ==> s matches DecapStep::DeliverThenStop(c) && c@ == b@),
        (o matches Outcome::Expired ==> s matches DecapStep::WarnThenStop),
        (o matches Outcome::Other ==> s matches DecapStep::WarnThenStop),
{
    match o {
        Outcome::EmitNetwork(b) => DecapStep::SendThenContinue(b),
        Outcome::Done => DecapStep::Stop,
        Outcome::Deliver4(b) => DecapStep::DeliverThenStop(b),
        Outcome::Deliver6(b) => DecapStep::DeliverThenStop(b),
        Outcome::Expired => DecapStep::WarnThenStop,
        Outcome::Other => DecapStep::WarnThenStop,
    }
}

} // verus!
