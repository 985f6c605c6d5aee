//! Running an RCON command over a connection that the server may have closed.
use vstd::prelude::*;

verus! {

/// How an RCON command came back.
#[derive(Debug, Clone, Copy, PartialEq, Eq, Structural)]
pub enum RconOutcome {
    /// The server replied.
    Reply,
    /// The connection failed (for instance, the server closed it after sitting idle).
    IoError,
    /// Any other error.
    OtherError,
}

/// What to do after an attempt.
#[derive(Debug, Clone, Copy, PartialEq, Eq, Structural)]
pub enum RconStep {
    /// Connect again and send the command once more.
    ReconnectAndRetry,
    /// Hand the attempt's outcome, as it is, to the caller.
    Finish,
}

/// One RCON command, with whether it was already sent again after a reconnection.
#[derive(Debug)]
pub struct RconCall {
    pub retried: bool,
}

/// The decision after an attempt: an I/O failure of the first attempt leads to one
/// reconnection and one more attempt; anything else, and any outcome of the second attempt,
/// is handed back.
pub open spec fn rcon_decide(retried: bool, outcome: RconOutcome) -> (bool, RconStep) {
    if !retried && outcome == RconOutcome::IoError {
        (true, RconStep::ReconnectAndRetry)
    } else {
        (retried, RconStep::Finish)
    }
}

impl RconCall {
    /// A command that has not been sent yet.
    pub fn new() -> (c: RconCall)
        ensures
            !c.retried,
    {
        RconCall { retried: false }
    }

    /// Decides what to do after an attempt.
    pub fn after(&mut self, outcome: RconOutcome) -> (s: RconStep)
        ensures
            (final(self).retried, s) == rcon_decide(old(self).retried, outcome),
    {
        if !self.retried && outcome == RconOutcome::IoError {
            self.retried = true;
            RconStep::ReconnectAndRetry
        } else {
            RconStep::Finish
        }
    }
}

/// Law: a command reconnects at most once: after a reconnection, whatever the second
/// attempt gives is handed back.
pub proof fn lemma_reconnects_at_most_once(first: RconOutcome, second: RconOutcome)
    ensures
        rcon_decide(false, first).1 == RconStep::ReconnectAndRetry ==> rcon_decide(
            rcon_decide(false, first).0,
            second,
        ).1 == RconStep::Finish,
        rcon_decide(false, first).1 == RconStep::ReconnectAndRetry <==> first == RconOutcome::IoError,
{
}

} // verus!
