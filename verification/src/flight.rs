//! The single-flight guard: of the callers that ask for a check at the same
//! time, one performs it and the others take its outcome.

use vstd::prelude::*;
use crate::error::CheckError;
use crate::verdict::ValidationVerdict;

verus! {

/// The bookkeeping of the check in progress. The host keeps one guard per
/// process, behind a lock, and consults it before and after every check.
#[derive(Clone, Copy, Debug, PartialEq, Eq)]
pub struct SingleFlight {
    /// The number of the check in progress, or of the latest one.
    pub flight: u64,
    /// Whether a check is in progress.
    pub in_flight: bool,
    /// How the latest check ended, once it has.
    pub settled: Option<Result<ValidationVerdict, CheckError>>,
}

/// What a caller holds after it asked for a check.
#[derive(Clone, Copy, Debug, PartialEq, Eq, Structural)]
pub struct Ticket {
    /// The check that this caller takes part in.
    pub flight: u64,
    /// Whether this caller performs the check: the request to the authority
    /// and the write to the store are the leader's alone.
    pub leads: bool,
}

/// The number of the flight after `flight`.
pub open spec fn following(flight: u64) -> u64 {
    if flight == u64::MAX {
        0
    } else {
        (flight + 1) as u64
    }
}

impl SingleFlight {
    /// The guard after one more caller has asked for a check.
    pub open spec fn arrived(self) -> SingleFlight {
        if self.in_flight {
            self
        } else {
            SingleFlight { flight: following(self.flight), in_flight: true, settled: None }
        }
    }

    /// The ticket of a caller that asks for a check on this guard.
    pub open spec fn ticket(self) -> Ticket {
        if self.in_flight {
            Ticket { flight: self.flight, leads: false }
        } else {
            Ticket { flight: following(self.flight), leads: true }
        }
    }

    /// Whether `ticket` is the leader's ticket of the check in progress.
    pub open spec fn led_by(self, ticket: Ticket) -> bool {
        self.in_flight && ticket.leads && ticket.flight == self.flight
    }

    /// The guard after the leader has reported how the check ended.
    pub open spec fn settled_with(
        self,
        ticket: Ticket,
        outcome: Result<ValidationVerdict, CheckError>,
    ) -> SingleFlight {
        if self.led_by(ticket) {
            SingleFlight { flight: self.flight, in_flight: false, settled: Some(outcome) }
        } else {
            self
        }
    }

    /// The guard after the leader has given the check up.
    pub open spec fn abandoned_by(self, ticket: Ticket) -> SingleFlight {
        if self.led_by(ticket) {
            SingleFlight { flight: self.flight, in_flight: false, settled: None }
        } else {
            self
        }
    }

    /// What the holder of `ticket` sees: the outcome of its check, once that
    /// check has ended with one and no later check has begun.
    pub open spec fn seen_by(self, ticket: Ticket) -> Option<Result<ValidationVerdict, CheckError>> {
        if !self.in_flight && ticket.flight == self.flight {
            self.settled
        } else {
            None
        }
    }

    /// Whether the check that `ticket` belongs to is still in progress, so
    /// that its holder has to wait for the outcome.
    pub open spec fn awaits(self, ticket: Ticket) -> bool {
        self.in_flight && ticket.flight == self.flight
    }

    /// The guard after `callers` callers in a row have asked for a check.
    pub open spec fn after_arrivals(self, callers: nat) -> SingleFlight
        decreases callers,
    {
        if callers == 0 {
            self
        } else {
            self.after_arrivals((callers - 1) as nat).arrived()
        }
    }

    /// A guard with no check in progress and none behind it.
    pub fn new() -> (guard: SingleFlight)
        ensures
            guard == (SingleFlight { flight: 0, in_flight: false, settled: None }),
    {
        SingleFlight { flight: 0, in_flight: false, settled: None }
    }

    /// Takes in a caller. The caller leads a new check if none is in progress,
    /// and joins the one in progress otherwise.
    pub fn arrive(&mut self) -> (ticket: Ticket)
        ensures
            ticket == old(self).ticket(),
            *final(self) == old(self).arrived(),
    {
        if self.in_flight {
            Ticket { flight: self.flight, leads: false }
        } else {
            let next: u64 = if self.flight == u64::MAX {
                0
            } else {
                self.flight + 1
            };
            self.flight = next;
            self.in_flight = true;
            self.settled = None;
            Ticket { flight: next, leads: true }
        }
    }

    /// Records how the check ended and ends it. Only the leader of the check
    /// in progress is heard; the result says whether the caller was.
    pub fn settle(&mut self, ticket: Ticket, outcome: Result<ValidationVerdict, CheckError>) -> (heard:
        bool)
        ensures
            heard == old(self).led_by(ticket),
            *final(self) == old(self).settled_with(ticket, outcome),
    {
        if self.in_flight && ticket.leads && ticket.flight == self.flight {
            self.in_flight = false;
            self.settled = Some(outcome);
            true
        } else {
            false
        }
    }

    /// Ends the check in progress without an outcome, as when the host
    /// cancels it. Only the leader of the check in progress is heard.
    pub fn abandon(&mut self, ticket: Ticket) -> (heard: bool)
        ensures
            heard == old(self).led_by(ticket),
            *final(self) == old(self).abandoned_by(ticket),
    {
        if self.in_flight && ticket.leads && ticket.flight == self.flight {
            self.in_flight = false;
            self.settled = None;
            true
        } else {
            false
        }
    }

    /// Whether the holder of `ticket` has to go on waiting: its check is
    /// still in progress. Where it need not wait and sees no outcome, its
    /// check was given up or a later one has begun, and it asks anew.
    pub fn awaited(&self, ticket: Ticket) -> (waiting: bool)
        ensures
            waiting == self.awaits(ticket),
    {
        self.in_flight && ticket.flight == self.flight
    }

    /// The outcome of the check that `ticket` belongs to, if that check has
    /// ended with one and no later check has begun.
    pub fn observe(&self, ticket: Ticket) -> (outcome: Option<Result<ValidationVerdict, CheckError>>)
        ensures
            outcome == self.seen_by(ticket),
    {
        if !self.in_flight && ticket.flight == self.flight {
            self.settled
        } else {
            None
        }
    }
}

/// Of the callers that ask for a check while none has ended, the first one
/// leads and every later one joins the leader's check.
pub proof fn lemma_one_leader(guard: SingleFlight, earlier: nat)
    requires
        !guard.in_flight,
    ensures
        guard.ticket().leads,
        guard.after_arrivals(earlier + 1) == guard.arrived(),
        guard.after_arrivals(earlier + 1).ticket() == (Ticket {
            flight: guard.ticket().flight,
            leads: false,
        }),
    decreases earlier,
{
    if earlier > 0 {
        lemma_one_leader(guard, (earlier - 1) as nat);
    } else {
        assert(guard.after_arrivals(0) == guard);
    }
}

/// A caller that joined a check waits while the check is in progress. Once
/// the leader has reported the outcome, the leader and every caller that
/// joined its check see that same outcome, and none waits any longer.
pub proof fn lemma_all_see_the_outcome(
    guard: SingleFlight,
    earlier: nat,
    outcome: Result<ValidationVerdict, CheckError>,
)
    requires
        !guard.in_flight,
    ensures
        ({
            let leader = guard.ticket();
            let joiner = guard.after_arrivals(earlier + 1).ticket();
            let ended = guard.after_arrivals(earlier + 2).settled_with(leader, outcome);
            &&& guard.after_arrivals(earlier + 2).led_by(leader)
            &&& !guard.after_arrivals(earlier + 2).led_by(joiner)
            &&& guard.after_arrivals(earlier + 2).awaits(joiner)
            &&& guard.after_arrivals(earlier + 2).seen_by(joiner) is None
            &&& ended.seen_by(leader) == Some(outcome)
            &&& ended.seen_by(joiner) == Some(outcome)
            &&& !ended.awaits(joiner)
            &&& !ended.in_flight
        }),
{
    lemma_one_leader(guard, earlier);
    lemma_one_leader(guard, earlier + 1);
}

} // verus!
