//! The renderer's bookkeeping. Each display request gets a ticket in the
//! order received; decoding runs elsewhere and reports back with the ticket.
//! A decoded frame reaches the screen only if it is newer than the one
//! shown, so a burst of requests never flickers back through stale frames.
use vstd::prelude::*;

verus! {

/// What to do with a finished decode.
#[derive(Clone, Copy, Debug, PartialEq, Eq, Structural)]
pub enum RenderAction {
    /// Put the decoded image on screen.
    Apply,
    /// The image could not be decoded; show that it could not be displayed.
    ReportFailure,
    /// The result is stale or unknown; drop it.
    Discard,
}

/// Tickets handed out and the newest ticket shown. Ticket `0` is never
/// handed out and stands for "nothing shown yet".
pub struct RenderLoop {
    requested: u64,
    applied: u64,
}

impl RenderLoop {
    /// The newest ticket handed out.
    pub closed spec fn requested_view(&self) -> nat {
        self.requested as nat
    }

    /// The ticket of the frame on screen, `0` if none.
    pub closed spec fn applied_view(&self) -> nat {
        self.applied as nat
    }

    /// No frame on screen is newer than the newest request.
    pub open spec fn wf(&self) -> bool {
        self.applied_view() <= self.requested_view()
    }

    /// Nothing requested, nothing shown.
    pub fn new() -> (r: RenderLoop)
        ensures
            r.wf(),
            r.requested_view() == 0,
            r.applied_view() == 0,
    {
        RenderLoop { requested: 0, applied: 0 }
    }

    /// Whether another ticket can be handed out.
    pub fn can_accept(&self) -> (r: bool)
        ensures
            r == (self.requested_view() < u64::MAX),
    {
        self.requested < u64::MAX
    }

    /// The ticket of the frame on screen, `0` if none.
    pub fn applied(&self) -> (r: u64)
        ensures
            r == self.applied_view(),
    {
        self.applied
    }

    /// Records a new display request and returns its ticket, one above the
    /// previous one.
    pub fn on_request(&mut self) -> (ticket: u64)
        requires
            old(self).wf(),
            old(self).requested_view() < u64::MAX,
        ensures
            final(self).wf(),
            ticket == old(self).requested_view() + 1,
            final(self).requested_view() == ticket,
            final(self).applied_view() == old(self).applied_view(),
    {
        self.requested = self.requested + 1;
        self.requested
    }

    /// Decides on the decode of `ticket`, which succeeded when `decoded`.
    /// A ticket no newer than the frame on screen, or never handed out, is
    /// discarded. A newer one is applied if decoded and reported otherwise.
    /// The frame on screen only ever gets newer.
    pub fn on_decoded(&mut self, ticket: u64, decoded: bool) -> (r: RenderAction)
        requires
            old(self).wf(),
        ensures
            final(self).wf(),
            final(self).requested_view() == old(self).requested_view(),
            final(self).applied_view() >= old(self).applied_view(),
            if ticket <= old(self).applied_view() || ticket > old(self).requested_view() {
                r == RenderAction::Discard && final(self).applied_view() == old(self).applied_view()
            } else if decoded {
                r == RenderAction::Apply && final(self).applied_view() == ticket
            } else {
                r == RenderAction::ReportFailure && final(self).applied_view() == old(
                    self,
                ).applied_view()
            },
    {
        if ticket <= self.applied || ticket > self.requested {
            RenderAction::Discard
        } else if decoded {
            self.applied = ticket;
            RenderAction::Apply
        } else {
            RenderAction::ReportFailure
        }
    }
}

} // verus!
