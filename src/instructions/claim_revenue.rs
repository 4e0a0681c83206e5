//! Resetting an event's revenue account.
//!
//! Proceeds reach the organizer at the moment of each purchase, so a claim
//! moves no funds: it only starts the revenue count afresh.
use vstd::prelude::*;

use crate::state::Event;
use crate::{Address, ErrorCode};

verus! {

/// What the claim operation is handed.
#[derive(Debug, Clone)]
pub struct ClaimRevenue {
    pub event: Event,
    /// The signer, who must be the event's organizer.
    pub organizer: Address,
}

/// The condition that rejects a claim by `signer`, if any.
pub open spec fn claim_error(e: Event, signer: Address) -> Option<ErrorCode> {
    if e.organizer@ != signer@ {
        Some(ErrorCode::Unauthorized)
    } else {
        None
    }
}

/// The event record after a successful claim.
pub open spec fn after_claim(e: Event) -> Event {
    Event { revenue_collected: 0, ..e }
}

/// How the context before and after a claim relate to
/// its result.
pub open spec fn claim_revenue_post(
    pre: ClaimRevenue,
    post: ClaimRevenue,
    r: Result<(), ErrorCode>,
) -> bool {
    &&& match r {
        Ok(()) => {
            &&& claim_error(pre.event, pre.organizer) is None
            &&& post.event == after_claim(pre.event)
            &&& post.organizer == pre.organizer
        },
        Err(e) => {
            &&& claim_error(pre.event, pre.organizer) == Some(e)
            &&& post == pre
        },
    }
    &&& (pre.event.wf() ==> post.event.wf())
}

/// Resets the event's collected revenue to zero, whatever it was, when the
/// signer is the organizer; otherwise changes nothing.
pub fn handler(ctx: &mut ClaimRevenue) -> (r: Result<(), ErrorCode>)
    ensures
        claim_revenue_post(*old(ctx), *final(ctx), r),
{
    if !ctx.event.organizer.same_as(&ctx.organizer) {
        return Err(ErrorCode::Unauthorized);
    }
    ctx.event.revenue_collected = 0;
    Ok(())
}

} // verus!
