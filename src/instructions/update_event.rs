//! Repricing an event before any ticket has been sold.
use vstd::prelude::*;

use crate::state::event::{lamports_of, sol_to_lamports};
use crate::state::Event;
use crate::{Address, ErrorCode};

verus! {

/// What the update operation is handed.
#[derive(Debug, Clone)]
pub struct UpdateEvent {
    pub event: Event,
    /// The signer, who must be the event's organizer.
    pub organizer: Address,
}

/// The condition that rejects a repricing to `new_price` whole units by
/// `signer`, if any.
pub open spec fn update_error(e: Event, signer: Address, new_price: u64) -> Option<ErrorCode> {
    if e.organizer@ != signer@ {
        Some(ErrorCode::Unauthorized)
    } else if new_price == 0 {
        Some(ErrorCode::InvalidPaymentAmount)
    } else if e.tickets_sold != 0 {
        Some(ErrorCode::InvalidEvent)
    } else {
        None
    }
}

/// The event record after a successful repricing.
pub open spec fn after_update(e: Event, new_price: u64) -> Event {
    Event { price_in_lamports: lamports_of(new_price), ..e }
}

/// How the context before and after a repricing to `new_price` relate to
/// its result.
pub open spec fn update_event_post(
    pre: UpdateEvent,
    post: UpdateEvent,
    new_price: u64,
    r: Result<(), ErrorCode>,
) -> bool {
    &&& match r {
        Ok(()) => {
            &&& update_error(pre.event, pre.organizer, new_price) is None
            &&& post.event == after_update(pre.event, new_price)
            &&& post.organizer == pre.organizer
        },
        Err(e) => {
            &&& update_error(pre.event, pre.organizer, new_price) == Some(e)
            &&& post == pre
        },
    }
    &&& (pre.event.wf() ==> post.event.wf())
}

/// Sets the event's price to `new_price` whole units, converted to lamports
/// with saturation. A rejected update changes nothing.
pub fn handler(ctx: &mut UpdateEvent, new_price: u64) -> (r: Result<(), ErrorCode>)
    ensures
        update_event_post(*old(ctx), *final(ctx), new_price, r),
{
    if !ctx.event.organizer.same_as(&ctx.organizer) {
        return Err(ErrorCode::Unauthorized);
    }
    if new_price == 0 {
        return Err(ErrorCode::InvalidPaymentAmount);
    }
    if ctx.event.tickets_sold != 0 {
        return Err(ErrorCode::InvalidEvent);
    }
    ctx.event.price_in_lamports = sol_to_lamports(new_price);
    Ok(())
}

} // verus!
