//! Buying one ticket at the event's exact price.
use vstd::prelude::*;

use crate::state::Event;
use crate::{Address, ErrorCode, Transfer};

verus! {

/// What the purchase operation is handed.
#[derive(Debug, Clone)]
pub struct PurchaseTicket {
    pub event: Event,
    /// The signer, who pays.
    pub buyer: Address,
}

/// The condition that rejects a purchase paying `amount`, if any.
pub open spec fn purchase_error(e: Event, amount: u64) -> Option<ErrorCode> {
    match e.sale_error() {
        Some(err) => Some(err),
        None => if amount != e.price_in_lamports {
            Some(ErrorCode::InvalidPaymentAmount)
        } else {
            None
        },
    }
}

/// The event record after a successful purchase paying `amount`.
pub open spec fn after_purchase(e: Event, amount: u64) -> Event {
    Event {
        revenue_collected: e.revenue_collected.saturating_add(amount),
        tickets_sold: e.tickets_sold.saturating_add(1),
        ..e
    }
}

/// The proceeds of a purchase: from the buyer to the event's treasury.
pub open spec fn proceeds(pre: PurchaseTicket, amount: u64) -> Transfer {
    Transfer { from: pre.buyer, to: pre.event.treasury, amount }
}

/// How the context before and after a purchase paying `amount` relate to
/// its result.
pub open spec fn purchase_ticket_post(
    pre: PurchaseTicket,
    post: PurchaseTicket,
    amount: u64,
    r: Result<Transfer, ErrorCode>,
) -> bool {
    &&& match r {
        Ok(t) => {
            &&& purchase_error(pre.event, amount) is None
            &&& t == proceeds(pre, amount)
            &&& post.event == after_purchase(pre.event, amount)
            &&& post.buyer == pre.buyer
        },
        Err(e) => {
            &&& purchase_error(pre.event, amount) == Some(e)
            &&& post == pre
        },
    }
    &&& (pre.event.wf() ==> post.event.wf())
}

/// Checks the event and the amount, records the sale and returns the
/// transfer of the proceeds. A rejected purchase changes nothing and asks
/// for no transfer.
pub fn handler(ctx: &mut PurchaseTicket, amount: u64) -> (r: Result<Transfer, ErrorCode>)
    ensures
        purchase_ticket_post(*old(ctx), *final(ctx), amount, r),
{
    match ctx.event.check_open() {
        Err(e) => {
            return Err(e);
        },
        Ok(()) => {},
    }
    if amount != ctx.event.price_in_lamports {
        return Err(ErrorCode::InvalidPaymentAmount);
    }
    let payment = Transfer { from: ctx.buyer, to: ctx.event.treasury, amount };
    ctx.event.revenue_collected = ctx.event.revenue_collected.saturating_add(amount);
    ctx.event.tickets_sold = ctx.event.tickets_sold.saturating_add(1);
    Ok(payment)
}

} // verus!
