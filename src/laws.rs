//! Properties of the operations that span several calls or every input.
use vstd::prelude::*;

use crate::instructions::claim_revenue::{after_claim, claim_error};
use crate::instructions::purchase_ticket::{
    after_purchase, purchase_error, purchase_ticket_post, PurchaseTicket,
};
use crate::instructions::update_event::update_error;
use crate::state::Event;
use crate::{Address, ErrorCode, Transfer};

verus! {

/// The event record after one purchase attempt paying `amount`: the
/// purchase handler leaves exactly this record behind, whether it accepts
/// the purchase or rejects it.
pub open spec fn purchase_step(e: Event, amount: u64) -> Event {
    if purchase_error(e, amount) is None {
        after_purchase(e, amount)
    } else {
        e
    }
}

/// One purchase call, accepted or not, changes the event record as
/// `purchase_step` says.
pub proof fn lemma_purchase_call_is_step(
    pre: PurchaseTicket,
    post: PurchaseTicket,
    amount: u64,
    r: Result<Transfer, ErrorCode>,
)
    requires
        purchase_ticket_post(pre, post, amount, r),
    ensures
        post.event == purchase_step(pre.event, amount),
        r is Ok <==> purchase_error(pre.event, amount) is None,
{
}

/// The event record after purchase attempts paying each of `amounts` in turn.
pub open spec fn purchases(e: Event, amounts: Seq<u64>) -> Event
    decreases amounts.len(),
{
    if amounts.len() == 0 {
        e
    } else {
        purchases(purchase_step(e, amounts[0]), amounts.drop_first())
    }
}

/// Whatever sequence of purchases is attempted on an event, its sales never
/// exceed its capacity, and its capacity does not change.
pub proof fn lemma_sales_within_capacity(e: Event, amounts: Seq<u64>)
    requires
        e.tickets_sold <= e.total_tickets,
    ensures
        purchases(e, amounts).tickets_sold <= e.total_tickets,
        purchases(e, amounts).total_tickets == e.total_tickets,
    decreases amounts.len(),
{
    if amounts.len() > 0 {
        lemma_sales_within_capacity(purchase_step(e, amounts[0]), amounts.drop_first());
    }
}

/// Any sequence of purchase attempts keeps a well-formed event well-formed.
pub proof fn lemma_purchases_keep_wf(e: Event, amounts: Seq<u64>)
    requires
        e.wf(),
    ensures
        purchases(e, amounts).wf(),
    decreases amounts.len(),
{
    if amounts.len() > 0 {
        lemma_purchases_keep_wf(purchase_step(e, amounts[0]), amounts.drop_first());
    }
}

/// A purchase on an active event that is sold out fails with
/// `EventCapacityExceeded` and leaves the record unchanged.
pub proof fn lemma_sold_out_rejects(e: Event, amount: u64)
    requires
        e.event_active,
        e.tickets_sold >= e.total_tickets,
    ensures
        purchase_error(e, amount) == Some(ErrorCode::EventCapacityExceeded),
        purchase_step(e, amount) == e,
{
}

/// On an active event, as many purchases at the exact price as there are
/// tickets left all succeed and sell the event out, adding the price once per
/// ticket to the revenue where the total fits; the next purchase, at any
/// amount, fails with `EventCapacityExceeded`.
pub proof fn lemma_capacity_purchases_sell_out(e: Event, amounts: Seq<u64>, next: u64)
    requires
        e.event_active,
        e.tickets_sold <= e.total_tickets,
        amounts.len() == e.total_tickets - e.tickets_sold,
        forall|i: int| 0 <= i < amounts.len() ==> amounts[i] == e.price_in_lamports,
    ensures
        purchases(e, amounts).tickets_sold == e.total_tickets,
        e.revenue_collected + amounts.len() * e.price_in_lamports <= u64::MAX ==> purchases(
            e,
            amounts,
        ).revenue_collected == e.revenue_collected + amounts.len() * e.price_in_lamports,
        purchase_error(purchases(e, amounts), next) == Some(ErrorCode::EventCapacityExceeded),
    decreases amounts.len(),
{
    if amounts.len() > 0 {
        let e1 = purchase_step(e, amounts[0]);
        assert(purchase_error(e, amounts[0]) is None);
        assert(e1.tickets_sold == e.tickets_sold + 1);
        let rest = amounts.drop_first();
        assert forall|i: int| 0 <= i < rest.len() implies rest[i] == e1.price_in_lamports by {
            assert(rest[i] == amounts[i + 1]);
        }
        lemma_capacity_purchases_sell_out(e1, rest, next);
        let n = amounts.len();
        let p = e.price_in_lamports;
        assert(e.revenue_collected + (n - 1) * p + p == e.revenue_collected + n * p)
            by (nonlinear_arith);
        if e.revenue_collected + n * p <= u64::MAX {
            assert(0 <= (n - 1) * p) by (nonlinear_arith)
                requires
                    n >= 1,
            ;
            assert(e1.revenue_collected == e.revenue_collected + p);
        }
    }
}

/// A purchase at any amount other than the price, on an active event that is
/// not sold out, fails with `InvalidPaymentAmount` and changes nothing.
pub proof fn lemma_wrong_amount_rejected(e: Event, amount: u64)
    requires
        e.sale_error() is None,
        amount != e.price_in_lamports,
    ensures
        purchase_error(e, amount) == Some(ErrorCode::InvalidPaymentAmount),
        purchase_step(e, amount) == e,
{
}

/// An update is accepted only while no ticket has been sold.
pub proof fn lemma_update_only_before_sales(e: Event, signer: Address, new_price: u64)
    ensures
        update_error(e, signer, new_price) is None ==> e.tickets_sold == 0,
{
}

/// After a successful purchase every update fails; from the organizer with a
/// positive price it fails with `InvalidEvent`.
pub proof fn lemma_no_update_after_sale(
    e: Event,
    amount: u64,
    signer: Address,
    new_price: u64,
)
    requires
        purchase_error(e, amount) is None,
    ensures
        update_error(after_purchase(e, amount), signer, new_price) is Some,
        e.organizer@ == signer@ && new_price > 0 ==> update_error(
            after_purchase(e, amount),
            signer,
            new_price,
        ) == Some(ErrorCode::InvalidEvent),
{
}

/// A claim is accepted exactly from the organizer, and then leaves zero
/// revenue whatever was collected before; from anyone else it fails with
/// `Unauthorized`.
pub proof fn lemma_claim_resets_revenue(e: Event, signer: Address)
    ensures
        claim_error(e, signer) is None <==> e.organizer@ == signer@,
        e.organizer@ != signer@ ==> claim_error(e, signer) == Some(ErrorCode::Unauthorized),
        after_claim(e).revenue_collected == 0,
{
}

} // verus!
