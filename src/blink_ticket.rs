//! The program's operations, one entry point each.
use vstd::prelude::*;

use crate::instructions::claim_revenue::{self, claim_revenue_post, ClaimRevenue};
use crate::instructions::create_event::{self, create_event_post, CreateEvent};
use crate::instructions::initialize_program::{self, InitializeProgram};
use crate::instructions::mint_cnft_ticket::{self, MintCNFTTicket};
use crate::instructions::purchase_ticket::{self, purchase_ticket_post, PurchaseTicket};
use crate::instructions::transfer_ticket::{self, TransferTicket};
use crate::instructions::update_event::{self, update_event_post, UpdateEvent};
use crate::instructions::verify_ticket::{self, VerifyTicket};
use crate::state::{Event, ProgramState};
use crate::{ErrorCode, Transfer};

verus! {

/// Initialize the program's configuration record.
pub fn initialize_program(ctx: &InitializeProgram) -> (r: ProgramState)
    ensures
        r == (ProgramState {
            bump: ctx.bump,
            owner: ctx.initializer,
            total_events: 0,
            total_tickets_minted: 0,
            treasury: ctx.initializer,
            is_paused: false,
            platform_fee_bps: 0,
        }),
{
    initialize_program::handler(ctx)
}

/// Create a new event.
pub fn create_event(
    ctx: &mut CreateEvent,
    event_name: String,
    symbol: String,
    uri: String,
    total_tickets: u64,
    price_in_sol: u64,
) -> (r: Result<(Event, Transfer), ErrorCode>)
    ensures
        create_event_post(
            *old(ctx),
            *final(ctx),
            event_name@,
            symbol@,
            uri@,
            total_tickets,
            price_in_sol,
            r,
        ),
{
    create_event::handler(ctx, event_name, symbol, uri, total_tickets, price_in_sol)
}

/// Request a compressed ticket asset.
pub fn mint_cnft_ticket(ctx: &MintCNFTTicket, leaf_index: u32) -> (r: Result<(), ErrorCode>)
    ensures
        r == match ctx.event.sale_error() {
            Some(e) => Err::<(), ErrorCode>(e),
            None => Ok(()),
        },
{
    mint_cnft_ticket::handler(ctx, leaf_index)
}

/// Transfer a ticket to another wallet.
pub fn transfer_ticket(ctx: &TransferTicket, leaf_index: u32) -> (r: Result<(), ErrorCode>)
    ensures
        r is Ok,
{
    transfer_ticket::handler(ctx, leaf_index)
}

/// Buy one ticket.
pub fn purchase_ticket(ctx: &mut PurchaseTicket, amount: u64) -> (r: Result<Transfer, ErrorCode>)
    ensures
        purchase_ticket_post(*old(ctx), *final(ctx), amount, r),
{
    purchase_ticket::handler(ctx, amount)
}

/// Change an event's price before any sale.
pub fn update_event(ctx: &mut UpdateEvent, new_price: u64) -> (r: Result<(), ErrorCode>)
    ensures
        update_event_post(*old(ctx), *final(ctx), new_price, r),
{
    update_event::handler(ctx, new_price)
}

/// Reset an event's revenue account.
pub fn claim_revenue(ctx: &mut ClaimRevenue) -> (r: Result<(), ErrorCode>)
    ensures
        claim_revenue_post(*old(ctx), *final(ctx), r),
{
    claim_revenue::handler(ctx)
}

/// Confirm a ticket holder's signature.
pub fn verify_ticket(ctx: &VerifyTicket) -> (r: Result<(), ErrorCode>)
    ensures
        r is Ok,
{
    verify_ticket::handler(ctx)
}

} // verus!
