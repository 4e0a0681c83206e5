//! Creating an event.
//!
//! Posting an event costs the organizer a flat fee, paid to the platform
//! treasury; the fee is owed only when the event is created.
use vstd::prelude::*;

use crate::state::event::{
    check_label, label_ok, lamports_of, sol_to_lamports, Event,
};
use crate::state::ProgramState;
use crate::{Address, ErrorCode, Transfer};

verus! {

/// Flat fee, in lamports, for posting an event.
pub const EVENT_POST_FEE_LAMPORTS: u64 = 100_000;

/// What the create-event operation is handed.
#[derive(Debug, Clone, Copy)]
pub struct CreateEvent {
    pub program_state: ProgramState,
    /// The signer, who becomes the organizer.
    pub organizer: Address,
    /// The external asset registry for the event's tickets.
    pub merkle_tree: Address,
    /// Derivation bump of the new event record's address.
    pub event_bump: u8,
    /// The host clock's reading, in seconds since the Unix epoch.
    pub now: i64,
}

/// The condition that rejects the given creation inputs, if any.
pub open spec fn creation_error(
    event_name: Seq<char>,
    symbol: Seq<char>,
    uri: Seq<char>,
    total_tickets: u64,
    price_in_sol: u64,
) -> Option<ErrorCode> {
    if !label_ok(event_name, 50) || !label_ok(symbol, 10) || !label_ok(uri, 200)
        || total_tickets == 0 {
        Some(ErrorCode::InvalidEvent)
    } else if price_in_sol == 0 {
        Some(ErrorCode::InvalidPaymentAmount)
    } else {
        None
    }
}

/// The relation between the context before and after a create-event call and
/// its result: on success, `ev` is the new record and `fee` the posting fee.
pub open spec fn create_event_post(
    pre: CreateEvent,
    post: CreateEvent,
    event_name: Seq<char>,
    symbol: Seq<char>,
    uri: Seq<char>,
    total_tickets: u64,
    price_in_sol: u64,
    r: Result<(Event, Transfer), ErrorCode>,
) -> bool {
    match r {
        Err(e) => {
            &&& creation_error(event_name, symbol, uri, total_tickets, price_in_sol) == Some(e)
            &&& post == pre
        },
        Ok((ev, fee)) => {
            &&& creation_error(event_name, symbol, uri, total_tickets, price_in_sol) is None
            &&& ev.bump == pre.event_bump
            &&& ev.event_id == pre.program_state.total_events
            &&& ev.organizer == pre.organizer
            &&& ev.event_name@ == event_name
            &&& ev.symbol@ == symbol
            &&& ev.uri@ == uri
            &&& ev.total_tickets == total_tickets
            &&& ev.tickets_sold == 0
            &&& ev.price_in_lamports == lamports_of(price_in_sol)
            &&& ev.created_at == pre.now
            &&& ev.event_active
            &&& ev.merkle_tree == pre.merkle_tree
            &&& ev.treasury == pre.organizer
            &&& ev.revenue_collected == 0
            &&& ev.wf()
            &&& fee == (Transfer {
                from: pre.organizer,
                to: pre.program_state.treasury,
                amount: EVENT_POST_FEE_LAMPORTS,
            })
            &&& post == (CreateEvent {
                program_state: ProgramState {
                    total_events: pre.program_state.total_events.saturating_add(1),
                    ..pre.program_state
                },
                ..pre
            })
        },
    }
}

/// Validates the inputs, builds the new event record, advances the event
/// counter and returns the record with the posting fee to collect.
pub fn handler(
    ctx: &mut CreateEvent,
    event_name: String,
    symbol: String,
    uri: String,
    total_tickets: u64,
    price_in_sol: u64,
) -> (r: Result<(Event, Transfer), ErrorCode>)
    ensures
        create_event_post(
            *old(ctx),
            *final(ctx),
            event_name@,
            symbol@,
            uri@,
            total_tickets,
            price_in_sol,
            r,
        ),
{
    if !check_label(&event_name, Event::MAX_NAME_LENGTH) {
        return Err(ErrorCode::InvalidEvent);
    }
    if !check_label(&symbol, Event::MAX_SYMBOL_LENGTH) {
        return Err(ErrorCode::InvalidEvent);
    }
    if !check_label(&uri, Event::MAX_URI_LENGTH) {
        return Err(ErrorCode::InvalidEvent);
    }
    if total_tickets == 0 {
        return Err(ErrorCode::InvalidEvent);
    }
    if price_in_sol == 0 {
        return Err(ErrorCode::InvalidPaymentAmount);
    }
    let fee = Transfer {
        from: ctx.organizer,
        to: ctx.program_state.treasury,
        amount: EVENT_POST_FEE_LAMPORTS,
    };
    let event = Event {
        bump: ctx.event_bump,
        event_id: ctx.program_state.total_events,
        organizer: ctx.organizer,
        event_name,
        symbol,
        uri,
        total_tickets,
        tickets_sold: 0,
        price_in_lamports: sol_to_lamports(price_in_sol),
        created_at: ctx.now,
        event_active: true,
        merkle_tree: ctx.merkle_tree,
        treasury: ctx.organizer,
        revenue_collected: 0,
    };
    ctx.program_state.total_events = ctx.program_state.total_events.saturating_add(1);
    Ok((event, fee))
}

} // verus!
