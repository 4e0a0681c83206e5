use blink_ticket::blink_ticket::{
    claim_revenue, create_event, initialize_program, mint_cnft_ticket, purchase_ticket,
    transfer_ticket, update_event, verify_ticket,
};
use blink_ticket::instructions::create_event::EVENT_POST_FEE_LAMPORTS;
use blink_ticket::instructions::{
    ClaimRevenue, CreateEvent, InitializeProgram, MintCNFTTicket, PurchaseTicket,
    TransferTicket, UpdateEvent, VerifyTicket,
};
use blink_ticket::state::event::sol_to_lamports;
use blink_ticket::state::{Event, ProgramState, Ticket};
use blink_ticket::{Address, ErrorCode};

fn addr(b: u8) -> Address {
    Address::new([b; 32])
}

fn deployed() -> ProgramState {
    initialize_program(&InitializeProgram { initializer: addr(1), bump: 254 })
}

fn creation(state: ProgramState) -> CreateEvent {
    CreateEvent {
        program_state: state,
        organizer: addr(2),
        merkle_tree: addr(9),
        event_bump: 253,
        now: 1_700_000_000,
    }
}

fn new_event(total_tickets: u64, price_in_sol: u64) -> Event {
    let mut ctx = creation(deployed());
    let (event, _) = create_event(
        &mut ctx,
        "Concert".to_string(),
        "CNC".to_string(),
        "https://example.com/concert.json".to_string(),
        total_tickets,
        price_in_sol,
    )
    .unwrap();
    event
}

fn buyer_of(event: Event) -> PurchaseTicket {
    PurchaseTicket { event, buyer: addr(7) }
}

fn same_event(a: &Event, b: &Event) -> bool {
    a.event_id == b.event_id
        && a.organizer.bytes == b.organizer.bytes
        && a.event_name == b.event_name
        && a.symbol == b.symbol
        && a.uri == b.uri
        && a.total_tickets == b.total_tickets
        && a.tickets_sold == b.tickets_sold
        && a.price_in_lamports == b.price_in_lamports
        && a.created_at == b.created_at
        && a.event_active == b.event_active
        && a.merkle_tree.bytes == b.merkle_tree.bytes
        && a.treasury.bytes == b.treasury.bytes
        && a.revenue_collected == b.revenue_collected
}

fn try_create(name: &str, symbol: &str, uri: &str, total: u64, price: u64) -> (Result<(Event, blink_ticket::Transfer), ErrorCode>, CreateEvent) {
    let mut ctx = creation(deployed());
    let r = create_event(&mut ctx, name.to_string(), symbol.to_string(), uri.to_string(), total, price);
    (r, ctx)
}

#[test]
fn initialize_sets_owner_and_zeroes_counters() {
    let s = deployed();
    assert_eq!(s.bump, 254);
    assert_eq!(s.owner.bytes, [1u8; 32]);
    assert_eq!(s.treasury.bytes, [1u8; 32]);
    assert_eq!(s.total_events, 0);
    assert_eq!(s.total_tickets_minted, 0);
    assert!(!s.is_paused);
    assert_eq!(s.platform_fee_bps, 0);
}

#[test]
fn create_event_fills_a_fresh_record() {
    let mut ctx = creation(deployed());
    let (ev, fee) = create_event(
        &mut ctx,
        "Concert".to_string(),
        "CNC".to_string(),
        "https://example.com/c.json".to_string(),
        10,
        3,
    )
    .unwrap();
    assert_eq!(ev.bump, 253);
    assert_eq!(ev.event_id, 0);
    assert_eq!(ev.organizer.bytes, [2u8; 32]);
    assert_eq!(ev.event_name, "Concert");
    assert_eq!(ev.symbol, "CNC");
    assert_eq!(ev.uri, "https://example.com/c.json");
    assert_eq!(ev.total_tickets, 10);
    assert_eq!(ev.tickets_sold, 0);
    assert_eq!(ev.price_in_lamports, 3_000_000_000);
    assert_eq!(ev.created_at, 1_700_000_000);
    assert!(ev.event_active);
    assert_eq!(ev.merkle_tree.bytes, [9u8; 32]);
    assert_eq!(ev.treasury.bytes, [2u8; 32]);
    assert_eq!(ev.revenue_collected, 0);
    assert_eq!(fee.from.bytes, [2u8; 32]);
    assert_eq!(fee.to.bytes, [1u8; 32]);
    assert_eq!(fee.amount, 100_000);
    assert_eq!(EVENT_POST_FEE_LAMPORTS, 100_000);
    assert_eq!(ctx.program_state.total_events, 1);
}

#[test]
fn create_event_ids_follow_the_counter() {
    let mut ctx = creation(deployed());
    for expected in 0..3u64 {
        let (ev, _) = create_event(&mut ctx, "A".to_string(), "B".to_string(), "C".to_string(), 1, 1).unwrap();
        assert_eq!(ev.event_id, expected);
    }
    assert_eq!(ctx.program_state.total_events, 3);
}

#[test]
fn create_event_counter_saturates() {
    let mut state = deployed();
    state.total_events = u64::MAX;
    let mut ctx = creation(state);
    let (ev, _) = create_event(&mut ctx, "A".to_string(), "B".to_string(), "C".to_string(), 1, 1).unwrap();
    assert_eq!(ev.event_id, u64::MAX);
    assert_eq!(ctx.program_state.total_events, u64::MAX);
}

#[test]
fn create_event_price_saturates() {
    let (r, _) = try_create("A", "B", "C", 1, u64::MAX);
    assert_eq!(r.unwrap().0.price_in_lamports, u64::MAX);
    let (r, _) = try_create("A", "B", "C", 1, 18_446_744_073);
    assert_eq!(r.unwrap().0.price_in_lamports, 18_446_744_073_000_000_000);
    let (r, _) = try_create("A", "B", "C", 1, 18_446_744_074);
    assert_eq!(r.unwrap().0.price_in_lamports, u64::MAX);
}

#[test]
fn sol_to_lamports_values() {
    assert_eq!(sol_to_lamports(0), 0);
    assert_eq!(sol_to_lamports(1), 1_000_000_000);
    assert_eq!(sol_to_lamports(u64::MAX), u64::MAX);
}

#[test]
fn create_event_empty_name_is_rejected() {
    let (r, ctx) = try_create("", "CNC", "uri", 10, 1);
    assert_eq!(r.unwrap_err(), ErrorCode::InvalidEvent);
    assert_eq!(ctx.program_state.total_events, 0);
}

#[test]
fn create_event_string_bounds() {
    let n50 = "a".repeat(50);
    let n51 = "a".repeat(51);
    assert!(try_create(&n50, "S", "U", 1, 1).0.is_ok());
    assert_eq!(try_create(&n51, "S", "U", 1, 1).0.unwrap_err(), ErrorCode::InvalidEvent);
    assert!(try_create("N", &"s".repeat(10), "U", 1, 1).0.is_ok());
    assert_eq!(try_create("N", &"s".repeat(11), "U", 1, 1).0.unwrap_err(), ErrorCode::InvalidEvent);
    assert_eq!(try_create("N", "", "U", 1, 1).0.unwrap_err(), ErrorCode::InvalidEvent);
    assert!(try_create("N", "S", &"u".repeat(200), 1, 1).0.is_ok());
    assert_eq!(try_create("N", "S", &"u".repeat(201), 1, 1).0.unwrap_err(), ErrorCode::InvalidEvent);
    assert_eq!(try_create("N", "S", "", 1, 1).0.unwrap_err(), ErrorCode::InvalidEvent);
}

#[test]
fn create_event_bounds_count_bytes() {
    // 25 two-byte characters fill the name exactly; 26 overflow it.
    assert!(try_create(&"é".repeat(25), "S", "U", 1, 1).0.is_ok());
    let (r, ctx) = try_create(&"é".repeat(26), "S", "U", 1, 1);
    assert_eq!(r.unwrap_err(), ErrorCode::InvalidEvent);
    assert_eq!(ctx.program_state.total_events, 0);
}

#[test]
fn create_event_zero_capacity_or_price_is_rejected() {
    assert_eq!(try_create("N", "S", "U", 0, 1).0.unwrap_err(), ErrorCode::InvalidEvent);
    let (r, ctx) = try_create("N", "S", "U", 1, 0);
    assert_eq!(r.unwrap_err(), ErrorCode::InvalidPaymentAmount);
    assert_eq!(ctx.program_state.total_events, 0);
    // a bad capacity is reported before a bad price
    assert_eq!(try_create("N", "S", "U", 0, 0).0.unwrap_err(), ErrorCode::InvalidEvent);
}

#[test]
fn ten_purchases_sell_out_and_the_eleventh_fails() {
    let state = deployed();
    assert_eq!(state.total_events, 0);
    let mut ctx = buyer_of(new_event(10, 1));
    for i in 0..10u64 {
        let t = purchase_ticket(&mut ctx, 1_000_000_000).unwrap();
        assert_eq!(t.amount, 1_000_000_000);
        assert_eq!(t.from.bytes, [7u8; 32]);
        assert_eq!(t.to.bytes, [2u8; 32]);
        assert_eq!(ctx.event.tickets_sold, i + 1);
    }
    assert_eq!(ctx.event.tickets_sold, 10);
    assert_eq!(ctx.event.revenue_collected, 10_000_000_000);
    let before = ctx.event.clone();
    assert_eq!(purchase_ticket(&mut ctx, 1_000_000_000).unwrap_err(), ErrorCode::EventCapacityExceeded);
    assert!(same_event(&before, &ctx.event));
}

#[test]
fn purchase_with_wrong_amount_is_rejected() {
    let mut ctx = buyer_of(new_event(5, 2));
    let before = ctx.event.clone();
    assert_eq!(purchase_ticket(&mut ctx, 1_999_999_999).unwrap_err(), ErrorCode::InvalidPaymentAmount);
    assert_eq!(purchase_ticket(&mut ctx, 2_000_000_001).unwrap_err(), ErrorCode::InvalidPaymentAmount);
    assert_eq!(purchase_ticket(&mut ctx, 0).unwrap_err(), ErrorCode::InvalidPaymentAmount);
    assert!(same_event(&before, &ctx.event));
    assert!(purchase_ticket(&mut ctx, 2_000_000_000).is_ok());
    assert_eq!(ctx.event.tickets_sold, 1);
}

#[test]
fn purchase_on_inactive_event_is_rejected() {
    let mut ev = new_event(5, 1);
    ev.event_active = false;
    let mut ctx = buyer_of(ev);
    assert_eq!(purchase_ticket(&mut ctx, 1_000_000_000).unwrap_err(), ErrorCode::InvalidEvent);
    assert_eq!(ctx.event.tickets_sold, 0);
}

#[test]
fn purchase_revenue_saturates() {
    let mut ev = new_event(5, 1);
    ev.revenue_collected = u64::MAX - 10;
    let mut ctx = buyer_of(ev);
    purchase_ticket(&mut ctx, 1_000_000_000).unwrap();
    assert_eq!(ctx.event.revenue_collected, u64::MAX);
    assert_eq!(ctx.event.tickets_sold, 1);
}

#[test]
fn update_event_before_any_sale() {
    let mut ctx = UpdateEvent { event: new_event(5, 1), organizer: addr(2) };
    update_event(&mut ctx, 4).unwrap();
    assert_eq!(ctx.event.price_in_lamports, 4_000_000_000);
    update_event(&mut ctx, u64::MAX).unwrap();
    assert_eq!(ctx.event.price_in_lamports, u64::MAX);
}

#[test]
fn update_event_after_sale_fails() {
    let mut p = buyer_of(new_event(5, 1));
    purchase_ticket(&mut p, 1_000_000_000).unwrap();
    let mut ctx = UpdateEvent { event: p.event, organizer: addr(2) };
    assert_eq!(update_event(&mut ctx, 2).unwrap_err(), ErrorCode::InvalidEvent);
    assert_eq!(ctx.event.price_in_lamports, 1_000_000_000);
}

#[test]
fn update_event_rejections() {
    let mut ctx = UpdateEvent { event: new_event(5, 1), organizer: addr(3) };
    assert_eq!(update_event(&mut ctx, 2).unwrap_err(), ErrorCode::Unauthorized);
    let mut ctx = UpdateEvent { event: new_event(5, 1), organizer: addr(2) };
    assert_eq!(update_event(&mut ctx, 0).unwrap_err(), ErrorCode::InvalidPaymentAmount);
    assert_eq!(ctx.event.price_in_lamports, 1_000_000_000);
}

#[test]
fn claim_revenue_resets_for_organizer_only() {
    let mut p = buyer_of(new_event(5, 1));
    purchase_ticket(&mut p, 1_000_000_000).unwrap();
    purchase_ticket(&mut p, 1_000_000_000).unwrap();
    let mut other = ClaimRevenue { event: p.event.clone(), organizer: addr(7) };
    assert_eq!(claim_revenue(&mut other).unwrap_err(), ErrorCode::Unauthorized);
    assert_eq!(other.event.revenue_collected, 2_000_000_000);
    let mut ctx = ClaimRevenue { event: p.event, organizer: addr(2) };
    claim_revenue(&mut ctx).unwrap();
    assert_eq!(ctx.event.revenue_collected, 0);
    assert_eq!(ctx.event.tickets_sold, 2);
    claim_revenue(&mut ctx).unwrap();
    assert_eq!(ctx.event.revenue_collected, 0);
}

#[test]
fn mint_follows_sale_eligibility() {
    let ev = new_event(1, 1);
    let ctx = MintCNFTTicket { event: ev.clone(), buyer: addr(7), merkle_tree: addr(9) };
    assert!(mint_cnft_ticket(&ctx, 0).is_ok());
    let mut p = buyer_of(ev.clone());
    purchase_ticket(&mut p, 1_000_000_000).unwrap();
    let ctx = MintCNFTTicket { event: p.event, buyer: addr(7), merkle_tree: addr(9) };
    assert_eq!(mint_cnft_ticket(&ctx, 1).unwrap_err(), ErrorCode::EventCapacityExceeded);
    let mut inactive = ev;
    inactive.event_active = false;
    let ctx = MintCNFTTicket { event: inactive, buyer: addr(7), merkle_tree: addr(9) };
    assert_eq!(mint_cnft_ticket(&ctx, 0).unwrap_err(), ErrorCode::InvalidEvent);
}

#[test]
fn transfer_and_verify_succeed() {
    assert!(transfer_ticket(&TransferTicket { owner: addr(7), new_owner: addr(8) }, 3).is_ok());
    assert!(verify_ticket(&VerifyTicket { owner: addr(7) }).is_ok());
}

#[test]
fn address_comparison() {
    assert!(addr(4).same_as(&addr(4)));
    assert!(!addr(4).same_as(&addr(5)));
    let mut b = [4u8; 32];
    b[31] = 0;
    assert!(!addr(4).same_as(&Address::new(b)));
}

#[test]
fn error_messages() {
    assert_eq!(ErrorCode::InvalidEvent.message(), "Invalid event");
    assert_eq!(ErrorCode::EventCapacityExceeded.message(), "Event capacity exceeded");
    assert_eq!(ErrorCode::InvalidPaymentAmount.message(), "Invalid payment amount");
    assert_eq!(ErrorCode::Unauthorized.message(), "Unauthorized");
}

#[test]
fn record_sizes() {
    assert_eq!(ProgramState::SPACE, 92);
    assert_eq!(Event::SPACE, 426);
    assert_eq!(Ticket::SPACE, 354);
    assert_eq!(Event::MAX_NAME_LENGTH, 50);
    assert_eq!(Ticket::MAX_URI_LENGTH, 200);
}
