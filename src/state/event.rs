use vstd::prelude::*;
use vstd::utf8::encode_utf8;

use crate::Address;

verus! {

/// Lamports in one SOL, the native currency's whole unit.
pub const LAMPORTS_PER_SOL: u64 = 1_000_000_000;

/// Length in bytes of the UTF-8 encoding of `s`.
pub open spec fn byte_len(s: Seq<char>) -> nat {
    encode_utf8(s).len()
}

/// A descriptive string is accepted when it is non-empty and its encoding
/// takes at most `max` bytes.
pub open spec fn label_ok(s: Seq<char>, max: nat) -> bool {
    0 < byte_len(s) <= max
}

/// `sol` whole units in lamports, clamped to `u64::MAX` where the product
/// does not fit.
pub open spec fn lamports_of(sol: u64) -> u64 {
    if sol * LAMPORTS_PER_SOL > u64::MAX {
        u64::MAX
    } else {
        (sol * LAMPORTS_PER_SOL) as u64
    }
}

/// Converts a price in whole units to lamports, saturating on overflow.
pub fn sol_to_lamports(sol: u64) -> (r: u64)
    ensures
        r == lamports_of(sol),
        sol > 0 ==> r > 0,
{
    match sol.checked_mul(LAMPORTS_PER_SOL) {
        Some(v) => {
            assert(sol > 0 ==> v > 0) by (nonlinear_arith)
                requires
                    v == sol * LAMPORTS_PER_SOL,
                    LAMPORTS_PER_SOL > 0,
            ;
            v
        },
        None => u64::MAX,
    }
}

/// Whether a string's UTF-8 encoding is non-empty and at most `max` bytes.
pub fn check_label(s: &String, max: usize) -> (r: bool)
    ensures
        r == label_ok(s@, max as nat),
{
    let n = s.as_str().as_bytes().len();
    0 < n && n <= max
}

/// One event offered for sale.
#[derive(Debug, Clone)]
pub struct Event {
    pub bump: u8,
    /// Sequential identifier taken from the program's event counter.
    pub event_id: u64,
    /// The only identity allowed to update the event or reset its revenue.
    pub organizer: Address,
    pub event_name: String,
    pub symbol: String,
    pub uri: String,
    /// Capacity of the event.
    pub total_tickets: u64,
    pub tickets_sold: u64,
    pub price_in_lamports: u64,
    pub created_at: i64,
    /// Sales and mints are accepted only while this holds.
    pub event_active: bool,
    /// The external asset registry that holds this event's tickets.
    pub merkle_tree: Address,
    /// Receives the proceeds of every purchase.
    pub treasury: Address,
    /// Proceeds received since creation or since the last reset.
    pub revenue_collected: u64,
}

impl Event {
    pub const MAX_NAME_LENGTH: usize = 50;

    pub const MAX_SYMBOL_LENGTH: usize = 10;

    pub const MAX_URI_LENGTH: usize = 200;

    /// Bytes that the serialized record takes, tag included.
    pub const SPACE: usize = 8 + 1 + 8 + 32 + 4 + 50 + 4 + 10 + 4 + 200 + 8 + 8 + 8 + 8 + 1 + 32 + 32 + 8;

    /// The record's invariant: the descriptive strings are within bounds, the
    /// capacity and the price are positive, and sales stay within capacity.
    pub open spec fn wf(&self) -> bool {
        &&& label_ok(self.event_name@, 50)
        &&& label_ok(self.symbol@, 10)
        &&& label_ok(self.uri@, 200)
        &&& 0 < self.total_tickets
        &&& self.tickets_sold <= self.total_tickets
        &&& 0 < self.price_in_lamports
    }

    /// Whether the event currently accepts sales and mints.
    pub open spec fn sale_error(&self) -> Option<crate::ErrorCode> {
        if !self.event_active {
            Some(crate::ErrorCode::InvalidEvent)
        } else if self.tickets_sold >= self.total_tickets {
            Some(crate::ErrorCode::EventCapacityExceeded)
        } else {
            None
        }
    }

    /// Checks that the event accepts sales and mints.
    pub fn check_open(&self) -> (r: Result<(), crate::ErrorCode>)
        ensures
            r == match self.sale_error() {
                Some(e) => Err::<(), crate::ErrorCode>(e),
                None => Ok(()),
            },
    {
        if !self.event_active {
            return Err(crate::ErrorCode::InvalidEvent);
        }
        if self.tickets_sold >= self.total_tickets {
            return Err(crate::ErrorCode::EventCapacityExceeded);
        }
        Ok(())
    }
}

} // verus!
