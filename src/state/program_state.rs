use vstd::prelude::*;

use crate::Address;

verus! {

/// The singleton configuration record of one deployment.
///
/// `total_tickets_minted`, `is_paused` and `platform_fee_bps` are reserved:
/// they are set at initialization and no operation reads or changes them.
#[derive(Debug, Clone, Copy)]
pub struct ProgramState {
    pub bump: u8,
    pub owner: Address,
    /// Number of events created so far; the next event's identifier.
    pub total_events: u64,
    pub total_tickets_minted: u64,
    pub treasury: Address,
    pub is_paused: bool,
    /// Platform fee in basis points.
    pub platform_fee_bps: u16,
}

impl ProgramState {
    /// Bytes that the serialized record takes, tag included.
    pub const SPACE: usize = 8 + 1 + 32 + 8 + 8 + 32 + 1 + 2;
}

} // verus!
