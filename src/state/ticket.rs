use vstd::prelude::*;

use crate::Address;

verus! {

/// The layout of one issued ticket. No operation allocates or changes such a
/// record yet: ownership is held by the external asset registry.
#[derive(Debug, Clone)]
pub struct Ticket {
    pub bump: u8,
    pub ticket_id: u64,
    pub event_id: u64,
    pub owner: Address,
    pub mint: Address,
    pub metadata_uri: String,
    pub created_at: i64,
    pub transferred: bool,
    pub transferred_to: Option<Address>,
    pub transferred_at: Option<i64>,
    pub used: bool,
    pub used_at: Option<i64>,
}

impl Ticket {
    pub const MAX_URI_LENGTH: usize = 200;

    /// Bytes that the serialized record takes, tag included.
    pub const SPACE: usize = 8 + 1 + 8 + 8 + 32 + 32 + 4 + 200 + 8 + 1 + 1 + 32 + 1 + 8 + 1 + 1 + 8;
}

} // verus!
