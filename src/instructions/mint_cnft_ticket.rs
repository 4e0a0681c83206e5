//! Requesting a compressed ticket asset from the external registry.
use vstd::prelude::*;

use crate::state::Event;
use crate::{Address, ErrorCode};

verus! {

/// What the mint operation is handed.
#[derive(Debug, Clone)]
pub struct MintCNFTTicket {
    pub event: Event,
    /// The signer, who receives the asset.
    pub buyer: Address,
    /// The external asset registry that allocates the asset.
    pub merkle_tree: Address,
}

/// Accepts the mint request at `leaf_index` while the event is active and
/// not sold out. The asset itself is allocated by the registry; no record
/// changes here.
pub fn handler(ctx: &MintCNFTTicket, leaf_index: u32) -> (r: Result<(), ErrorCode>)
    ensures
        r == match ctx.event.sale_error() {
            Some(e) => Err::<(), ErrorCode>(e),
            None => Ok(()),
        },
{
    ctx.event.check_open()
}

} // verus!
