//! Passing a ticket asset to another wallet.
use vstd::prelude::*;

use crate::{Address, ErrorCode};

verus! {

/// What the transfer operation is handed.
#[derive(Debug, Clone, Copy)]
pub struct TransferTicket {
    /// The signer, who holds the asset.
    pub owner: Address,
    pub new_owner: Address,
}

/// Accepts the transfer of the asset at `leaf_index`. Ownership is held by
/// the external asset registry, so no record changes here.
pub fn handler(ctx: &TransferTicket, leaf_index: u32) -> (r: Result<(), ErrorCode>)
    ensures
        r is Ok,
{
    Ok(())
}

} // verus!
