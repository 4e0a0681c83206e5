//! Confirming a ticket holder's signature.
use vstd::prelude::*;

use crate::{Address, ErrorCode};

verus! {

/// What the verify operation is handed.
#[derive(Debug, Clone, Copy)]
pub struct VerifyTicket {
    /// The signer; the host has already checked the signature.
    pub owner: Address,
}

/// Reports success: the signature check is the host's, and no record is
/// consulted.
pub fn handler(ctx: &VerifyTicket) -> (r: Result<(), ErrorCode>)
    ensures
        r is Ok,
{
    Ok(())
}

} // verus!
