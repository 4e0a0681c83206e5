//! Creating the program's configuration record.
use vstd::prelude::*;

use crate::state::ProgramState;
use crate::Address;

verus! {

/// What the initialize operation is handed.
#[derive(Debug, Clone, Copy)]
pub struct InitializeProgram {
    /// The signer, who becomes owner and treasury.
    pub initializer: Address,
    /// Derivation bump of the configuration record's address.
    pub bump: u8,
}

/// Builds the configuration record: the initializer owns it and receives
/// platform fees, the counters start at zero, the program is not paused and
/// the platform fee is zero. Allocating the record once is the host's task.
pub fn handler(ctx: &InitializeProgram) -> (r: ProgramState)
    ensures
        r == (ProgramState {
            bump: ctx.bump,
            owner: ctx.initializer,
            total_events: 0,
            total_tickets_minted: 0,
            treasury: ctx.initializer,
            is_paused: false,
            platform_fee_bps: 0,
        }),
{
    ProgramState {
        bump: ctx.bump,
        owner: ctx.initializer,
        total_events: 0,
        total_tickets_minted: 0,
        treasury: ctx.initializer,
        is_paused: false,
        platform_fee_bps: 0,
    }
}

} // verus!
