//! Ticket-issuance ledger program: the records it keeps and the rules by which
//! each operation validates and changes them.
//!
//! Every operation is a function from the records it is handed (and the
//! caller's identity) to either an error or the changed records, together with
//! any native-currency transfer that the host must carry out. The host runs an
//! operation atomically: if the transfer fails, the changed records are dropped.
use vstd::prelude::*;

pub mod blink_ticket;
pub mod instructions;
pub mod laws;
pub mod state;

verus! {

/// Failure conditions of the ticketing operations.
#[derive(Debug, Clone, Copy, PartialEq, Eq, Structural)]
pub enum ErrorCode {
    InvalidEvent,
    EventNotFound,
    InsufficientBalance,
    Unauthorized,
    InvalidTicket,
    TicketAlreadyTransferred,
    EventCapacityExceeded,
    InvalidPaymentAmount,
    TokenTransferFailed,
    UnsupportedOperation,
}

impl ErrorCode {
    /// The human-readable message of each condition.
    pub fn message(&self) -> (r: &'static str) {
        match self {
            ErrorCode::InvalidEvent => "Invalid event",
            ErrorCode::EventNotFound => "Event not found",
            ErrorCode::InsufficientBalance => "Insufficient balance",
            ErrorCode::Unauthorized => "Unauthorized",
            ErrorCode::InvalidTicket => "Invalid ticket",
            ErrorCode::TicketAlreadyTransferred => "Ticket already transferred",
            ErrorCode::EventCapacityExceeded => "Event capacity exceeded",
            ErrorCode::InvalidPaymentAmount => "Invalid payment amount",
            ErrorCode::TokenTransferFailed => "Token transfer failed",
            ErrorCode::UnsupportedOperation => "Unsupported operation",
        }
    }
}

/// A 32-byte account address (public key) on the host ledger.
#[derive(Debug, Clone, Copy)]
pub struct Address {
    pub bytes: [u8; 32],
}

impl View for Address {
    type V = Seq<u8>;

    open spec fn view(&self) -> Seq<u8> {
        self.bytes@
    }
}

impl Address {
    pub fn new(bytes: [u8; 32]) -> (r: Address)
        ensures
            r@ == bytes@,
    {
        Address { bytes }
    }

    /// Whether two addresses name the same account.
    pub fn same_as(&self, other: &Address) -> (r: bool)
        ensures
            r == (self@ == other@),
    {
        let mut i: usize = 0;
        while i < 32
            invariant
                i <= 32,
                self@.len() == 32,
                other@.len() == 32,
                forall|j: int| 0 <= j < i ==> self@[j] == other@[j],
            decreases 32 - i,
        {
            if self.bytes[i] != other.bytes[i] {
                return false;
            }
            i = i + 1;
        }
        assert(self@ =~= other@);
        true
    }
}

/// A movement of native currency that the host must carry out for an
/// operation to take effect.
#[derive(Debug, Clone, Copy)]
pub struct Transfer {
    pub from: Address,
    pub to: Address,
    pub amount: u64,
}

} // verus!
