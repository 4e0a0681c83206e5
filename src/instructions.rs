//! One module per operation: its context (the records and identities it is
//! handed) and its handler.
pub mod claim_revenue;
pub mod create_event;
pub mod initialize_program;
pub mod mint_cnft_ticket;
pub mod purchase_ticket;
pub mod transfer_ticket;
pub mod update_event;
pub mod verify_ticket;

pub use claim_revenue::ClaimRevenue;
pub use create_event::CreateEvent;
pub use initialize_program::InitializeProgram;
pub use mint_cnft_ticket::MintCNFTTicket;
pub use purchase_ticket::PurchaseTicket;
pub use transfer_ticket::TransferTicket;
pub use update_event::UpdateEvent;
pub use verify_ticket::VerifyTicket;
