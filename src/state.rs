//! The records kept on the ledger.
pub mod event;
pub mod program_state;
pub mod ticket;

pub use event::Event;
pub use program_state::ProgramState;
pub use ticket::Ticket;
