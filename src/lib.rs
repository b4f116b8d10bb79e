//! A ticket store owned by a single server task and reached only through a
//! bounded mailbox of commands, each carrying its own reply channel.
mod channel;
pub mod client;
pub mod data;
pub mod lemmas;
pub mod server;
pub mod store;

pub use client::{mailbox, settle, Operation, TicketStoreClient};
pub use data::{Status, Ticket, TicketDraft, TicketId};
pub use server::{deliver, execute, get_command, insert_command, serve, Command, Reply};
pub use store::TicketStore;
