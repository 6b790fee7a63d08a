//! # GENERIC SERVICES
//!
//! The messages of HSMS and what an entity does with them: the procedures
//! that it starts, the answers that it owes to what it receives, the
//! selection state that decides whether data may flow, and the table of
//! transactions that wait for a reply, each with the time by which the reply
//! is due.
//!
//! Nothing here reads a clock or touches a socket. Every procedure takes the
//! current time where it needs it, and gives back the messages to transmit
//! and the transactions to complete.
pub mod client;
pub mod message;
pub mod table;

pub use crate::generic::client::Action;
pub use crate::generic::client::Client;
pub use crate::generic::client::ClientState;
pub use crate::generic::client::Completion;
pub use crate::generic::client::Decisions;
pub use crate::generic::client::ParameterSettings;
pub use crate::generic::client::ProcedureCallbacks;
pub use crate::generic::client::SelectionState;
pub use crate::generic::message::DataMessage;
pub use crate::generic::message::DeselectStatus;
pub use crate::generic::message::Message;
pub use crate::generic::message::MessageContents;
pub use crate::generic::message::MessageID;
pub use crate::generic::message::RejectReason;
pub use crate::generic::message::SelectStatus;
pub use crate::generic::message::SessionType;
pub use crate::generic::table::PendingReply;
pub use crate::generic::table::ProcedureKind;
pub use crate::generic::table::TransactionTable;
