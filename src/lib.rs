//! Dispatch core of a streaming fan-out server for ledger events: the event
//! model and its wire projection, the subscriber table with lag eviction,
//! and the per-subscription decisions (keepalive, filter updates, statuses).

pub mod event;
pub mod wire;
pub mod project;
pub mod dispatch;
pub mod session;

pub use event::{
    Message, MessageAccount, MessageAccountInfo, MessageBlock, MessageBlockMeta, MessageSlot,
    MessageTransaction, MessageTransactionInfo,
};
