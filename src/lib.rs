//! A small file-transfer service over a multiplexed, encrypted transport:
//! message framing, path confinement, transfer accounting, request dispatch,
//! the audit trail's records, and the client's navigation state.

mod text;

pub mod audit;
pub mod client;
pub mod config;
pub mod confine;
pub mod digest;
pub mod dispatch;
pub mod listing;
pub mod protocol;
pub mod state;
pub mod transfer;
pub mod trust;
pub mod wire;
