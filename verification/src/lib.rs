//! A rendezvous relay: two anonymous peers that share a pairing identifier
//! exchange text messages through a pair of bounded queues, one per direction.
//!
//! The registry of mailboxes, the hand-over of queue ends between the registry
//! and a connection, and the decisions of a connection's relay loop are
//! verified here. The queues themselves are Tokio channels.

pub mod assets;
pub mod channel;
pub mod connection;
pub mod mailbox;
pub mod registry;
pub mod relay;
pub mod role;
pub mod text;
