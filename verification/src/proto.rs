//! Messages exchanged between the servers.
pub mod msg_channel;
