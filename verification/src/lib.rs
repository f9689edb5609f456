//! Turn-synchronised relay of chess moves between two peers: the wire
//! format, the per-connection session, the turn arbiter and the decision
//! logic of the rendezvous server and of the peer client.

pub mod message;
pub mod wire;
pub mod arbiter;
pub mod session;
pub mod server;
pub mod client;
pub mod board;
pub mod cli;
