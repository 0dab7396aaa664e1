//! The mock client: a stand-in consensus algorithm for testing handlers. It
//! carries a height and a timestamp and verifies nothing.

pub mod client_state;
pub mod header;
pub mod time;
