//! Light-client records and the misbehaviour monitor of an IBC relayer.
//!
//! A chain follows another chain through a client: a record of the latest
//! state it trusts and of the consensus states it has accepted. This crate
//! holds
//!
//! - the data of such clients: [`height`], [`client_type`], [`identifier`],
//!   [`commitment`], the Tendermint client in [`tendermint`], the mock client
//!   in [`mock`], and the unions over both in [`any`];
//! - the records themselves: one client in [`record`], all clients of a chain
//!   in [`store`];
//! - the [`monitor`], which decides when to have a client checked for
//!   misbehaviour, driven by the client [`events`] of the chain;
//! - plain messages of the chain's upgrade module in [`upgrade`], with the
//!   protobuf messages they embed in [`protobuf`].
//!
//! The library does no input or output. Whatever needs a chain is asked of
//! the caller.

pub mod any;
pub mod client_type;
pub mod commitment;
pub mod error;
pub mod events;
pub mod height;
pub mod identifier;
pub mod mock;
pub mod monitor;
pub mod protobuf;
pub mod record;
pub mod store;
pub mod tendermint;
pub mod upgrade;
