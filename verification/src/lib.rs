//! Settlement logic of a cross-chain NFT bridge.
//!
//! For every transfer packet the bridge decides whether an asset is released
//! from local escrow, because it left this chain earlier, or whether a wrapped
//! copy is minted, because it comes from elsewhere. The decision rests on the
//! class identifier of the asset, which records the route it has travelled, and
//! on a ledger of escrowed assets kept in the host's storage.

pub mod ack;
pub mod contract;
pub mod error;
pub mod history;
pub mod identifier;
pub mod ledger;
pub mod msg;
pub mod packet;
pub mod receive;
pub mod settle;
