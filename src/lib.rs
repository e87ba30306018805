//! Trust core for a peer-to-peer intelligence exchange: peer identities,
//! multiply signed content records, quorum verification and transit
//! encryption.

pub mod primitives;
pub mod data;
pub mod identity;
pub mod crypto;
pub mod search;
pub mod network;
pub mod session;
