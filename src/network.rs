//! The local node's network identity. Discovery, connections and broadcast
//! belong to the transport layer that drives this library.

use vstd::prelude::*;
use libp2p::PeerId;

verus! {

#[verifier::external_type_specification]
#[verifier::external_body]
pub struct ExPeerId(libp2p::PeerId);

/// Relies on `libp2p::identity::Keypair::generate_ed25519` for a fresh random
/// transport key pair, and `PeerId::from_public_key` for its peer id. Nothing
/// is stated of a random outcome.
#[verifier::external_body]
fn fresh_peer_id() -> (r: PeerId) {
    PeerId::from_public_key(&libp2p::identity::Keypair::generate_ed25519().public())
}

/// Network state of the local node.
pub struct NetworkManager {
    peer_id: PeerId,
}

impl NetworkManager {
    /// A node with a fresh transport identity.
    pub fn new() -> (r: Self) {
        NetworkManager { peer_id: fresh_peer_id() }
    }
}

} // verus!
