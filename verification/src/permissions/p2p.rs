//! The peer-to-peer permissions.

use crate::permissions::kind::{PermissionFamily, PermissionTypeKey};
use vstd::prelude::*;

verus! {

/// What a script may do on the peer network.
#[derive(Debug, Clone, Copy, PartialEq, Eq, Structural)]
pub enum P2P {
    SocketOpen,
    SocketClose,
    PeerConnect,
    PeerDisconnect,
    PeerSend,
    PeerRecieve,
}

impl P2P {
    /// The key under which this permission is filed: every peer-network
    /// permission has the same one.
    pub fn get_key(&self) -> (key: PermissionTypeKey)
        ensures
            key == (PermissionTypeKey { family: PermissionFamily::PeerNetwork, variant: 0 }),
    {
        PermissionTypeKey { family: PermissionFamily::PeerNetwork, variant: 0 }
    }
}

} // verus!
