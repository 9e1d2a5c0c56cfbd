//! The bootstrap (root) capability: the well-known entry point every new
//! connection receives. It exposes two parameterless factory calls that mint
//! references to the message and layer services; both always succeed.

use vstd::prelude::*;

use crate::layer::LayerImpl;
use crate::message::MessageImpl;

verus! {

/// The root capability installed for each connection.
pub struct LycaonRPC;

impl LycaonRPC {
    /// Mint a message-service reference: a fresh instance per call, so no
    /// state could be shared between the references handed out.
    pub fn get_message_interface(&mut self) -> (r: MessageImpl)
        ensures
            *final(self) == *old(self),
    {
        MessageImpl::new()
    }

    /// Mint a layer-service reference. The service is stateless, so every
    /// reference behaves identically.
    pub fn get_layer_interface(&mut self) -> (r: LayerImpl)
        ensures
            *final(self) == *old(self),
    {
        LayerImpl {  }
    }
}

} // verus!
