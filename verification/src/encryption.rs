//! The negotiated symmetric encryption context. The core never touches
//! ciphertext; it only installs this context and hands it to the transport
//! path, so the model carries the one piece of state the contracts speak
//! of: the nonce counter that must advance monotonically.

use vstd::prelude::*;

verus! {

/// The negotiated authenticated-encryption state.
pub struct ChaCha20Poly1305 {
    pub sequence_number: u64,
}

impl ChaCha20Poly1305 {
    pub fn new() -> (r: ChaCha20Poly1305)
        ensures
            r.sequence_number == 0,
    {
        ChaCha20Poly1305 { sequence_number: 0 }
    }
}

} // verus!
