//! The es-WiFi module on the SPI bus.
use vstd::prelude::*;

verus! {

/// The number of bytes exchanged with the module when it is initialized.
pub const INIT_TRANSFER_LEN: usize = 12;

/// The es-WiFi actor; `A` is the handle of the SPI bus it talks through.
pub struct EsWifi<A> {
    pub spi: A,
}

/// The request to initialize the module.
pub struct Initialize;

impl<A> EsWifi<A> {
    /// The buffer that initialization exchanges over the bus: twelve zero
    /// bytes, which the transfer then overwrites with the module's answer.
    pub fn initialize_buffer(&self, message: Initialize) -> (buf: [u8; 12])
        ensures
            buf@.len() == INIT_TRANSFER_LEN,
            forall|i: int| 0 <= i < 12 ==> buf@[i] == 0,
    {
        [0u8; 12]
    }
}

} // verus!
