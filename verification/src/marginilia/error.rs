use vstd::prelude::*;

verus! {

/// Errors of the quote display, generic over the SPI bus's own error.
/// Drawing into the frame buffer cannot fail; only the transfer to the panel
/// can.
#[derive(Debug)]
pub enum Error<E> {
    /// The SPI transfer to the panel failed.
    Spi(E),
}

} // verus!
