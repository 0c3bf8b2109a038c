use vstd::prelude::*;

verus! {

/// The failures that the library reports.
#[derive(Clone, Copy, Debug, PartialEq, Eq, Structural)]
pub enum Error {
    /// Wrong size, bad block marker, unknown return mode or product id.
    PacketMalformed,
    /// Laser table length mismatch, or a zero distance resolution.
    ConfigInvalid,
    /// A converter of one firing format received a firing of another.
    FormatMismatch,
    /// A failure at an I/O boundary.
    IoFailure,
    /// A sensor answered with a line that did not match the expected response.
    ProtocolUnexpected,
}

} // verus!
