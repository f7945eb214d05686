use vstd::prelude::*;

verus! {

/// Everything that can go wrong while a container is built.
#[derive(Clone, Copy, Debug, PartialEq, Eq, Structural)]
pub enum DcaError {
    /// The metadata lacks a title or an artist when the header is written.
    MissingRequiredField,
    /// An audio frame is longer than the two-byte signed length field can say.
    FrameTooLarge,
    /// The Ogg bitstream breaks the page or packet structure.
    MalformedSource,
    /// The header record could not be encoded, or is too long for its length
    /// field.
    SerializationFailure,
}

} // verus!
