//! The failures that the scene-layer functions report.

use vstd::prelude::*;

verus! {

/// What went wrong while a scene layer was read or queried.
#[derive(Debug, Clone, Copy, PartialEq, Eq, Structural)]
pub enum I3SError {
    /// A transport or filesystem failure.
    IO,
    /// A resource is not valid gzip, not valid text, or does not have the
    /// shape that its schema asks for.
    Decode,
    /// The `layerType` tag names no known profile.
    UnsupportedLayerType,
    /// An index inside the document points outside the collection that it
    /// refers to, or two records that must agree do not.
    InvalidReference,
    /// The declared root index does not name the one parentless node.
    InvalidRoot,
    /// A node index lies beyond the nodes that the store holds.
    IndexOutOfBounds,
}

impl I3SError {
    /// A one-line description of the failure.
    pub fn message(&self) -> (text: &'static str)
        ensures
            text@ == self.spec_message()@,
    {
        match self {
            I3SError::IO => "transport or filesystem failure",
            I3SError::Decode => "resource could not be decoded",
            I3SError::UnsupportedLayerType => "Layer type not supported",
            I3SError::InvalidReference => "reference outside its collection",
            I3SError::InvalidRoot => "root index does not name a parentless node",
            I3SError::IndexOutOfBounds => "node index out of bounds",
        }
    }

    /// The description that `message` returns.
    pub open spec fn spec_message(&self) -> &'static str {
        match self {
            I3SError::IO => "transport or filesystem failure",
            I3SError::Decode => "resource could not be decoded",
            I3SError::UnsupportedLayerType => "Layer type not supported",
            I3SError::InvalidReference => "reference outside its collection",
            I3SError::InvalidRoot => "root index does not name a parentless node",
            I3SError::IndexOutOfBounds => "node index out of bounds",
        }
    }
}

} // verus!
