use vstd::prelude::*;

verus! {

/// Everything that can make a build fail.
#[derive(Debug)]
pub enum Error {
    /// Reading the document failed.
    IoError(String),
    /// An element's tag is not one of the recognized ones.
    VoxelTagNameParseError(String),
    /// An attribute name is outside the recognized vocabulary.
    VoxelAttributeNameParseError(String),
    /// The document as a whole could not be used.
    VoxelDataParseError(String),
    /// A node that should have been an element was not one.
    VoxelElementParseError(String),
    /// A vector component name is not one of `x`, `y`, `z`.
    VXStyleNameParseError(String),
}

/// The message that an error carries.
pub open spec fn message_of(e: Error) -> String {
    match e {
        Error::IoError(m) => m,
        Error::VoxelTagNameParseError(m) => m,
        Error::VoxelAttributeNameParseError(m) => m,
        Error::VoxelDataParseError(m) => m,
        Error::VoxelElementParseError(m) => m,
        Error::VXStyleNameParseError(m) => m,
    }
}

impl Error {
    /// The message that the error carries.
    pub fn message(&self) -> (r: &String)
        ensures
            *r == message_of(*self),
    {
        match self {
            Error::IoError(m) => m,
            Error::VoxelTagNameParseError(m) => m,
            Error::VoxelAttributeNameParseError(m) => m,
            Error::VoxelDataParseError(m) => m,
            Error::VoxelElementParseError(m) => m,
            Error::VXStyleNameParseError(m) => m,
        }
    }
}

} // verus!
