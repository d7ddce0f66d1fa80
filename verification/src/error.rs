use vstd::prelude::*;

verus! {

/// The ways an operation of this library can fail.
///
/// Every failure is terminal for the operation that raised it: nothing is
/// retried, and no partial result is handed out.
#[derive(Debug, Clone, Copy, PartialEq, Eq, Structural)]
pub enum Error {
    /// The city table could not be read, or its header or one of its rows
    /// does not have the expected shape.
    MalformedInput,
    /// The composed dataset URL is not kept, exactly as composed, by URL
    /// parsing: it is rejected outright, or parsing would alter its text.
    InvalidUrl,
    /// A dataset name outside the closed enumeration was parsed.
    UnknownDatasetName,
}

} // verus!
