use vstd::prelude::*;

verus! {

/// The wire versions of the tag format.
#[derive(Clone, Copy, Debug, PartialEq, Eq, Structural)]
pub enum Version {
    /// Version 2.2, whose frame identifiers have three characters.
    Id3v22,
    /// Version 2.3.
    Id3v23,
    /// Version 2.4.
    Id3v24,
}

} // verus!
