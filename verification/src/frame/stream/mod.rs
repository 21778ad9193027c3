pub mod v3;

use crate::error::{Error, ErrorView};
use crate::frame::{Frame, FrameView};
use vstd::prelude::*;

verus! {

/// What [`FrameStream::read`] returns for each outcome of the specification.
pub open spec fn decoded_as(
    r: Result<Option<(u32, Frame)>, Error>,
    expected: Result<Option<(u32, FrameView)>, ErrorView>,
) -> bool {
    match r {
        Ok(Some((consumed, frame))) => expected == Ok::<Option<(u32, FrameView)>, ErrorView>(
            Some((consumed, frame@)),
        ),
        Ok(None) => expected == Ok::<Option<(u32, FrameView)>, ErrorView>(None),
        Err(e) => expected == Err::<Option<(u32, FrameView)>, ErrorView>(e@),
    }
}

/// The byte layout of frames in one version of the tag format.
pub trait FrameStream {
    /// What the bytes at the start of `data` hold: a frame and the number of bytes
    /// that its record takes, no frame where padding starts, or the reason why they
    /// are no frame.
    spec fn decode(data: Seq<u8>) -> Result<Option<(u32, FrameView)>, ErrorView>;

    /// Whether this version has a record for the frame at all.
    spec fn writable(frame: FrameView) -> bool;

    /// The record of a frame, or nothing where the frame does not fit into one.
    spec fn encode(frame: FrameView) -> Option<Seq<u8>>;

    /// Whether a record of the frame can be told from padding and taken apart into
    /// the frame's identifier and content again.
    spec fn round_trips(frame: FrameView) -> bool;

    /// Reads one frame from the start of `data`. Returns the number of bytes that the
    /// frame's record takes together with the frame, or `None` where padding starts.
    fn read(data: &[u8]) -> (r: Result<Option<(u32, Frame)>, Error>)
        ensures
            decoded_as(r, Self::decode(data@)),
    ;

    /// Appends the record of `frame` to `writer` and returns the number of bytes
    /// appended. Where the frame does not fit into a record, nothing is appended and
    /// `None` is returned. What is appended reads as the frame again.
    fn write(writer: &mut Vec<u8>, frame: &Frame) -> (r: Option<u32>)
        requires
            Self::writable(frame@),
        ensures
            match Self::encode(frame@) {
                Some(record) => r == Some(record.len() as u32) && record.len() <= u32::MAX
                    && final(writer)@ == old(writer)@ + record,
                None => r is None && final(writer)@ == old(writer)@,
            },
            Self::round_trips(frame@) ==> (Self::encode(frame@) matches Some(record)
                ==> Self::decode(record) == Ok::<Option<(u32, FrameView)>, ErrorView>(
                Some((record.len() as u32, frame@)),
            )),
    ;
}

} // verus!
