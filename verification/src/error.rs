use vstd::prelude::*;

verus! {

/// A feature of the wire format that this codec refuses to decode.
#[derive(Clone, Copy, Debug, PartialEq, Eq, Structural)]
pub enum Feature {
    /// The frame's content is encrypted.
    Encryption,
    /// The frame carries a grouping identity byte.
    GroupingIdentity,
}

/// Why a frame could not be decoded.
#[derive(Clone, Debug, PartialEq, Eq)]
pub enum Error {
    /// The frame named by `id` uses a feature that is not implemented.
    UnsupportedFeature { id: String, feature: Feature },
    /// The stream ends too early, or holds bytes that are no frame record.
    MalformedStream,
    /// The content bytes cannot be read as what the frame's identifier calls for.
    DecodingError,
}

/// The mathematical value of an [`Error`].
pub enum ErrorView {
    UnsupportedFeature { id: Seq<char>, feature: Feature },
    MalformedStream,
    DecodingError,
}

impl View for Error {
    type V = ErrorView;

    open spec fn view(&self) -> ErrorView {
        match self {
            Error::UnsupportedFeature { id, feature } => ErrorView::UnsupportedFeature {
                id: id@,
                feature: *feature,
            },
            Error::MalformedStream => ErrorView::MalformedStream,
            Error::DecodingError => ErrorView::DecodingError,
        }
    }
}

} // verus!
