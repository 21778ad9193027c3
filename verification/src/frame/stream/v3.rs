use crate::error::{Error, ErrorView, Feature};
use crate::frame::content::ContentView;
use crate::frame::flags::{Flags, COMPRESSION};
use crate::frame::payload::category_of;
use crate::frame::stream::{decoded_as, FrameStream};
use crate::frame::{Content, Frame, FrameView};
use crate::util::{
    be_u16, be_u16_spec, be_u32, be_u32_spec, lemma_u16_bytes_round_trip,
    lemma_u32_bytes_round_trip, string_from_utf8, u16_to_bytes, u16_to_bytes_spec, u32_to_bytes,
    u32_to_bytes_spec,
};
use crate::zlib::{deflate, deflated, inflate, inflated, opt_bytes_view};
use vstd::prelude::*;
use vstd::slice::{slice_subrange, slice_to_vec};
use vstd::utf8::*;

verus! {

/// The number of bytes of a frame header: identifier, content size and flags.
pub const HEADER_LEN: u32 = 10;

/// The frame layout of version 2.3 of the tag format.
///
/// A record is a header of ten bytes (a four-byte identifier, the content size as a
/// big-endian 32-bit number, a big-endian flag word) and the content. The content of
/// a compressed frame is the size of the payload as a big-endian 32-bit number and
/// the payload as one zlib stream; the content of any other frame is the payload.
pub struct FrameV3;

/// Whether the identifier bytes of a header are padding: all of them zero.
pub open spec fn is_padding(id: Seq<u8>) -> bool {
    id == seq![0u8, 0u8, 0u8, 0u8]
}

/// What [`FrameV3::frame_from_payload`] and [`FrameV3::frame_from_inflated`] return
/// for each outcome of the specification.
pub open spec fn assembled_as(r: Result<Frame, Error>, expected: Result<FrameView, ErrorView>) -> bool {
    match r {
        Ok(frame) => expected == Ok::<FrameView, ErrorView>(frame@),
        Err(e) => expected == Err::<FrameView, ErrorView>(e@),
    }
}

/// The frame that a header's identifier and flags and a payload make, or a decoding
/// error where the payload is not laid out as the identifier calls for.
pub open spec fn frame_of(id: Seq<char>, flags: Flags, payload: Seq<u8>) -> Result<
    FrameView,
    ErrorView,
> {
    match ContentView::parse(id, payload) {
        Some(content) => Ok(
            FrameView {
                tag_alter_preservation: flags.tag_alter_preservation,
                file_alter_preservation: flags.file_alter_preservation,
                read_only: flags.read_only,
                compression: flags.compression,
                ..FrameView::with_content(id, content)
            },
        ),
        None => Err(ErrorView::DecodingError),
    }
}

/// The frame that a header and the outcome of inflating its content make: the stream
/// is malformed where the content did not inflate, or not to the size that the record
/// declares.
pub open spec fn frame_of_inflated(
    id: Seq<char>,
    flags: Flags,
    declared_size: int,
    payload: Option<Seq<u8>>,
) -> Result<FrameView, ErrorView> {
    match payload {
        Some(payload) => if payload.len() == declared_size {
            frame_of(id, flags, payload)
        } else {
            Err(ErrorView::MalformedStream)
        },
        None => Err(ErrorView::MalformedStream),
    }
}

/// The flag word's flags of a frame that is written: this codec sets neither the
/// encryption nor the grouping identity flag.
pub open spec fn wire_flags(frame: FrameView) -> Flags {
    Flags {
        tag_alter_preservation: frame.tag_alter_preservation,
        file_alter_preservation: frame.file_alter_preservation,
        read_only: frame.read_only,
        compression: frame.compression,
        encryption: false,
        grouping_identity: false,
    }
}

/// The record of a frame whose content on the wire is `content`, or nothing where
/// the record's length does not fit into 32 bits.
pub open spec fn record_of(frame: FrameView, content: Seq<u8>) -> Option<Seq<u8>> {
    if HEADER_LEN + content.len() <= u32::MAX {
        Some(
            encode_utf8(frame.id.text()) + u32_to_bytes_spec(content.len() as u32)
                + u16_to_bytes_spec(wire_flags(frame).to_bits_spec()) + content,
        )
    } else {
        None
    }
}

/// The record of a compressed frame, given the outcome of deflating its payload:
/// nothing where the payload did not deflate, or its size does not fit into 32 bits.
pub open spec fn compressed_record_of(frame: FrameView, stream: Option<Seq<u8>>) -> Option<
    Seq<u8>,
> {
    match stream {
        Some(stream) => if frame.content.to_bytes().len() <= u32::MAX {
            record_of(frame, u32_to_bytes_spec(frame.content.to_bytes().len() as u32) + stream)
        } else {
            None
        },
        None => None,
    }
}

impl FrameV3 {
    /// Makes the frame that a header's identifier and flags and a payload describe.
    pub fn frame_from_payload(id: &str, flags: &Flags, payload: &[u8]) -> (r: Result<Frame, Error>)
        requires
            encode_utf8(id@).len() == 4,
        ensures
            assembled_as(r, frame_of(id@, *flags, payload@)),
    {
        let content = match Content::parse(id, payload) {
            Ok(content) => content,
            Err(e) => { return Err(e); },
        };
        let mut frame = Frame::with_content(id, content);
        frame.set_tag_alter_preservation(flags.tag_alter_preservation);
        frame.set_file_alter_preservation(flags.file_alter_preservation);
        frame.set_read_only(flags.read_only);
        frame.set_compression(flags.compression);
        Ok(frame)
    }

    /// Makes the frame that a header and the outcome of inflating its content
    /// describe: `payload` is what inflating gave, `declared_size` the size that the
    /// record declares for it.
    pub fn frame_from_inflated(
        id: &str,
        flags: &Flags,
        declared_size: u32,
        payload: Option<Vec<u8>>,
    ) -> (r: Result<Frame, Error>)
        requires
            encode_utf8(id@).len() == 4,
        ensures
            assembled_as(
                r,
                frame_of_inflated(id@, *flags, declared_size as int, opt_bytes_view(payload)),
            ),
    {
        match payload {
            Some(payload) => {
                if payload.len() > u32::MAX as usize || payload.len() as u32 != declared_size {
                    return Err(Error::MalformedStream);
                }
                FrameV3::frame_from_payload(id, flags, payload.as_slice())
            },
            None => Err(Error::MalformedStream),
        }
    }

    /// Appends the record of `frame` with the given content on the wire.
    pub fn write_record(writer: &mut Vec<u8>, frame: &Frame, content: &[u8]) -> (r: Option<u32>)
        requires
            frame@.id is Valid,
        ensures
            frame@.id.well_formed(),
            match record_of(frame@, content@) {
                Some(record) => r == Some(record.len() as u32) && record.len() <= u32::MAX
                    && final(writer)@ == old(writer)@ + record,
                None => r is None && final(writer)@ == old(writer)@,
            },
    {
        let id = frame.id();
        if content.len() > (u32::MAX - HEADER_LEN) as usize {
            return None;
        }
        let content_size = content.len() as u32;
        let flags = Flags {
            tag_alter_preservation: frame.tag_alter_preservation(),
            file_alter_preservation: frame.file_alter_preservation(),
            read_only: frame.read_only(),
            compression: frame.compression(),
            encryption: false,
            grouping_identity: false,
        };
        let size_bytes = u32_to_bytes(content_size);
        let flag_bytes = u16_to_bytes(flags.to_bits());
        writer.extend_from_slice(id.as_bytes());
        writer.extend_from_slice(size_bytes.as_slice());
        writer.extend_from_slice(flag_bytes.as_slice());
        writer.extend_from_slice(content);
        proof {
            let record = record_of(frame@, content@)->0;
            assert(writer@ =~= old(writer)@ + record);
        }
        Some(HEADER_LEN + content_size)
    }

    /// Appends the record of a compressed frame, given the outcome of deflating its
    /// payload.
    pub fn write_compressed(writer: &mut Vec<u8>, frame: &Frame, stream: Option<Vec<u8>>) -> (r:
        Option<u32>)
        requires
            frame@.id is Valid,
        ensures
            frame@.id.well_formed(),
            match compressed_record_of(frame@, opt_bytes_view(stream)) {
                Some(record) => r == Some(record.len() as u32) && record.len() <= u32::MAX
                    && final(writer)@ == old(writer)@ + record,
                None => r is None && final(writer)@ == old(writer)@,
            },
    {
        let _ = frame.id();
        let decompressed_size = frame.content().to_bytes().len();
        match stream {
            Some(stream) => {
                if decompressed_size > u32::MAX as usize {
                    return None;
                }
                let mut content = u32_to_bytes(decompressed_size as u32);
                content.extend_from_slice(stream.as_slice());
                assert(content@ =~= u32_to_bytes_spec(decompressed_size as u32) + stream@);
                FrameV3::write_record(writer, frame, content.as_slice())
            },
            None => None,
        }
    }
}

impl FrameStream for FrameV3 {
    open spec fn decode(data: Seq<u8>) -> Result<Option<(u32, FrameView)>, ErrorView> {
        if data.len() < 4 {
            Err(ErrorView::MalformedStream)
        } else if is_padding(data.subrange(0, 4)) {
            Ok(None)
        } else if !valid_utf8(data.subrange(0, 4)) || data.len() < HEADER_LEN {
            Err(ErrorView::MalformedStream)
        } else {
            let id = decode_utf8(data.subrange(0, 4));
            let content_size = be_u32_spec(data.subrange(4, 8));
            let flags = Flags::from_bits_spec(be_u16_spec(data.subrange(8, 10)) as u16);
            let end = HEADER_LEN + content_size;
            if flags.encryption {
                Err(ErrorView::UnsupportedFeature { id, feature: Feature::Encryption })
            } else if flags.grouping_identity {
                Err(ErrorView::UnsupportedFeature { id, feature: Feature::GroupingIdentity })
            } else if end > u32::MAX || data.len() < end {
                Err(ErrorView::MalformedStream)
            } else {
                let frame = if flags.compression {
                    if content_size < 4 {
                        Err(ErrorView::MalformedStream)
                    } else {
                        frame_of_inflated(
                            id,
                            flags,
                            be_u32_spec(data.subrange(10, 14)),
                            inflated(data.subrange(14, end)),
                        )
                    }
                } else {
                    frame_of(id, flags, data.subrange(10, end))
                };
                match frame {
                    Ok(frame) => Ok(Some((end as u32, frame))),
                    Err(e) => Err(e),
                }
            }
        }
    }

    open spec fn writable(frame: FrameView) -> bool {
        frame.id is Valid
    }

    open spec fn encode(frame: FrameView) -> Option<Seq<u8>> {
        if frame.compression {
            compressed_record_of(frame, deflated(frame.content.to_bytes()))
        } else {
            record_of(frame, frame.content.to_bytes())
        }
    }

    open spec fn round_trips(frame: FrameView) -> bool {
        &&& frame.id is Valid
        &&& frame.id.well_formed()
        &&& !is_padding(encode_utf8(frame.id.text()))
        &&& category_of(frame.id.text()) == frame.content.category()
        &&& frame.content.separable()
    }

    fn read(data: &[u8]) -> (r: Result<Option<(u32, Frame)>, Error>) {
        let len = data.len();
        if len < 4 {
            return Err(Error::MalformedStream);
        }
        if data[0] == 0 && data[1] == 0 && data[2] == 0 && data[3] == 0 {
            assert(data@.subrange(0, 4) =~= seq![0u8, 0u8, 0u8, 0u8]);
            return Ok(None);
        }
        assert(!is_padding(data@.subrange(0, 4))) by {
            let id = data@.subrange(0, 4);
            assert(id[0] == data@[0] && id[1] == data@[1] && id[2] == data@[2] && id[3]
                == data@[3]);
        }
        let id = match string_from_utf8(slice_to_vec(slice_subrange(data, 0, 4))) {
            Some(id) => id,
            None => { return Err(Error::MalformedStream); },
        };
        if len < HEADER_LEN as usize {
            return Err(Error::MalformedStream);
        }
        proof {
            decode_utf8_encode_utf8(data@.subrange(0, 4));
        }
        let content_size = be_u32(data, 4);
        let flags = Flags::from_bits(be_u16(data, 8));
        if flags.encryption {
            return Err(Error::UnsupportedFeature { id, feature: Feature::Encryption });
        }
        if flags.grouping_identity {
            return Err(Error::UnsupportedFeature { id, feature: Feature::GroupingIdentity });
        }
        if content_size > u32::MAX - HEADER_LEN || len - (HEADER_LEN as usize)
            < content_size as usize {
            return Err(Error::MalformedStream);
        }
        let end = HEADER_LEN as usize + content_size as usize;
        let frame = if flags.compression {
            if content_size < 4 {
                return Err(Error::MalformedStream);
            }
            let declared_size = be_u32(data, 10);
            let payload = inflate(slice_subrange(data, 14, end));
            FrameV3::frame_from_inflated(id.as_str(), &flags, declared_size, payload)
        } else {
            FrameV3::frame_from_payload(id.as_str(), &flags, slice_subrange(data, 10, end))
        };
        match frame {
            Ok(frame) => Ok(Some((HEADER_LEN + content_size, frame))),
            Err(e) => Err(e),
        }
    }

    fn write(writer: &mut Vec<u8>, frame: &Frame) -> (r: Option<u32>)
        ensures
            frame@.compression ==> (deflated(frame@.content.to_bytes()) matches Some(stream)
                ==> inflated(stream) == Some(frame@.content.to_bytes())),
    {
        let payload = frame.content().to_bytes();
        if frame.compression() {
            let stream = deflate(payload.as_slice());
            proof {
                if stream is Some && Self::round_trips(frame@) && Self::encode(frame@) is Some {
                    lemma_compressed_round_trip(frame@, stream->0@, Seq::empty());
                    assert(Self::encode(frame@)->0 + Seq::<u8>::empty() =~= Self::encode(
                        frame@,
                    )->0);
                }
            }
            FrameV3::write_compressed(writer, frame, stream)
        } else {
            proof {
                if Self::round_trips(frame@) && Self::encode(frame@) is Some {
                    lemma_plain_round_trip(frame@, Seq::empty());
                    assert(Self::encode(frame@)->0 + Seq::<u8>::empty() =~= Self::encode(
                        frame@,
                    )->0);
                }
            }
            FrameV3::write_record(writer, frame, payload.as_slice())
        }
    }
}

/// What the header of a record holds, whatever follows the record.
proof fn lemma_record_header(frame: FrameView, content: Seq<u8>, rest: Seq<u8>)
    requires
        frame.id is Valid,
        frame.id.well_formed(),
        record_of(frame, content) is Some,
    ensures
        ({
            let data = record_of(frame, content)->0 + rest;
            &&& data.len() == HEADER_LEN + content.len() + rest.len()
            &&& data.subrange(0, 4) == encode_utf8(frame.id.text())
            &&& valid_utf8(data.subrange(0, 4))
            &&& decode_utf8(data.subrange(0, 4)) == frame.id.text()
            &&& be_u32_spec(data.subrange(4, 8)) == content.len()
            &&& Flags::from_bits_spec(be_u16_spec(data.subrange(8, 10)) as u16) == wire_flags(
                frame,
            )
            &&& data.subrange(10, HEADER_LEN + content.len()) == content
        }),
{
    let id = encode_utf8(frame.id.text());
    let size = u32_to_bytes_spec(content.len() as u32);
    let bits = wire_flags(frame).to_bits_spec();
    let data = record_of(frame, content)->0 + rest;
    lemma_u32_bytes_round_trip(content.len() as u32);
    lemma_u16_bytes_round_trip(bits);
    wire_flags(frame).lemma_bits_round_trip();
    encode_utf8_valid_utf8(frame.id.text());
    encode_utf8_decode_utf8(frame.id.text());
    assert(data.subrange(0, 4) =~= id);
    assert(data.subrange(4, 8) =~= size);
    assert(data.subrange(8, 10) =~= u16_to_bytes_spec(bits));
    assert(data.subrange(10, HEADER_LEN + content.len()) =~= content);
}

/// A frame that is written without compression is read again from its record,
/// whatever follows the record: the same frame, and the record's length as the number
/// of bytes taken.
pub proof fn lemma_plain_round_trip(frame: FrameView, rest: Seq<u8>)
    requires
        FrameV3::round_trips(frame),
        !frame.compression,
        FrameV3::encode(frame) is Some,
    ensures
        FrameV3::decode(FrameV3::encode(frame)->0 + rest) == Ok::<
            Option<(u32, FrameView)>,
            ErrorView,
        >(Some((FrameV3::encode(frame)->0.len() as u32, frame))),
{
    let payload = frame.content.to_bytes();
    lemma_record_header(frame, payload, rest);
    crate::frame::payload::lemma_payload_round_trip(frame.id.text(), frame.content);
}

/// A frame that is written with compression is read again from its record, whatever
/// zlib stream of its payload the record holds and whatever follows the record.
pub proof fn lemma_compressed_round_trip(frame: FrameView, stream: Seq<u8>, rest: Seq<u8>)
    requires
        FrameV3::round_trips(frame),
        frame.compression,
        inflated(stream) == Some(frame.content.to_bytes()),
        compressed_record_of(frame, Some(stream)) is Some,
    ensures
        FrameV3::decode(compressed_record_of(frame, Some(stream))->0 + rest) == Ok::<
            Option<(u32, FrameView)>,
            ErrorView,
        >(Some((compressed_record_of(frame, Some(stream))->0.len() as u32, frame))),
{
    let payload = frame.content.to_bytes();
    let size = u32_to_bytes_spec(payload.len() as u32);
    let content = size + stream;
    let data = compressed_record_of(frame, Some(stream))->0 + rest;
    lemma_record_header(frame, content, rest);
    lemma_u32_bytes_round_trip(payload.len() as u32);
    assert(data.subrange(10, 14) =~= size);
    assert(data.subrange(14, HEADER_LEN + content.len()) =~= stream);
    crate::frame::payload::lemma_payload_round_trip(frame.id.text(), frame.content);
}

/// The bytes of a record with the given identifier bytes, flag word and content.
pub open spec fn raw_record(id: Seq<u8>, bits: u16, content: Seq<u8>) -> Seq<u8> {
    id + u32_to_bytes_spec(content.len() as u32) + u16_to_bytes_spec(bits) + content
}

/// What the header of a raw record holds, whatever follows the record.
proof fn lemma_raw_record_header(id: Seq<u8>, bits: u16, content: Seq<u8>, rest: Seq<u8>)
    requires
        id.len() == 4,
        HEADER_LEN + content.len() <= u32::MAX,
    ensures
        ({
            let data = raw_record(id, bits, content) + rest;
            &&& data.len() == HEADER_LEN + content.len() + rest.len()
            &&& data.subrange(0, 4) == id
            &&& be_u32_spec(data.subrange(4, 8)) == content.len()
            &&& be_u16_spec(data.subrange(8, 10)) as u16 == bits
            &&& data.subrange(10, HEADER_LEN + content.len()) == content
        }),
{
    let data = raw_record(id, bits, content) + rest;
    lemma_u32_bytes_round_trip(content.len() as u32);
    lemma_u16_bytes_round_trip(bits);
    assert(data.subrange(0, 4) =~= id);
    assert(data.subrange(4, 8) =~= u32_to_bytes_spec(content.len() as u32));
    assert(data.subrange(8, 10) =~= u16_to_bytes_spec(bits));
    assert(data.subrange(10, HEADER_LEN + content.len()) =~= content);
}

/// A compressed record reads as the plain record of the payload that its stream
/// inflates to: the same outcome, but for the compression flag of the frame and the
/// number of bytes taken. This holds of every stream that inflates to the payload,
/// where both records are short enough for their length to fit into 32 bits.
pub proof fn lemma_compressed_reads_like_plain(
    id: Seq<u8>,
    bits: u16,
    payload: Seq<u8>,
    stream: Seq<u8>,
    rest: Seq<u8>,
)
    requires
        id.len() == 4,
        bits & COMPRESSION == 0,
        inflated(stream) == Some(payload),
        HEADER_LEN + payload.len() <= u32::MAX,
        HEADER_LEN + 4 + stream.len() <= u32::MAX,
    ensures
        ({
            let plain = raw_record(id, bits, payload) + rest;
            let packed = raw_record(
                id,
                bits | COMPRESSION,
                u32_to_bytes_spec(payload.len() as u32) + stream,
            ) + rest;
            match FrameV3::decode(plain) {
                Ok(Some((_, frame))) => FrameV3::decode(packed) == Ok::<
                    Option<(u32, FrameView)>,
                    ErrorView,
                >(
                    Some(
                        (
                            (HEADER_LEN + 4 + stream.len()) as u32,
                            FrameView { compression: true, ..frame },
                        ),
                    ),
                ),
                Ok(None) => FrameV3::decode(packed) == Ok::<Option<(u32, FrameView)>, ErrorView>(
                    None,
                ),
                Err(e) => FrameV3::decode(packed) == Err::<Option<(u32, FrameView)>, ErrorView>(
                    e,
                ),
            }
        }),
{
    let size = u32_to_bytes_spec(payload.len() as u32);
    let content = size + stream;
    let packed = raw_record(id, bits | COMPRESSION, content) + rest;
    lemma_raw_record_header(id, bits, payload, rest);
    lemma_raw_record_header(id, bits | COMPRESSION, content, rest);
    lemma_u32_bytes_round_trip(payload.len() as u32);
    assert(packed.subrange(10, 14) =~= size);
    assert(packed.subrange(14, HEADER_LEN + content.len()) =~= stream);
    let packed_bits = bits | COMPRESSION;
    assert(packed_bits & 0x8000 == bits & 0x8000 && packed_bits & 0x4000 == bits & 0x4000
        && packed_bits & 0x2000 == bits & 0x2000 && packed_bits & 0x0080 != 0 && packed_bits
        & 0x0040 == bits & 0x0040 && packed_bits & 0x0020 == bits & 0x0020) by (bit_vector)
        requires
            packed_bits == bits | 0x0080,
    ;
}

/// A record whose flag word has the encryption bit set is refused as an unsupported
/// feature, whatever else it holds.
pub proof fn lemma_encrypted_frame_refused(data: Seq<u8>)
    requires
        data.len() >= HEADER_LEN,
        !is_padding(data.subrange(0, 4)),
        valid_utf8(data.subrange(0, 4)),
        (be_u16_spec(data.subrange(8, 10)) as u16) & 0x0040 != 0,
    ensures
        FrameV3::decode(data) == Err::<Option<(u32, FrameView)>, ErrorView>(
            ErrorView::UnsupportedFeature {
                id: decode_utf8(data.subrange(0, 4)),
                feature: Feature::Encryption,
            },
        ),
{
}

} // verus!
