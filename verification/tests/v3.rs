use id3::error::{Error, Feature};
use id3::frame::stream::v3::FrameV3;
use id3::frame::stream::FrameStream;
use id3::frame::{Comment, Content, Frame, Picture, PictureType};

// The zlib stream of "title", as the reference implementation of zlib writes it.
const TITLE_STREAM: [u8; 13] =
    [0x78, 0x9c, 0x2b, 0xc9, 0x2c, 0xc9, 0x49, 0x05, 0x00, 0x06, 0x86, 0x02, 0x23];

fn record(id: &[u8], content_size: u32, flags: u16, content: &[u8]) -> Vec<u8> {
    let mut data = id.to_vec();
    data.extend_from_slice(&content_size.to_be_bytes());
    data.extend_from_slice(&flags.to_be_bytes());
    data.extend_from_slice(content);
    data
}

fn compressed_title(declared_size: u32, stream: &[u8]) -> Vec<u8> {
    let mut content = declared_size.to_be_bytes().to_vec();
    content.extend_from_slice(stream);
    record(b"TIT2", content.len() as u32, 0x0080, &content)
}

fn title() -> Frame {
    Frame::with_content("TIT2", Content::Text("title".to_owned()))
}

#[test]
fn read_decodes_a_title_frame() {
    let data = record(b"TIT2", 5, 0x0000, b"title");
    let (consumed, frame) = FrameV3::read(&data).unwrap().unwrap();
    assert_eq!(consumed, 15);
    assert_eq!(frame.id(), "TIT2");
    assert_eq!(frame.content(), &Content::Text("title".to_owned()));
    assert!(!frame.tag_alter_preservation());
    assert!(!frame.file_alter_preservation());
    assert!(!frame.read_only());
    assert!(!frame.compression());
}

#[test]
fn read_decodes_a_compressed_title_frame() {
    let data = compressed_title(5, &TITLE_STREAM);
    assert_eq!(data.len(), 27);
    let (consumed, frame) = FrameV3::read(&data).unwrap().unwrap();
    assert_eq!(consumed, 27);
    assert_eq!(frame.id(), "TIT2");
    assert_eq!(frame.content(), &Content::Text("title".to_owned()));
    assert!(frame.compression());
    let plain = FrameV3::read(&record(b"TIT2", 5, 0x0000, b"title")).unwrap().unwrap().1;
    assert_eq!(frame.content(), plain.content());
}

#[test]
fn read_leaves_what_follows_the_record() {
    let mut data = record(b"TIT2", 5, 0x0000, b"title");
    data.extend_from_slice(&record(b"TALB", 5, 0x0000, b"album"));
    let (consumed, first) = FrameV3::read(&data).unwrap().unwrap();
    assert_eq!(consumed, 15);
    assert_eq!(first.content(), &Content::Text("title".to_owned()));
    let (consumed, second) = FrameV3::read(&data[15..]).unwrap().unwrap();
    assert_eq!(consumed, 15);
    assert_eq!(second.id(), "TALB");
    assert_eq!(second.content(), &Content::Text("album".to_owned()));
}

#[test]
fn read_decodes_the_flags() {
    let data = record(b"TIT2", 5, 0xe000, b"title");
    let frame = FrameV3::read(&data).unwrap().unwrap().1;
    assert!(frame.tag_alter_preservation());
    assert!(frame.file_alter_preservation());
    assert!(frame.read_only());
    assert!(!frame.compression());
    let data = record(b"TIT2", 5, 0x4000, b"title");
    let frame = FrameV3::read(&data).unwrap().unwrap().1;
    assert!(!frame.tag_alter_preservation());
    assert!(frame.file_alter_preservation());
    assert!(!frame.read_only());
    let data = record(b"TIT2", 5, 0x1f1f, b"title");
    let frame = FrameV3::read(&data).unwrap().unwrap().1;
    assert!(!frame.tag_alter_preservation());
    assert!(!frame.file_alter_preservation());
    assert!(!frame.read_only());
    assert!(!frame.compression());
}

#[test]
fn read_decodes_an_empty_frame() {
    let data = record(b"TIT2", 0, 0x0000, b"");
    let (consumed, frame) = FrameV3::read(&data).unwrap().unwrap();
    assert_eq!(consumed, 10);
    assert_eq!(frame.content(), &Content::Text(String::new()));
}

#[test]
fn read_decodes_each_kind_of_content() {
    let data = record(b"COMM", 3, 0x0000, b"d\0t");
    let frame = FrameV3::read(&data).unwrap().unwrap().1;
    assert_eq!(
        frame.content(),
        &Content::Comment(Comment { description: "d".to_owned(), text: "t".to_owned() })
    );
    let data = record(b"PRIV", 2, 0x0000, &[0xff, 0x00]);
    let (consumed, frame) = FrameV3::read(&data).unwrap().unwrap();
    assert_eq!(consumed, 12);
    assert_eq!(frame.id(), "PRIV");
    assert_eq!(frame.content(), &Content::Unknown(vec![0xff, 0x00]));
}

#[test]
fn read_sees_padding() {
    assert_eq!(FrameV3::read(&[0, 0, 0, 0]), Ok(None));
    assert_eq!(FrameV3::read(&[0; 64]), Ok(None));
    assert_eq!(FrameV3::read(&record(&[0, 0, 0, 0], 5, 0x0040, b"title")), Ok(None));
}

#[test]
fn read_refuses_an_encrypted_frame() {
    let data = record(b"TIT2", 5, 0x0040, b"title");
    assert_eq!(
        FrameV3::read(&data),
        Err(Error::UnsupportedFeature { id: "TIT2".to_owned(), feature: Feature::Encryption })
    );
    let data = record(b"APIC", 0, 0xe0e0, b"");
    assert_eq!(
        FrameV3::read(&data),
        Err(Error::UnsupportedFeature { id: "APIC".to_owned(), feature: Feature::Encryption })
    );
    // The flag word decides before the content is looked at.
    let data = record(b"TIT2", 500, 0x0040, b"");
    assert_eq!(
        FrameV3::read(&data),
        Err(Error::UnsupportedFeature { id: "TIT2".to_owned(), feature: Feature::Encryption })
    );
}

#[test]
fn read_refuses_a_frame_with_a_grouping_identity() {
    let data = record(b"TIT2", 6, 0x0020, b"\x01title");
    assert_eq!(
        FrameV3::read(&data),
        Err(Error::UnsupportedFeature {
            id: "TIT2".to_owned(),
            feature: Feature::GroupingIdentity,
        })
    );
}

#[test]
fn read_refuses_a_short_header() {
    assert_eq!(FrameV3::read(&[]), Err(Error::MalformedStream));
    assert_eq!(FrameV3::read(&[0, 0, 0]), Err(Error::MalformedStream));
    assert_eq!(FrameV3::read(b"TIT"), Err(Error::MalformedStream));
    assert_eq!(FrameV3::read(b"TIT2"), Err(Error::MalformedStream));
    assert_eq!(FrameV3::read(b"TIT2\0\0\0\x05\0"), Err(Error::MalformedStream));
}

#[test]
fn read_refuses_a_payload_that_is_cut_short() {
    let data = record(b"TIT2", 6, 0x0000, b"title");
    assert_eq!(FrameV3::read(&data), Err(Error::MalformedStream));
    let data = record(b"TIT2", u32::MAX, 0x0000, b"title");
    assert_eq!(FrameV3::read(&data), Err(Error::MalformedStream));
    let data = record(b"TIT2", u32::MAX - 10, 0x0000, b"title");
    assert_eq!(FrameV3::read(&data), Err(Error::MalformedStream));
}

#[test]
fn read_refuses_an_identifier_that_is_not_utf8() {
    let data = record(&[0xff, 0x49, 0x54, 0x32], 5, 0x0000, b"title");
    assert_eq!(FrameV3::read(&data), Err(Error::MalformedStream));
}

#[test]
fn read_takes_an_identifier_that_starts_with_a_zero_byte() {
    let data = record(&[0, 0x49, 0x54, 0x32], 2, 0x0000, &[1, 2]);
    let (consumed, frame) = FrameV3::read(&data).unwrap().unwrap();
    assert_eq!(consumed, 12);
    assert_eq!(frame.id(), "\0IT2");
    assert_eq!(frame.content(), &Content::Unknown(vec![1, 2]));
}

#[test]
fn read_refuses_content_that_does_not_fit_the_identifier() {
    let data = record(b"TIT2", 2, 0x0000, &[0xff, 0xfe]);
    assert_eq!(FrameV3::read(&data), Err(Error::DecodingError));
    let data = record(b"COMM", 5, 0x0000, b"title");
    assert_eq!(FrameV3::read(&data), Err(Error::DecodingError));
}

#[test]
fn read_refuses_a_corrupt_stream() {
    let mut stream = TITLE_STREAM;
    stream[4] ^= 0xff;
    assert_eq!(FrameV3::read(&compressed_title(5, &stream)), Err(Error::MalformedStream));
    assert_eq!(
        FrameV3::read(&compressed_title(5, &TITLE_STREAM[..7])),
        Err(Error::MalformedStream)
    );
    assert_eq!(FrameV3::read(&compressed_title(5, b"title")), Err(Error::MalformedStream));
    assert_eq!(FrameV3::read(&compressed_title(5, b"")), Err(Error::MalformedStream));
}

#[test]
fn read_refuses_a_stream_of_another_size_than_declared() {
    assert_eq!(FrameV3::read(&compressed_title(6, &TITLE_STREAM)), Err(Error::MalformedStream));
    assert_eq!(FrameV3::read(&compressed_title(4, &TITLE_STREAM)), Err(Error::MalformedStream));
    assert_eq!(FrameV3::read(&compressed_title(0, &TITLE_STREAM)), Err(Error::MalformedStream));
}

#[test]
fn read_refuses_a_compressed_frame_without_room_for_its_size() {
    let data = record(b"TIT2", 3, 0x0080, &[0, 0, 0]);
    assert_eq!(FrameV3::read(&data), Err(Error::MalformedStream));
    let data = record(b"TIT2", 0, 0x0080, &[]);
    assert_eq!(FrameV3::read(&data), Err(Error::MalformedStream));
}

#[test]
fn read_refuses_compressed_content_that_does_not_fit_the_identifier() {
    // The stream of the two bytes 0xff 0xfe, which are no UTF-8.
    let stream = [0x78, 0x9c, 0xfb, 0xff, 0x0f, 0x00, 0x02, 0xfe, 0x01, 0xfe];
    let mut content = 2u32.to_be_bytes().to_vec();
    content.extend_from_slice(&stream);
    let data = record(b"TIT2", content.len() as u32, 0x0080, &content);
    assert_eq!(FrameV3::read(&data), Err(Error::DecodingError));
}

#[test]
fn write_encodes_a_title_frame() {
    let mut writer = Vec::new();
    let written = FrameV3::write(&mut writer, &title());
    assert_eq!(written, Some(15));
    assert_eq!(writer, record(b"TIT2", 5, 0x0000, b"title"));
    assert_eq!(writer, b"TIT2\0\0\0\x05\0\0title".to_vec());
}

#[test]
fn write_appends_to_what_is_there() {
    let mut writer = vec![1, 2, 3];
    assert_eq!(FrameV3::write(&mut writer, &title()), Some(15));
    assert_eq!(FrameV3::write(&mut writer, &Frame::new("PRIV")), Some(10));
    let mut expected = vec![1, 2, 3];
    expected.extend_from_slice(&record(b"TIT2", 5, 0x0000, b"title"));
    expected.extend_from_slice(&record(b"PRIV", 0, 0x0000, b""));
    assert_eq!(writer, expected);
}

#[test]
fn write_encodes_the_flags() {
    let mut frame = title();
    frame.set_tag_alter_preservation(true);
    let mut writer = Vec::new();
    assert_eq!(FrameV3::write(&mut writer, &frame), Some(15));
    assert_eq!(writer, record(b"TIT2", 5, 0x8000, b"title"));
    frame.set_file_alter_preservation(true);
    frame.set_read_only(true);
    let mut writer = Vec::new();
    assert_eq!(FrameV3::write(&mut writer, &frame), Some(15));
    assert_eq!(writer, record(b"TIT2", 5, 0xe000, b"title"));
}

#[test]
fn write_translates_a_legacy_name_first() {
    let frame = Frame::with_content("TT2", Content::Text("title".to_owned()));
    let mut writer = Vec::new();
    assert_eq!(FrameV3::write(&mut writer, &frame), Some(15));
    assert_eq!(writer, record(b"TIT2", 5, 0x0000, b"title"));
}

#[test]
fn write_compresses_the_content_of_a_compressed_frame() {
    let text = "title ".repeat(100);
    let mut frame = Frame::with_content("TIT2", Content::Text(text.clone()));
    frame.set_compression(true);
    let mut writer = Vec::new();
    let written = FrameV3::write(&mut writer, &frame).unwrap();
    assert_eq!(written as usize, writer.len());
    assert_eq!(&writer[0..4], b"TIT2");
    assert_eq!(&writer[4..8], &(written - 10).to_be_bytes());
    assert_eq!(&writer[8..10], &[0x00, 0x80]);
    assert_eq!(&writer[10..14], &600u32.to_be_bytes());
    // A zlib stream starts with its method byte, and this one is far shorter than the text.
    assert_eq!(writer[14], 0x78);
    assert!(writer.len() < 100);
    assert_ne!(&writer[14..], text.as_bytes());
    let (consumed, back) = FrameV3::read(&writer).unwrap().unwrap();
    assert_eq!(consumed, written);
    assert_eq!(back.content(), &Content::Text(text));
    assert!(back.compression());
}

#[test]
fn write_compresses_a_short_title() {
    let mut frame = title();
    frame.set_compression(true);
    let mut writer = Vec::new();
    let written = FrameV3::write(&mut writer, &frame).unwrap();
    assert_eq!(written as usize, writer.len());
    assert_eq!(&writer[4..8], &(written - 10).to_be_bytes());
    assert_eq!(&writer[10..14], &[0, 0, 0, 5]);
    assert_ne!(&writer[14..], b"title");
    let (consumed, back) = FrameV3::read(&writer).unwrap().unwrap();
    assert_eq!(consumed, written);
    assert_eq!(back.content(), &Content::Text("title".to_owned()));
}

#[test]
fn a_frame_comes_back_from_its_record() {
    let picture = Content::Picture(Picture {
        mime_type: "image/png".to_owned(),
        picture_type: PictureType::Artist,
        description: "the band".to_owned(),
        data: vec![0, 1, 2, 3, 0, 255],
    });
    let mut frames = vec![
        title(),
        Frame::with_content("APIC", picture),
        Frame::with_content("PRIV", Content::Unknown(vec![0, 0, 7])),
        Frame::with_content("WOAR", Content::Link("http://example.org".to_owned())),
        Frame::with_content("COMM", Content::Comment(Comment {
            description: String::new(),
            text: "caf\u{e9}".to_owned(),
        })),
    ];
    frames[1].set_tag_alter_preservation(true);
    frames[2].set_read_only(true);
    frames[3].set_file_alter_preservation(true);
    for compression in [false, true] {
        for frame in frames.iter_mut() {
            frame.set_compression(compression);
            let mut writer = Vec::new();
            let written = FrameV3::write(&mut writer, frame).unwrap();
            writer.extend_from_slice(b"what follows");
            let (consumed, back) = FrameV3::read(&writer).unwrap().unwrap();
            assert_eq!(consumed, written);
            assert_eq!(&back, &*frame);
            assert_eq!(back.id(), frame.id());
            assert_eq!(back.content(), frame.content());
            assert_eq!(back.tag_alter_preservation(), frame.tag_alter_preservation());
            assert_eq!(back.file_alter_preservation(), frame.file_alter_preservation());
            assert_eq!(back.read_only(), frame.read_only());
            assert_eq!(back.compression(), compression);
        }
    }
}

#[test]
fn frame_from_payload_carries_the_flags_over() {
    let flags = id3::frame::flags::Flags::from_bits(0xa080);
    let frame = FrameV3::frame_from_payload("TIT2", &flags, b"title").unwrap();
    assert_eq!(frame.id(), "TIT2");
    assert_eq!(frame.content(), &Content::Text("title".to_owned()));
    assert!(frame.tag_alter_preservation());
    assert!(!frame.file_alter_preservation());
    assert!(frame.read_only());
    assert!(frame.compression());
    assert_eq!(
        FrameV3::frame_from_payload("TIT2", &flags, &[0xff]),
        Err(Error::DecodingError)
    );
}

#[test]
fn frame_from_inflated_checks_the_declared_size() {
    let flags = id3::frame::flags::Flags::from_bits(0x0080);
    let frame =
        FrameV3::frame_from_inflated("TIT2", &flags, 5, Some(b"title".to_vec())).unwrap();
    assert_eq!(frame.content(), &Content::Text("title".to_owned()));
    assert_eq!(
        FrameV3::frame_from_inflated("TIT2", &flags, 4, Some(b"title".to_vec())),
        Err(Error::MalformedStream)
    );
    assert_eq!(
        FrameV3::frame_from_inflated("TIT2", &flags, 5, None),
        Err(Error::MalformedStream)
    );
    assert_eq!(
        FrameV3::frame_from_inflated("TIT2", &flags, 1, Some(vec![0xff])),
        Err(Error::DecodingError)
    );
}

#[test]
fn write_record_puts_the_content_behind_the_header() {
    let mut writer = Vec::new();
    assert_eq!(FrameV3::write_record(&mut writer, &title(), &[9, 8, 7]), Some(13));
    assert_eq!(writer, record(b"TIT2", 3, 0x0000, &[9, 8, 7]));
}

#[test]
fn write_compressed_puts_the_size_before_the_stream() {
    let mut frame = title();
    frame.set_compression(true);
    let mut writer = Vec::new();
    let written = FrameV3::write_compressed(&mut writer, &frame, Some(TITLE_STREAM.to_vec()));
    assert_eq!(written, Some(27));
    assert_eq!(writer, compressed_title(5, &TITLE_STREAM));
    let mut writer = vec![1];
    assert_eq!(FrameV3::write_compressed(&mut writer, &frame, None), None);
    assert_eq!(writer, vec![1]);
}
