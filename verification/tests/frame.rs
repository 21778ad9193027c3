use id3::frame::{Comment, Content, ExtendedLink, ExtendedText, Frame, Lyrics, Picture, PictureType};
use id3::tag::Version;
use std::collections::hash_map::DefaultHasher;
use std::hash::{Hash, Hasher};

fn hash_of(frame: &Frame) -> u64 {
    let mut hasher = DefaultHasher::new();
    frame.hash(&mut hasher);
    hasher.finish()
}

fn picture(data: Vec<u8>) -> Content {
    Content::Picture(Picture {
        mime_type: "image/png".to_owned(),
        picture_type: PictureType::CoverFront,
        description: "cover".to_owned(),
        data,
    })
}

#[test]
fn with_content_keeps_a_four_character_id() {
    let frame = Frame::with_content("TIT2", Content::Text("title".to_owned()));
    assert_eq!(frame.id(), "TIT2");
    assert_eq!(frame.content(), &Content::Text("title".to_owned()));
    assert!(!frame.tag_alter_preservation());
    assert!(!frame.file_alter_preservation());
    assert!(!frame.read_only());
    assert!(!frame.compression());
}

#[test]
fn with_content_keeps_a_four_character_id_that_no_table_knows() {
    let frame = Frame::with_content("ZZZZ", Content::Unknown(vec![1, 2]));
    assert_eq!(frame.id(), "ZZZZ");
    assert_eq!(frame.id_for_version(Version::Id3v23), Some("ZZZZ"));
    assert_eq!(frame.id_for_version(Version::Id3v24), Some("ZZZZ"));
    assert_eq!(frame.id_for_version(Version::Id3v22), None);
}

#[test]
fn with_content_translates_a_legacy_id() {
    let frame = Frame::with_content("TT2", Content::Text("title".to_owned()));
    assert_eq!(frame.id(), "TIT2");
    assert_eq!(frame.id_for_version(Version::Id3v22), Some("TT2"));
    assert_eq!(frame.id_for_version(Version::Id3v23), Some("TIT2"));
    assert_eq!(frame.id_for_version(Version::Id3v24), Some("TIT2"));
}

#[test]
fn with_content_translates_the_picture_id() {
    let frame = Frame::with_content("PIC", picture(vec![1]));
    assert_eq!(frame.id(), "APIC");
    assert_eq!(frame.id_for_version(Version::Id3v22), Some("PIC"));
}

#[test]
fn with_content_keeps_an_unmapped_legacy_id() {
    let frame = Frame::with_content("XYZ", Content::Unknown(vec![7]));
    assert_eq!(frame.id(), "XYZ");
    assert_eq!(frame.id_for_version(Version::Id3v22), Some("XYZ"));
    assert_eq!(frame.id_for_version(Version::Id3v23), None);
    assert_eq!(frame.id_for_version(Version::Id3v24), None);
}

#[test]
fn with_content_keeps_a_three_byte_id_that_is_not_ascii() {
    // One two-byte character and one ASCII character: three bytes, two characters.
    let frame = Frame::with_content("\u{e9}a", Content::Unknown(Vec::new()));
    assert_eq!(frame.id(), "\u{e9}a");
    assert_eq!(frame.id_for_version(Version::Id3v22), Some("\u{e9}a"));
    assert_eq!(frame.id_for_version(Version::Id3v23), None);
}

#[test]
fn every_legacy_id_of_the_table_comes_back() {
    let pairs = [
        ("BUF", "RBUF"), ("CNT", "PCNT"), ("COM", "COMM"), ("CRA", "AENC"), ("EQU", "EQUA"),
        ("ETC", "ETCO"), ("GEO", "GEOB"), ("IPL", "IPLS"), ("LNK", "LINK"), ("MCI", "MCDI"),
        ("MLL", "MLLT"), ("PIC", "APIC"), ("POP", "POPM"), ("REV", "RVRB"), ("RVA", "RVAD"),
        ("SLT", "SYLT"), ("STC", "SYTC"), ("TAL", "TALB"), ("TBP", "TBPM"), ("TCM", "TCOM"),
        ("TCO", "TCON"), ("TCR", "TCOP"), ("TDA", "TDAT"), ("TDY", "TDLY"), ("TEN", "TENC"),
        ("TFT", "TFLT"), ("TIM", "TIME"), ("TKE", "TKEY"), ("TLA", "TLAN"), ("TLE", "TLEN"),
        ("TMT", "TMED"), ("TOA", "TOPE"), ("TOF", "TOFN"), ("TOL", "TOLY"), ("TOR", "TORY"),
        ("TOT", "TOAL"), ("TP1", "TPE1"), ("TP2", "TPE2"), ("TP3", "TPE3"), ("TP4", "TPE4"),
        ("TPA", "TPOS"), ("TPB", "TPUB"), ("TRC", "TSRC"), ("TRD", "TRDA"), ("TRK", "TRCK"),
        ("TSI", "TSIZ"), ("TSS", "TSSE"), ("TT1", "TIT1"), ("TT2", "TIT2"), ("TT3", "TIT3"),
        ("TXT", "TEXT"), ("TXX", "TXXX"), ("TYE", "TYER"), ("UFI", "UFID"), ("ULT", "USLT"),
        ("WAF", "WOAF"), ("WAR", "WOAR"), ("WAS", "WOAS"), ("WCM", "WCOM"), ("WCP", "WCOP"),
        ("WPB", "WPUB"), ("WXX", "WXXX"),
    ];
    for (legacy, modern) in pairs {
        let from_legacy = Frame::with_content(legacy, Content::Unknown(Vec::new()));
        assert_eq!(from_legacy.id(), modern);
        assert_eq!(from_legacy.id_for_version(Version::Id3v22), Some(legacy));
        let from_modern = Frame::with_content(modern, Content::Unknown(Vec::new()));
        assert_eq!(from_modern.id(), modern);
        assert_eq!(from_modern.id_for_version(Version::Id3v22), Some(legacy));
        assert_eq!(from_legacy, from_modern);
    }
}

#[test]
fn new_makes_a_frame_without_content() {
    let frame = Frame::new("TALB");
    assert_eq!(frame.id(), "TALB");
    assert_eq!(frame.content(), &Content::Unknown(Vec::new()));
    let legacy = Frame::new("TAL");
    assert_eq!(legacy.id(), "TALB");
}

#[test]
fn setters_change_one_flag_each() {
    let mut frame = Frame::with_content("TIT2", Content::Text("title".to_owned()));
    frame.set_tag_alter_preservation(true);
    assert!(frame.tag_alter_preservation());
    assert!(!frame.file_alter_preservation());
    assert!(!frame.read_only());
    assert!(!frame.compression());
    frame.set_file_alter_preservation(true);
    assert!(frame.tag_alter_preservation());
    assert!(frame.file_alter_preservation());
    frame.set_tag_alter_preservation(false);
    assert!(!frame.tag_alter_preservation());
    assert!(frame.file_alter_preservation());
    frame.set_read_only(true);
    frame.set_compression(true);
    assert!(frame.read_only());
    assert!(frame.compression());
    assert!(frame.file_alter_preservation());
    assert_eq!(frame.id(), "TIT2");
    assert_eq!(frame.content(), &Content::Text("title".to_owned()));
}

#[test]
fn set_content_replaces_the_content_only() {
    let mut frame = Frame::with_content("TIT2", Content::Text("title".to_owned()));
    frame.set_tag_alter_preservation(true);
    frame.set_content(Content::Text("other".to_owned()));
    assert_eq!(frame.content(), &Content::Text("other".to_owned()));
    assert_eq!(frame.id(), "TIT2");
    assert!(frame.tag_alter_preservation());
}

#[test]
fn text_frames_with_one_id_are_equal_whatever_the_text() {
    let a = Frame::with_content("TIT2", Content::Text("one".to_owned()));
    let b = Frame::with_content("TIT2", Content::Text("two".to_owned()));
    assert_eq!(a, b);
    assert_eq!(b, a);
    assert_eq!(hash_of(&a), hash_of(&b));
}

#[test]
fn text_frames_with_different_ids_differ() {
    let a = Frame::with_content("TIT2", Content::Text("one".to_owned()));
    let b = Frame::with_content("TALB", Content::Text("one".to_owned()));
    assert_ne!(a, b);
}

#[test]
fn picture_frames_with_one_id_differ_by_their_data() {
    let a = Frame::with_content("APIC", picture(vec![1, 2, 3]));
    let b = Frame::with_content("APIC", picture(vec![1, 2, 4]));
    let c = Frame::with_content("APIC", picture(vec![1, 2, 3]));
    assert_ne!(a, b);
    assert_ne!(b, a);
    assert_eq!(a, c);
    assert_eq!(hash_of(&a), hash_of(&c));
}

#[test]
fn flags_do_not_count_for_equality() {
    let a = Frame::with_content("APIC", picture(vec![1, 2, 3]));
    let mut b = Frame::with_content("APIC", picture(vec![1, 2, 3]));
    b.set_tag_alter_preservation(true);
    b.set_compression(true);
    assert_eq!(a, b);
    assert_eq!(hash_of(&a), hash_of(&b));
}

#[test]
fn a_text_frame_is_no_frame_of_another_kind() {
    let text = Frame::with_content("TIT2", Content::Text("x".to_owned()));
    let other = Frame::with_content("TIT2", Content::Unknown(vec![]));
    assert!(text != other);
    assert!(other != text);
    let link = Frame::with_content("TIT2", Content::Link("x".to_owned()));
    assert!(text != link);
    assert!(link != text);
}

#[test]
fn equality_does_not_depend_on_the_side() {
    let frames = [
        Frame::with_content("TIT2", Content::Text("one".to_owned())),
        Frame::with_content("TIT2", Content::Text("two".to_owned())),
        Frame::with_content("TALB", Content::Text("one".to_owned())),
        Frame::with_content("TIT2", Content::Unknown(vec![1])),
        Frame::with_content("TIT2", Content::Unknown(vec![1])),
        Frame::with_content("TIT2", Content::Link("one".to_owned())),
        Frame::with_content("APIC", picture(vec![1])),
        Frame::with_content("APIC", picture(vec![2])),
        Frame::with_content("TT2", Content::Text("three".to_owned())),
        Frame::with_content("XYZ", Content::Text("one".to_owned())),
    ];
    for a in frames.iter() {
        assert!(a == a);
        for b in frames.iter() {
            assert_eq!(a == b, b == a);
            if a == b {
                assert_eq!(hash_of(a), hash_of(b));
            }
        }
    }
    assert!(frames[0] == frames[1]);
    assert!(frames[0] == frames[8]);
    assert!(frames[3] == frames[4]);
    assert!(frames[0] != frames[2]);
    assert!(frames[0] != frames[3]);
    assert!(frames[6] != frames[7]);
}

#[test]
fn the_hash_takes_the_content_of_a_frame_that_is_no_text() {
    let a = Frame::with_content("APIC", picture(vec![1, 2, 3]));
    let b = Frame::with_content("APIC", picture(vec![1, 2, 4]));
    assert_ne!(hash_of(&a), hash_of(&b));
    let text = Frame::with_content("TIT2", Content::Text("x".to_owned()));
    let other = Frame::with_content("TIT2", Content::Unknown(vec![]));
    assert_ne!(hash_of(&text), hash_of(&other));
}

#[test]
fn a_translated_id_is_not_an_unmapped_one() {
    let valid = Frame::with_content("ABCD", Content::Text("x".to_owned()));
    let invalid = Frame::with_content("ABC", Content::Text("x".to_owned()));
    assert_ne!(valid, invalid);
}

#[test]
fn a_clone_is_the_same_frame() {
    let mut frame = Frame::with_content("COM", Content::Comment(Comment {
        description: "d".to_owned(),
        text: "t".to_owned(),
    }));
    frame.set_file_alter_preservation(true);
    let copy = frame.clone();
    assert_eq!(copy, frame);
    assert_eq!(copy.id(), "COMM");
    assert_eq!(copy.content(), frame.content());
    assert!(copy.file_alter_preservation());
    assert!(!copy.tag_alter_preservation());
}

#[test]
fn text_of_a_text_frame_is_the_text() {
    let frame = Frame::with_content("TIT2", Content::Text("title".to_owned()));
    assert_eq!(&frame.text().unwrap()[..], "title");
}

#[test]
fn text_of_a_link_frame_is_the_link() {
    let frame = Frame::with_content("WOAR", Content::Link("http://example.org".to_owned()));
    assert_eq!(&frame.text().unwrap()[..], "http://example.org");
}

#[test]
fn text_of_an_extended_text_frame() {
    let frame = Frame::with_content("TXXX", Content::ExtendedText(ExtendedText {
        description: "description".to_owned(),
        value: "value".to_owned(),
    }));
    assert_eq!(&frame.text().unwrap()[..], "description: value");
}

#[test]
fn text_of_an_extended_link_frame() {
    let frame = Frame::with_content("WXXX", Content::ExtendedLink(ExtendedLink {
        description: "home".to_owned(),
        link: "http://example.org".to_owned(),
    }));
    assert_eq!(&frame.text().unwrap()[..], "home: http://example.org");
}

#[test]
fn text_of_a_comment_frame() {
    let frame = Frame::with_content("COMM", Content::Comment(Comment {
        description: "note".to_owned(),
        text: "a comment".to_owned(),
    }));
    assert_eq!(&frame.text().unwrap()[..], "note: a comment");
}

#[test]
fn text_of_a_lyrics_frame() {
    let frame = Frame::with_content("USLT", Content::Lyrics(Lyrics {
        description: "verse".to_owned(),
        text: "la la".to_owned(),
    }));
    assert_eq!(&frame.text().unwrap()[..], "verse: la la");
}

#[test]
fn text_of_a_picture_frame() {
    let frame = Frame::with_content("APIC", picture(vec![1, 2, 3]));
    assert_eq!(&frame.text().unwrap()[..], "cover: CoverFront (image/png)");
}

#[test]
fn text_of_an_unknown_frame_counts_the_bytes() {
    let none = Frame::with_content("PRIV", Content::Unknown(Vec::new()));
    assert_eq!(&none.text().unwrap()[..], "unknown, 0 bytes");
    let three = Frame::with_content("PRIV", Content::Unknown(vec![1, 2, 3]));
    assert_eq!(&three.text().unwrap()[..], "unknown, 3 bytes");
    let ten = Frame::with_content("PRIV", Content::Unknown(vec![0; 10]));
    assert_eq!(&ten.text().unwrap()[..], "unknown, 10 bytes");
    let many = Frame::with_content("PRIV", Content::Unknown(vec![0; 12345]));
    assert_eq!(&many.text().unwrap()[..], "unknown, 12345 bytes");
}
