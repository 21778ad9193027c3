use crate::error::{Error, ErrorView};
use crate::frame::content::{
    Category, Comment, Content, ContentView, DescribedView, ExtendedLink, ExtendedText, Lyrics,
    Picture, PictureView,
};
use crate::frame::picture_type::PictureType;
use crate::util::string_from_utf8;
use vstd::prelude::*;
use vstd::slice::{slice_subrange, slice_to_vec};
use vstd::string::*;
use vstd::utf8::*;

verus! {

/// The kind of content that a frame with this identifier carries.
pub open spec fn category_of(id: Seq<char>) -> Category {
    if id == seq!['A', 'P', 'I', 'C'] {
        Category::Picture
    } else if id == seq!['T', 'X', 'X', 'X'] {
        Category::ExtendedText
    } else if id == seq!['W', 'X', 'X', 'X'] {
        Category::ExtendedLink
    } else if id == seq!['C', 'O', 'M', 'M'] {
        Category::Comment
    } else if id == seq!['U', 'S', 'L', 'T'] {
        Category::Lyrics
    } else if id.len() > 0 && id[0] == 'T' {
        Category::Text
    } else if id.len() > 0 && id[0] == 'W' {
        Category::Link
    } else {
        Category::Unknown
    }
}

/// Whether a text holds no NUL character, so that a NUL byte can end it in a payload.
pub open spec fn nul_free(s: Seq<char>) -> bool {
    forall|i: int| 0 <= i < s.len() ==> s[i] != '\0'
}

/// The payload of a described text: the description, a NUL byte, the text.
pub open spec fn described_bytes(d: DescribedView) -> Seq<u8> {
    encode_utf8(d.description) + seq![0u8] + encode_utf8(d.text)
}

/// The payload of a picture: the MIME type, a NUL byte, the byte of the picture type,
/// the description, a NUL byte, the picture's data.
pub open spec fn picture_bytes(p: PictureView) -> Seq<u8> {
    encode_utf8(p.mime_type) + seq![0u8, p.picture_type.code_spec()] + encode_utf8(p.description)
        + seq![0u8] + p.data
}

/// The text that a whole payload holds, where it is well-formed UTF-8.
pub open spec fn parse_text(bytes: Seq<u8>) -> Option<Seq<char>> {
    if valid_utf8(bytes) {
        Some(decode_utf8(bytes))
    } else {
        None
    }
}

/// The described text that a payload holds: what stands before the first NUL byte is
/// the description, what follows it is the text.
pub open spec fn parse_described(bytes: Seq<u8>) -> Option<DescribedView> {
    match bytes.index_of_first(0u8) {
        Some(k) => {
            let description = bytes.subrange(0, k);
            let text = bytes.subrange(k + 1, bytes.len() as int);
            if valid_utf8(description) && valid_utf8(text) {
                Some(
                    DescribedView {
                        description: decode_utf8(description),
                        text: decode_utf8(text),
                    },
                )
            } else {
                None
            }
        },
        None => None,
    }
}

/// The picture that a payload holds.
pub open spec fn parse_picture(bytes: Seq<u8>) -> Option<PictureView> {
    match bytes.index_of_first(0u8) {
        Some(k) => {
            let mime_type = bytes.subrange(0, k);
            if k + 1 < bytes.len() && valid_utf8(mime_type) {
                let rest = bytes.subrange(k + 2, bytes.len() as int);
                match (PictureType::from_code_spec(bytes[k + 1]), rest.index_of_first(0u8)) {
                    (Some(picture_type), Some(n)) => {
                        let description = rest.subrange(0, n);
                        if valid_utf8(description) {
                            Some(
                                PictureView {
                                    mime_type: decode_utf8(mime_type),
                                    picture_type,
                                    description: decode_utf8(description),
                                    data: rest.subrange(n + 1, rest.len() as int),
                                },
                            )
                        } else {
                            None
                        }
                    },
                    _ => None,
                }
            } else {
                None
            }
        },
        None => None,
    }
}

impl ContentView {
    /// The payload that stands for this content in a frame.
    pub open spec fn to_bytes(self) -> Seq<u8> {
        match self {
            ContentView::Text(s) => encode_utf8(s),
            ContentView::ExtendedText(d) => described_bytes(d),
            ContentView::Link(s) => encode_utf8(s),
            ContentView::ExtendedLink(d) => described_bytes(d),
            ContentView::Comment(d) => described_bytes(d),
            ContentView::Lyrics(d) => described_bytes(d),
            ContentView::Picture(p) => picture_bytes(p),
            ContentView::Unknown(b) => b,
        }
    }

    /// The content that a payload holds in a frame with the given identifier, or
    /// nothing where the payload is not laid out as that identifier calls for.
    pub open spec fn parse(id: Seq<char>, bytes: Seq<u8>) -> Option<ContentView> {
        match category_of(id) {
            Category::Text => match parse_text(bytes) {
                Some(s) => Some(ContentView::Text(s)),
                None => None,
            },
            Category::ExtendedText => match parse_described(bytes) {
                Some(d) => Some(ContentView::ExtendedText(d)),
                None => None,
            },
            Category::Link => match parse_text(bytes) {
                Some(s) => Some(ContentView::Link(s)),
                None => None,
            },
            Category::ExtendedLink => match parse_described(bytes) {
                Some(d) => Some(ContentView::ExtendedLink(d)),
                None => None,
            },
            Category::Comment => match parse_described(bytes) {
                Some(d) => Some(ContentView::Comment(d)),
                None => None,
            },
            Category::Lyrics => match parse_described(bytes) {
                Some(d) => Some(ContentView::Lyrics(d)),
                None => None,
            },
            Category::Picture => match parse_picture(bytes) {
                Some(p) => Some(ContentView::Picture(p)),
                None => None,
            },
            Category::Unknown => Some(ContentView::Unknown(bytes)),
        }
    }

    /// Whether the payload of this content can be taken apart again: the texts that a
    /// NUL byte ends in the payload hold no NUL character themselves.
    pub open spec fn separable(self) -> bool {
        match self {
            ContentView::Text(_) => true,
            ContentView::ExtendedText(d) => nul_free(d.description),
            ContentView::Link(_) => true,
            ContentView::ExtendedLink(d) => nul_free(d.description),
            ContentView::Comment(d) => nul_free(d.description),
            ContentView::Lyrics(d) => nul_free(d.description),
            ContentView::Picture(p) => nul_free(p.mime_type) && nul_free(p.description),
            ContentView::Unknown(_) => true,
        }
    }
}

/// What [`Content::parse`] returns for each outcome of the specification.
pub open spec fn parsed_as(r: Result<Content, Error>, expected: Option<ContentView>) -> bool {
    match r {
        Ok(c) => expected == Some(c@),
        Err(e) => expected is None && e@ == ErrorView::DecodingError,
    }
}

/// The kind of content that a frame with this identifier carries.
pub fn category(id: &str) -> (r: Category)
    ensures
        r == category_of(id@),
{
    let n = id.unicode_len();
    if n == 0 {
        return Category::Unknown;
    }
    let c0 = id.get_char(0);
    if n == 4 {
        let c1 = id.get_char(1);
        let c2 = id.get_char(2);
        let c3 = id.get_char(3);
        proof {
            assert(id@ =~= seq![c0, c1, c2, c3]);
        }
        if c0 == 'A' && c1 == 'P' && c2 == 'I' && c3 == 'C' {
            return Category::Picture;
        }
        if c0 == 'T' && c1 == 'X' && c2 == 'X' && c3 == 'X' {
            return Category::ExtendedText;
        }
        if c0 == 'W' && c1 == 'X' && c2 == 'X' && c3 == 'X' {
            return Category::ExtendedLink;
        }
        if c0 == 'C' && c1 == 'O' && c2 == 'M' && c3 == 'M' {
            return Category::Comment;
        }
        if c0 == 'U' && c1 == 'S' && c2 == 'L' && c3 == 'T' {
            return Category::Lyrics;
        }
    }
    if c0 == 'T' {
        Category::Text
    } else if c0 == 'W' {
        Category::Link
    } else {
        Category::Unknown
    }
}

/// The place of the first NUL byte, if there is one.
fn find_nul(data: &[u8]) -> (r: Option<usize>)
    ensures
        match r {
            Some(k) => k < data@.len() && data@.index_of_first(0u8) == Some(k as int),
            None => data@.index_of_first(0u8) is None,
        },
{
    let mut i: usize = 0;
    while i < data.len()
        invariant
            i <= data@.len(),
            forall|j: int| 0 <= j < i ==> data@[j] != 0,
        decreases data@.len() - i,
    {
        if data[i] == 0 {
            proof {
                assert(data@[i as int] == 0u8);
                assert(data@.contains(0u8));
                data@.index_of_first_ensures(0u8);
                let first = data@.index_of_first(0u8)->0;
                assert(data@[first] == 0u8);
                assert(first == i);
            }
            return Some(i);
        }
        i += 1;
    }
    proof {
        data@.index_of_first_ensures(0u8);
        if data@.contains(0u8) {
            let first = data@.index_of_first(0u8)->0;
            assert(data@[first] == 0u8);
        }
    }
    None
}

/// The text that the bytes from `from` up to `to` hold.
fn text_between(data: &[u8], from: usize, to: usize) -> (r: Option<String>)
    requires
        from <= to <= data@.len(),
    ensures
        match r {
            Some(s) => parse_text(data@.subrange(from as int, to as int)) == Some(s@),
            None => parse_text(data@.subrange(from as int, to as int)) is None,
        },
{
    string_from_utf8(slice_to_vec(slice_subrange(data, from, to)))
}

/// Takes a payload apart into a description and a text.
fn read_described(data: &[u8]) -> (r: Option<(String, String)>)
    ensures
        match r {
            Some((description, text)) => parse_described(data@) == Some(
                DescribedView { description: description@, text: text@ },
            ),
            None => parse_described(data@) is None,
        },
{
    let len = data.len();
    match find_nul(data) {
        Some(k) => {
            match text_between(data, 0, k) {
                Some(description) => match text_between(data, k + 1, len) {
                    Some(text) => Some((description, text)),
                    None => None,
                },
                None => None,
            }
        },
        None => None,
    }
}

/// Takes a payload apart into the parts of a picture.
fn read_picture(data: &[u8]) -> (r: Option<Picture>)
    ensures
        match r {
            Some(p) => parse_picture(data@) == Some(p@),
            None => parse_picture(data@) is None,
        },
{
    let len = data.len();
    let k = match find_nul(data) {
        Some(k) => k,
        None => { return None; },
    };
    if k + 1 >= len {
        return None;
    }
    let mime_type = match text_between(data, 0, k) {
        Some(s) => s,
        None => { return None; },
    };
    let picture_type = match PictureType::from_code(data[k + 1]) {
        Some(t) => t,
        None => { return None; },
    };
    let rest = slice_subrange(data, k + 2, len);
    let n = match find_nul(rest) {
        Some(n) => n,
        None => { return None; },
    };
    let description = match text_between(rest, 0, n) {
        Some(s) => s,
        None => { return None; },
    };
    let picture = slice_to_vec(slice_subrange(rest, n + 1, rest.len()));
    Some(Picture { mime_type, picture_type, description, data: picture })
}

impl Content {
    /// The payload that stands for this content in a frame.
    pub fn to_bytes(&self) -> (r: Vec<u8>)
        ensures
            r@ == self@.to_bytes(),
    {
        let mut r: Vec<u8> = Vec::new();
        match self {
            Content::Text(s) => {
                r.extend_from_slice(s.as_str().as_bytes());
            },
            Content::ExtendedText(c) => {
                r.extend_from_slice(c.description.as_str().as_bytes());
                r.push(0);
                r.extend_from_slice(c.value.as_str().as_bytes());
            },
            Content::Link(s) => {
                r.extend_from_slice(s.as_str().as_bytes());
            },
            Content::ExtendedLink(c) => {
                r.extend_from_slice(c.description.as_str().as_bytes());
                r.push(0);
                r.extend_from_slice(c.link.as_str().as_bytes());
            },
            Content::Comment(c) => {
                r.extend_from_slice(c.description.as_str().as_bytes());
                r.push(0);
                r.extend_from_slice(c.text.as_str().as_bytes());
            },
            Content::Lyrics(c) => {
                r.extend_from_slice(c.description.as_str().as_bytes());
                r.push(0);
                r.extend_from_slice(c.text.as_str().as_bytes());
            },
            Content::Picture(c) => {
                r.extend_from_slice(c.mime_type.as_str().as_bytes());
                r.push(0);
                r.push(c.picture_type.code());
                r.extend_from_slice(c.description.as_str().as_bytes());
                r.push(0);
                r.extend_from_slice(c.data.as_slice());
            },
            Content::Unknown(b) => {
                r.extend_from_slice(b.as_slice());
            },
        }
        assert(r@ =~= self@.to_bytes());
        r
    }

    /// Reads the payload of a frame with the given identifier as the content that the
    /// identifier calls for. Fails with a decoding error where the payload is not laid
    /// out as that kind of content.
    pub fn parse(id: &str, data: &[u8]) -> (r: Result<Content, Error>)
        ensures
            parsed_as(r, ContentView::parse(id@, data@)),
    {
        assert(data@.subrange(0, data@.len() as int) =~= data@);
        match category(id) {
            Category::Text => match text_between(data, 0, data.len()) {
                Some(s) => Ok(Content::Text(s)),
                None => Err(Error::DecodingError),
            },
            Category::ExtendedText => match read_described(data) {
                Some((description, value)) => Ok(
                    Content::ExtendedText(ExtendedText { description, value }),
                ),
                None => Err(Error::DecodingError),
            },
            Category::Link => match text_between(data, 0, data.len()) {
                Some(s) => Ok(Content::Link(s)),
                None => Err(Error::DecodingError),
            },
            Category::ExtendedLink => match read_described(data) {
                Some((description, link)) => Ok(
                    Content::ExtendedLink(ExtendedLink { description, link }),
                ),
                None => Err(Error::DecodingError),
            },
            Category::Comment => match read_described(data) {
                Some((description, text)) => Ok(Content::Comment(Comment { description, text })),
                None => Err(Error::DecodingError),
            },
            Category::Lyrics => match read_described(data) {
                Some((description, text)) => Ok(Content::Lyrics(Lyrics { description, text })),
                None => Err(Error::DecodingError),
            },
            Category::Picture => match read_picture(data) {
                Some(p) => Ok(Content::Picture(p)),
                None => Err(Error::DecodingError),
            },
            Category::Unknown => Ok(Content::Unknown(slice_to_vec(data))),
        }
    }
}

/// No byte of the encoding of a character other than NUL is a NUL byte.
proof fn lemma_scalar_bytes_nonzero(c: u32)
    requires
        c != 0,
    ensures
        forall|i: int| 0 <= i < encode_scalar(c).len() ==> encode_scalar(c)[i] != 0,
{
    assert(c != 0 && c <= 0x7F ==> (c & 0x7F) as u8 != 0) by (bit_vector);
    assert(0xC0 | ((c >> 6) & 0x1F) as u8 != 0) by (bit_vector);
    assert(0xE0 | ((c >> 12) & 0x0F) as u8 != 0) by (bit_vector);
    assert(0xF0 | ((c >> 18) & 0x7) as u8 != 0) by (bit_vector);
    assert(0x80 | (c & 0x3F) as u8 != 0) by (bit_vector);
    assert(0x80 | ((c >> 6) & 0x3F) as u8 != 0) by (bit_vector);
    assert(0x80 | ((c >> 12) & 0x3F) as u8 != 0) by (bit_vector);
}

/// The encoding of a text without NUL characters holds no NUL byte.
pub proof fn lemma_nul_free_bytes(s: Seq<char>)
    requires
        nul_free(s),
    ensures
        forall|i: int| 0 <= i < encode_utf8(s).len() ==> encode_utf8(s)[i] != 0,
    decreases s.len(),
{
    if s.len() > 0 {
        let head = encode_scalar(s[0] as u32);
        let tail = encode_utf8(s.drop_first());
        assert(s[0] as u32 != 0) by {
            char_u32_cast(s[0], s[0] as u32);
            char_u32_cast('\0', 0u32);
        }
        lemma_scalar_bytes_nonzero(s[0] as u32);
        assert forall|i: int| 0 <= i < s.drop_first().len() implies s.drop_first()[i] != '\0' by {
            assert(s.drop_first()[i] == s[i + 1]);
        }
        lemma_nul_free_bytes(s.drop_first());
        assert forall|i: int| 0 <= i < encode_utf8(s).len() implies encode_utf8(s)[i] != 0 by {
            if i < head.len() {
                assert(encode_utf8(s)[i] == head[i]);
            } else {
                assert(encode_utf8(s)[i] == tail[i - head.len()]);
            }
        }
    }
}

/// A NUL byte with none before it is the first one.
proof fn lemma_first_nul_at(bytes: Seq<u8>, n: int)
    requires
        0 <= n < bytes.len(),
        bytes[n] == 0,
        forall|j: int| 0 <= j < n ==> bytes[j] != 0,
    ensures
        bytes.index_of_first(0u8) == Some(n),
{
    assert(bytes.contains(0u8));
    bytes.index_of_first_ensures(0u8);
    let first = bytes.index_of_first(0u8)->0;
    assert(bytes[first] == 0u8);
}

/// The payload of a described text whose description holds no NUL character is
/// taken apart into that description and that text.
pub proof fn lemma_described_round_trip(d: DescribedView)
    requires
        nul_free(d.description),
    ensures
        parse_described(described_bytes(d)) == Some(d),
{
    let description = encode_utf8(d.description);
    let text = encode_utf8(d.text);
    let bytes = described_bytes(d);
    let n = description.len() as int;
    lemma_nul_free_bytes(d.description);
    lemma_first_nul_at(bytes, n);
    assert(bytes.subrange(0, n) =~= description);
    assert(bytes.subrange(n + 1, bytes.len() as int) =~= text);
    encode_utf8_valid_utf8(d.description);
    encode_utf8_valid_utf8(d.text);
    encode_utf8_decode_utf8(d.description);
    encode_utf8_decode_utf8(d.text);
}

/// The payload of a picture whose MIME type and description hold no NUL character is
/// taken apart into the parts of that picture.
pub proof fn lemma_picture_round_trip(p: PictureView)
    requires
        nul_free(p.mime_type),
        nul_free(p.description),
    ensures
        parse_picture(picture_bytes(p)) == Some(p),
{
    let mime_type = encode_utf8(p.mime_type);
    let description = encode_utf8(p.description);
    let bytes = picture_bytes(p);
    let k = mime_type.len() as int;
    let n = description.len() as int;
    lemma_nul_free_bytes(p.mime_type);
    lemma_nul_free_bytes(p.description);
    lemma_first_nul_at(bytes, k);
    let rest = bytes.subrange(k + 2, bytes.len() as int);
    assert(rest =~= description + seq![0u8] + p.data);
    lemma_first_nul_at(rest, n);
    assert(bytes.subrange(0, k) =~= mime_type);
    assert(bytes[k + 1] == p.picture_type.code_spec());
    p.picture_type.lemma_code_round_trip();
    assert(rest.subrange(0, n) =~= description);
    assert(rest.subrange(n + 1, rest.len() as int) =~= p.data);
    encode_utf8_valid_utf8(p.mime_type);
    encode_utf8_valid_utf8(p.description);
    encode_utf8_decode_utf8(p.mime_type);
    encode_utf8_decode_utf8(p.description);
}

/// A payload made of content is read as that content again, under an identifier that
/// calls for content of its kind, where the payload can be taken apart.
pub proof fn lemma_payload_round_trip(id: Seq<char>, content: ContentView)
    requires
        category_of(id) == content.category(),
        content.separable(),
    ensures
        ContentView::parse(id, content.to_bytes()) == Some(content),
{
    match content {
        ContentView::Text(s) => {
            encode_utf8_valid_utf8(s);
            encode_utf8_decode_utf8(s);
        },
        ContentView::ExtendedText(d) => lemma_described_round_trip(d),
        ContentView::Link(s) => {
            encode_utf8_valid_utf8(s);
            encode_utf8_decode_utf8(s);
        },
        ContentView::ExtendedLink(d) => lemma_described_round_trip(d),
        ContentView::Comment(d) => lemma_described_round_trip(d),
        ContentView::Lyrics(d) => lemma_described_round_trip(d),
        ContentView::Picture(p) => lemma_picture_round_trip(p),
        ContentView::Unknown(_) => {},
    }
}

} // verus!
