use crate::frame::picture_type::PictureType;
use crate::util::bytes_eq;
use vstd::prelude::*;
use vstd::std_specs::cmp::PartialEqSpecImpl;
use vstd::string::*;

verus! {

/// A text with a description of what it is about.
#[derive(Clone, Debug, PartialEq, Eq, Hash)]
pub struct ExtendedText {
    pub description: String,
    pub value: String,
}

/// A link with a description of what it leads to.
#[derive(Clone, Debug, PartialEq, Eq, Hash)]
pub struct ExtendedLink {
    pub description: String,
    pub link: String,
}

/// A comment and a short description of it.
#[derive(Clone, Debug, PartialEq, Eq, Hash)]
pub struct Comment {
    pub description: String,
    pub text: String,
}

/// Lyrics and a short description of them.
#[derive(Clone, Debug, PartialEq, Eq, Hash)]
pub struct Lyrics {
    pub description: String,
    pub text: String,
}

/// An attached picture.
#[derive(Clone, Debug, PartialEq, Eq, Hash)]
pub struct Picture {
    pub mime_type: String,
    pub picture_type: PictureType,
    pub description: String,
    pub data: Vec<u8>,
}

/// What a frame carries.
#[derive(Debug, Eq, Hash)]
pub enum Content {
    /// A text.
    Text(String),
    /// A text with a description.
    ExtendedText(ExtendedText),
    /// A link.
    Link(String),
    /// A link with a description.
    ExtendedLink(ExtendedLink),
    /// A comment.
    Comment(Comment),
    /// Lyrics.
    Lyrics(Lyrics),
    /// A picture.
    Picture(Picture),
    /// Bytes of a frame whose meaning is not known.
    Unknown(Vec<u8>),
}

/// The mathematical value of a described text: of an [`ExtendedText`], an
/// [`ExtendedLink`], a [`Comment`] or [`Lyrics`].
pub struct DescribedView {
    pub description: Seq<char>,
    pub text: Seq<char>,
}

/// The mathematical value of a [`Picture`].
pub struct PictureView {
    pub mime_type: Seq<char>,
    pub picture_type: PictureType,
    pub description: Seq<char>,
    pub data: Seq<u8>,
}

/// The mathematical value of a [`Content`].
pub enum ContentView {
    Text(Seq<char>),
    ExtendedText(DescribedView),
    Link(Seq<char>),
    ExtendedLink(DescribedView),
    Comment(DescribedView),
    Lyrics(DescribedView),
    Picture(PictureView),
    Unknown(Seq<u8>),
}

/// The kinds of content, by which an identifier says how its payload is laid out.
#[derive(Clone, Copy, Debug, PartialEq, Eq, Structural)]
pub enum Category {
    Text,
    ExtendedText,
    Link,
    ExtendedLink,
    Comment,
    Lyrics,
    Picture,
    Unknown,
}

impl View for ExtendedText {
    type V = DescribedView;

    open spec fn view(&self) -> DescribedView {
        DescribedView { description: self.description@, text: self.value@ }
    }
}

impl View for ExtendedLink {
    type V = DescribedView;

    open spec fn view(&self) -> DescribedView {
        DescribedView { description: self.description@, text: self.link@ }
    }
}

impl View for Comment {
    type V = DescribedView;

    open spec fn view(&self) -> DescribedView {
        DescribedView { description: self.description@, text: self.text@ }
    }
}

impl View for Lyrics {
    type V = DescribedView;

    open spec fn view(&self) -> DescribedView {
        DescribedView { description: self.description@, text: self.text@ }
    }
}

impl View for Picture {
    type V = PictureView;

    open spec fn view(&self) -> PictureView {
        PictureView {
            mime_type: self.mime_type@,
            picture_type: self.picture_type,
            description: self.description@,
            data: self.data@,
        }
    }
}

impl View for Content {
    type V = ContentView;

    open spec fn view(&self) -> ContentView {
        match self {
            Content::Text(s) => ContentView::Text(s@),
            Content::ExtendedText(c) => ContentView::ExtendedText(c@),
            Content::Link(s) => ContentView::Link(s@),
            Content::ExtendedLink(c) => ContentView::ExtendedLink(c@),
            Content::Comment(c) => ContentView::Comment(c@),
            Content::Lyrics(c) => ContentView::Lyrics(c@),
            Content::Picture(c) => ContentView::Picture(c@),
            Content::Unknown(b) => ContentView::Unknown(b@),
        }
    }
}

/// The text of a decimal digit.
pub open spec fn digit_text(d: nat) -> Seq<char>
    recommends
        d < 10,
{
    if d == 0 {
        "0"@
    } else if d == 1 {
        "1"@
    } else if d == 2 {
        "2"@
    } else if d == 3 {
        "3"@
    } else if d == 4 {
        "4"@
    } else if d == 5 {
        "5"@
    } else if d == 6 {
        "6"@
    } else if d == 7 {
        "7"@
    } else if d == 8 {
        "8"@
    } else {
        "9"@
    }
}

/// A number in decimal digits, without leading zeros.
pub open spec fn decimal(n: nat) -> Seq<char>
    decreases n,
{
    if n < 10 {
        digit_text(n)
    } else {
        decimal(n / 10) + digit_text(n % 10)
    }
}

impl DescribedView {
    /// The line that displays a described text: the description, a colon, the text.
    pub open spec fn text(self) -> Seq<char> {
        self.description + ": "@ + self.text
    }
}

impl PictureView {
    /// The line that displays a picture: the description, a colon, the picture type
    /// and, in brackets, the MIME type.
    pub open spec fn text(self) -> Seq<char> {
        self.description + ": "@ + self.picture_type.name_spec() + " ("@ + self.mime_type + ")"@
    }
}

impl ContentView {
    /// The line that displays this content.
    pub open spec fn text(self) -> Seq<char> {
        match self {
            ContentView::Text(s) => s,
            ContentView::ExtendedText(d) => d.text(),
            ContentView::Link(s) => s,
            ContentView::ExtendedLink(d) => d.text(),
            ContentView::Comment(d) => d.text(),
            ContentView::Lyrics(d) => d.text(),
            ContentView::Picture(p) => p.text(),
            ContentView::Unknown(b) => "unknown, "@ + decimal(b.len()) + " bytes"@,
        }
    }

    /// The kind of this content.
    pub open spec fn category(self) -> Category {
        match self {
            ContentView::Text(_) => Category::Text,
            ContentView::ExtendedText(_) => Category::ExtendedText,
            ContentView::Link(_) => Category::Link,
            ContentView::ExtendedLink(_) => Category::ExtendedLink,
            ContentView::Comment(_) => Category::Comment,
            ContentView::Lyrics(_) => Category::Lyrics,
            ContentView::Picture(_) => Category::Picture,
            ContentView::Unknown(_) => Category::Unknown,
        }
    }
}

impl Clone for Content {
    fn clone(&self) -> (r: Content)
        ensures
            r@ == self@,
    {
        match self {
            Content::Text(s) => Content::Text(s.clone()),
            Content::ExtendedText(c) => Content::ExtendedText(
                ExtendedText { description: c.description.clone(), value: c.value.clone() },
            ),
            Content::Link(s) => Content::Link(s.clone()),
            Content::ExtendedLink(c) => Content::ExtendedLink(
                ExtendedLink { description: c.description.clone(), link: c.link.clone() },
            ),
            Content::Comment(c) => Content::Comment(
                Comment { description: c.description.clone(), text: c.text.clone() },
            ),
            Content::Lyrics(c) => Content::Lyrics(
                Lyrics { description: c.description.clone(), text: c.text.clone() },
            ),
            Content::Picture(c) => Content::Picture(
                Picture {
                    mime_type: c.mime_type.clone(),
                    picture_type: c.picture_type,
                    description: c.description.clone(),
                    data: c.data.clone(),
                },
            ),
            Content::Unknown(b) => Content::Unknown(b.clone()),
        }
    }
}

impl PartialEq for Content {
    /// Two contents are equal where they are of the same kind and hold the same values.
    fn eq(&self, other: &Content) -> (r: bool) {
        match self {
            Content::Text(a) => match other {
                Content::Text(b) => *a == *b,
                _ => false,
            },
            Content::ExtendedText(a) => match other {
                Content::ExtendedText(b) => a.description == b.description && a.value == b.value,
                _ => false,
            },
            Content::Link(a) => match other {
                Content::Link(b) => *a == *b,
                _ => false,
            },
            Content::ExtendedLink(a) => match other {
                Content::ExtendedLink(b) => a.description == b.description && a.link == b.link,
                _ => false,
            },
            Content::Comment(a) => match other {
                Content::Comment(b) => a.description == b.description && a.text == b.text,
                _ => false,
            },
            Content::Lyrics(a) => match other {
                Content::Lyrics(b) => a.description == b.description && a.text == b.text,
                _ => false,
            },
            Content::Picture(a) => match other {
                Content::Picture(b) => a.mime_type == b.mime_type && a.picture_type
                    == b.picture_type && a.description == b.description && bytes_eq(
                    a.data.as_slice(),
                    b.data.as_slice(),
                ),
                _ => false,
            },
            Content::Unknown(a) => match other {
                Content::Unknown(b) => bytes_eq(a.as_slice(), b.as_slice()),
                _ => false,
            },
        }
    }
}

impl PartialEqSpecImpl for Content {
    open spec fn obeys_eq_spec() -> bool {
        true
    }

    open spec fn eq_spec(&self, other: &Content) -> bool {
        self@ == other@
    }
}

/// The text of a decimal digit.
fn digit_str(d: usize) -> (r: &'static str)
    requires
        d < 10,
    ensures
        r@ == digit_text(d as nat),
{
    if d == 0 {
        "0"
    } else if d == 1 {
        "1"
    } else if d == 2 {
        "2"
    } else if d == 3 {
        "3"
    } else if d == 4 {
        "4"
    } else if d == 5 {
        "5"
    } else if d == 6 {
        "6"
    } else if d == 7 {
        "7"
    } else if d == 8 {
        "8"
    } else {
        "9"
    }
}

/// Appends a number in decimal digits.
fn push_decimal(s: &mut String, n: usize)
    ensures
        final(s)@ == old(s)@ + decimal(n as nat),
    decreases n,
{
    if n >= 10 {
        push_decimal(s, n / 10);
    }
    s.append(digit_str(n % 10));
}

/// The line that displays a described text.
fn described_text(description: &String, text: &String) -> (r: String)
    ensures
        r@ == (DescribedView { description: description@, text: text@ }).text(),
{
    let mut r = description.clone();
    r.append(": ");
    r.append(text.as_str());
    r
}

impl Content {
    /// A line that displays this content: a text or a link as it is; a described text
    /// as `description: text`; a picture as `description: picture type (MIME type)`;
    /// bytes of unknown meaning as `unknown, N bytes`.
    pub fn text(&self) -> (r: String)
        ensures
            r@ == self@.text(),
    {
        match self {
            Content::Text(s) => s.clone(),
            Content::ExtendedText(c) => described_text(&c.description, &c.value),
            Content::Link(s) => s.clone(),
            Content::ExtendedLink(c) => described_text(&c.description, &c.link),
            Content::Comment(c) => described_text(&c.description, &c.text),
            Content::Lyrics(c) => described_text(&c.description, &c.text),
            Content::Picture(c) => {
                let mut r = c.description.clone();
                r.append(": ");
                r.append(c.picture_type.name());
                r.append(" (");
                r.append(c.mime_type.as_str());
                r.append(")");
                r
            },
            Content::Unknown(b) => {
                let mut r = String::from_str("unknown, ");
                push_decimal(&mut r, b.len());
                r.append(" bytes");
                r
            },
        }
    }
}

} // verus!
