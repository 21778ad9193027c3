pub mod content;
pub mod flags;
pub mod payload;
pub mod picture_type;
pub mod stream;

pub use self::content::{Comment, Content, ExtendedLink, ExtendedText, Lyrics, Picture};
pub use self::picture_type::PictureType;

use self::content::ContentView;
use crate::tag::Version;
use crate::util::{
    convert_id_2_to_3, convert_id_2_to_3_spec, convert_id_3_to_2, convert_id_3_to_2_spec,
    lemma_modern_id_is_ascii, opt_str_view,
};
use std::borrow::Cow;
use std::hash::{Hash, Hasher};
use vstd::prelude::*;
use vstd::std_specs::cmp::PartialEqSpecImpl;
use vstd::string::*;
use vstd::utf8::*;

verus! {

/// The name of a frame.
#[derive(Debug, Eq, Hash)]
enum ID {
    /// A four-byte identifier.
    Valid(String),
    /// A three-byte legacy identifier that has no four-character successor, kept as
    /// it was so that the frame is not lost.
    Invalid(String),
}

/// The mathematical value of a frame's identifier.
pub enum IdView {
    /// A four-byte identifier.
    Valid(Seq<char>),
    /// A three-byte legacy identifier without a successor.
    Invalid(Seq<char>),
}

impl IdView {
    /// The identifier that a frame gets from a name of three or four bytes: a
    /// three-byte name is translated where the table has a successor for it and kept
    /// verbatim, as invalid, where it has none; a four-byte name is taken as it is.
    pub open spec fn construct(id: Seq<char>) -> IdView {
        if encode_utf8(id).len() == 3 {
            match convert_id_2_to_3_spec(id) {
                Some(translated) => IdView::Valid(translated),
                None => IdView::Invalid(id),
            }
        } else {
            IdView::Valid(id)
        }
    }

    /// The stored name.
    pub open spec fn text(self) -> Seq<char> {
        match self {
            IdView::Valid(id) => id,
            IdView::Invalid(id) => id,
        }
    }

    /// The name under which a tag of the given version knows this identifier, if it
    /// knows it at all.
    pub open spec fn for_version(self, version: Version) -> Option<Seq<char>> {
        match self {
            IdView::Valid(id) => match version {
                Version::Id3v22 => convert_id_3_to_2_spec(id),
                _ => Some(id),
            },
            IdView::Invalid(id) => match version {
                Version::Id3v22 => Some(id),
                _ => None,
            },
        }
    }

    /// What holds of the identifier of every frame: a valid one has four bytes, an
    /// invalid one has three and no successor in the table.
    pub open spec fn well_formed(self) -> bool {
        match self {
            IdView::Valid(id) => encode_utf8(id).len() == 4,
            IdView::Invalid(id) => encode_utf8(id).len() == 3 && convert_id_2_to_3_spec(id)
                is None,
        }
    }
}

impl View for ID {
    type V = IdView;

    closed spec fn view(&self) -> IdView {
        match self {
            ID::Valid(id) => IdView::Valid(id@),
            ID::Invalid(id) => IdView::Invalid(id@),
        }
    }
}

impl Clone for ID {
    fn clone(&self) -> (r: ID)
        ensures
            r@ == self@,
    {
        match self {
            ID::Valid(id) => ID::Valid(id.clone()),
            ID::Invalid(id) => ID::Invalid(id.clone()),
        }
    }
}

impl PartialEq for ID {
    fn eq(&self, other: &ID) -> (r: bool) {
        match self {
            ID::Valid(a) => match other {
                ID::Valid(b) => *a == *b,
                _ => false,
            },
            ID::Invalid(a) => match other {
                ID::Invalid(b) => *a == *b,
                _ => false,
            },
        }
    }
}

impl PartialEqSpecImpl for ID {
    open spec fn obeys_eq_spec() -> bool {
        true
    }

    open spec fn eq_spec(&self, other: &ID) -> bool {
        self@ == other@
    }
}

/// One unit of metadata: an identifier, the content that it names, and the flags that
/// travel with it.
///
/// Equality follows the format's notion of which frames may occur twice in a tag: two
/// frames that carry texts are the same frame where they have the same identifier,
/// whatever the texts; any other two frames are the same only if their content is the
/// same too. The flags take no part in it.
#[derive(Debug, Eq)]
pub struct Frame {
    id: ID,
    content: Content,
    tag_alter_preservation: bool,
    file_alter_preservation: bool,
    read_only: bool,
    compression: bool,
}

/// The mathematical value of a [`Frame`].
pub struct FrameView {
    pub id: IdView,
    pub content: ContentView,
    pub tag_alter_preservation: bool,
    pub file_alter_preservation: bool,
    pub read_only: bool,
    pub compression: bool,
}

impl FrameView {
    /// The frame that is made of a name and a content: no flag is set.
    pub open spec fn with_content(id: Seq<char>, content: ContentView) -> FrameView {
        FrameView {
            id: IdView::construct(id),
            content,
            tag_alter_preservation: false,
            file_alter_preservation: false,
            read_only: false,
            compression: false,
        }
    }

    /// Whether two frames are the same frame: two frames that carry texts need the
    /// same identifier, any other two frames the same content as well.
    pub open spec fn same_frame(self, other: FrameView) -> bool {
        if self.content is Text && other.content is Text {
            self.id == other.id
        } else {
            self.id == other.id && self.content == other.content
        }
    }

    /// What of a frame goes into its hash: the identifier, and the content unless it
    /// is a text.
    pub open spec fn hash_key(self) -> (IdView, Option<ContentView>) {
        match self.content {
            ContentView::Text(_) => (self.id, None),
            _ => (self.id, Some(self.content)),
        }
    }
}

impl View for Frame {
    type V = FrameView;

    closed spec fn view(&self) -> FrameView {
        FrameView {
            id: self.id@,
            content: self.content@,
            tag_alter_preservation: self.tag_alter_preservation,
            file_alter_preservation: self.file_alter_preservation,
            read_only: self.read_only,
            compression: self.compression,
        }
    }
}

impl Frame {
    #[verifier::type_invariant]
    spec fn well_formed(&self) -> bool {
        self.id@.well_formed()
    }

    /// Creates a frame with the given name and no content yet.
    pub fn new(id: &str) -> (r: Frame)
        requires
            encode_utf8(id@).len() == 3 || encode_utf8(id@).len() == 4,
        ensures
            r@ == FrameView::with_content(id@, ContentView::Unknown(Seq::empty())),
    {
        Frame::with_content(id, Content::Unknown(Vec::new()))
    }

    /// Creates a frame with the given name and content, and with no flag set.
    ///
    /// The name has three or four bytes. A three-byte name is a legacy one: it is
    /// replaced by its four-character successor, or kept as it is if it has none.
    pub fn with_content(id: &str, content: Content) -> (r: Frame)
        requires
            encode_utf8(id@).len() == 3 || encode_utf8(id@).len() == 4,
        ensures
            r@ == FrameView::with_content(id@, content@),
    {
        let id = if id.len() == 3 {
            match convert_id_2_to_3(id) {
                Some(translated) => {
                    proof {
                        lemma_modern_id_is_ascii(id@);
                    }
                    ID::Valid(translated.to_owned())
                },
                None => ID::Invalid(id.to_owned()),
            }
        } else {
            ID::Valid(id.to_owned())
        };
        Frame {
            id,
            content,
            tag_alter_preservation: false,
            file_alter_preservation: false,
            read_only: false,
            compression: false,
        }
    }

    /// The name of this frame: four bytes, or three where the frame came with a legacy
    /// name that has no successor.
    pub fn id(&self) -> (r: &str)
        ensures
            r@ == self@.id.text(),
            self@.id.well_formed(),
    {
        proof {
            use_type_invariant(self);
        }
        match &self.id {
            ID::Valid(id) => id.as_str(),
            ID::Invalid(id) => id.as_str(),
        }
    }

    /// The name under which a tag of the given version knows this frame, or `None` if
    /// it has no name there.
    pub fn id_for_version(&self, version: Version) -> (r: Option<&str>)
        ensures
            opt_str_view(r) == self@.id.for_version(version),
    {
        match &self.id {
            ID::Valid(id) => match version {
                Version::Id3v22 => convert_id_3_to_2(id.as_str()),
                _ => Some(id.as_str()),
            },
            ID::Invalid(id) => match version {
                Version::Id3v22 => Some(id.as_str()),
                _ => None,
            },
        }
    }

    /// The content of this frame.
    pub fn content(&self) -> (r: &Content)
        ensures
            r@ == self@.content,
    {
        &self.content
    }

    /// Replaces the content of this frame.
    pub fn set_content(&mut self, content: Content)
        ensures
            final(self)@ == (FrameView { content: content@, ..old(self)@ }),
    {
        proof {
            use_type_invariant(&*self);
        }
        self.content = content;
    }

    /// Whether the frame is to be dropped when the tag is altered.
    pub fn tag_alter_preservation(&self) -> (r: bool)
        ensures
            r == self@.tag_alter_preservation,
    {
        self.tag_alter_preservation
    }

    /// Sets whether the frame is to be dropped when the tag is altered.
    pub fn set_tag_alter_preservation(&mut self, tag_alter_preservation: bool)
        ensures
            final(self)@ == (FrameView { tag_alter_preservation, ..old(self)@ }),
    {
        proof {
            use_type_invariant(&*self);
        }
        self.tag_alter_preservation = tag_alter_preservation;
    }

    /// Whether the frame is to be dropped when the file is altered.
    pub fn file_alter_preservation(&self) -> (r: bool)
        ensures
            r == self@.file_alter_preservation,
    {
        self.file_alter_preservation
    }

    /// Sets whether the frame is to be dropped when the file is altered.
    pub fn set_file_alter_preservation(&mut self, file_alter_preservation: bool)
        ensures
            final(self)@ == (FrameView { file_alter_preservation, ..old(self)@ }),
    {
        proof {
            use_type_invariant(&*self);
        }
        self.file_alter_preservation = file_alter_preservation;
    }

    /// Whether the frame is marked as read only. The mark is carried along and has no
    /// effect on what can be done with the frame.
    pub fn read_only(&self) -> (r: bool)
        ensures
            r == self@.read_only,
    {
        self.read_only
    }

    /// Marks the frame as read only, or takes the mark away.
    pub fn set_read_only(&mut self, read_only: bool)
        ensures
            final(self)@ == (FrameView { read_only, ..old(self)@ }),
    {
        proof {
            use_type_invariant(&*self);
        }
        self.read_only = read_only;
    }

    /// Whether the content is compressed where the frame is written.
    pub fn compression(&self) -> (r: bool)
        ensures
            r == self@.compression,
    {
        self.compression
    }

    /// Sets whether the content is compressed where the frame is written.
    pub fn set_compression(&mut self, compression: bool)
        ensures
            final(self)@ == (FrameView { compression, ..old(self)@ }),
    {
        proof {
            use_type_invariant(&*self);
        }
        self.compression = compression;
    }

    /// A line that displays the content of this frame.
    pub fn text(&self) -> (r: Option<Cow<'_, str>>)
        ensures
            r matches Some(line) && line@ == self@.content.text(),
    {
        Some(Cow::Owned(self.content.text()))
    }

    /// What of this frame goes into its hash.
    fn hash_key(&self) -> (r: (&ID, Option<&Content>))
        ensures
            r.0@ == self@.hash_key().0,
            match r.1 {
                Some(content) => self@.hash_key().1 == Some(content@),
                None => self@.hash_key().1 is None,
            },
    {
        match self.content {
            Content::Text(_) => (&self.id, None),
            _ => (&self.id, Some(&self.content)),
        }
    }
}

impl Clone for Frame {
    fn clone(&self) -> (r: Frame)
        ensures
            r@ == self@,
    {
        proof {
            use_type_invariant(self);
        }
        Frame {
            id: self.id.clone(),
            content: self.content.clone(),
            tag_alter_preservation: self.tag_alter_preservation,
            file_alter_preservation: self.file_alter_preservation,
            read_only: self.read_only,
            compression: self.compression,
        }
    }
}

impl PartialEq for Frame {
    fn eq(&self, other: &Frame) -> (r: bool) {
        match self.content {
            Content::Text(_) => match other.content {
                Content::Text(_) => self.id == other.id,
                _ => false,
            },
            _ => self.id == other.id && self.content == other.content,
        }
    }
}

impl PartialEqSpecImpl for Frame {
    open spec fn obeys_eq_spec() -> bool {
        true
    }

    open spec fn eq_spec(&self, other: &Frame) -> bool {
        self@.same_frame(other@)
    }
}

/// Feeds an identifier to a hasher with the `Hash` that is derived for it. Trusted:
/// nothing is claimed of the hasher's state.
#[verifier::external_body]
fn feed_id<H: Hasher>(id: &ID, state: &mut H) {
    id.hash(state)
}

/// Feeds a content to a hasher with the `Hash` that is derived for it. Trusted:
/// nothing is claimed of the hasher's state.
#[verifier::external_body]
fn feed_content<H: Hasher>(content: &Content, state: &mut H) {
    content.hash(state)
}

impl Hash for Frame {
    /// Feeds the hasher what [`FrameView::hash_key`] names: the identifier, and then
    /// the content unless it is a text.
    fn hash<H: Hasher>(&self, state: &mut H) {
        let (id, content) = self.hash_key();
        feed_id(id, state);
        match content {
            Some(content) => feed_content(content, state),
            None => {},
        }
    }
}

/// Being the same frame is an equivalence: every frame is the same frame as itself,
/// it does not matter which of two frames is asked, and what is the same frame as a
/// third through a second is so directly.
pub proof fn lemma_same_frame_is_equivalence(a: FrameView, b: FrameView, c: FrameView)
    ensures
        a.same_frame(a),
        a.same_frame(b) == b.same_frame(a),
        a.same_frame(b) && b.same_frame(c) ==> a.same_frame(c),
{
}

/// Frames that are the same frame have the same hash key.
pub proof fn lemma_hash_agrees_with_eq(a: FrameView, b: FrameView)
    requires
        a.same_frame(b),
    ensures
        a.hash_key() == b.hash_key(),
{
}

/// A frame that carries a text is not the same frame as one that carries anything
/// else, also under the same identifier.
pub proof fn lemma_text_frame_differs_from_others(a: FrameView, b: FrameView)
    requires
        a.content is Text,
        !(b.content is Text),
    ensures
        !a.same_frame(b),
        !b.same_frame(a),
{
}

/// Two frames that carry texts under the same identifier are the same frame,
/// whatever the texts.
pub proof fn lemma_text_frames_equal(a: FrameView, b: FrameView)
    requires
        a.id == b.id,
        a.content is Text,
        b.content is Text,
    ensures
        a.same_frame(b),
        b.same_frame(a),
{
}

/// Two frames that carry pictures under the same identifier are not the same frame
/// where the pictures' data differ.
pub proof fn lemma_picture_frames_differ(a: FrameView, b: FrameView)
    requires
        a.id == b.id,
        a.content is Picture,
        b.content is Picture,
        a.content->Picture_0.data != b.content->Picture_0.data,
    ensures
        !a.same_frame(b),
        !b.same_frame(a),
{
}

/// A legacy name with a successor makes a frame named by that successor, and the
/// legacy version knows the frame by the legacy name again.
pub proof fn lemma_mapped_legacy_id(id: Seq<char>)
    requires
        convert_id_2_to_3_spec(id) is Some,
    ensures
        IdView::construct(id) == IdView::Valid(convert_id_2_to_3_spec(id)->0),
        IdView::construct(id).text() == convert_id_2_to_3_spec(id)->0,
        IdView::construct(id).for_version(Version::Id3v22) == Some(id),
        IdView::construct(id).well_formed(),
{
    lemma_modern_id_is_ascii(id);
    crate::util::lemma_legacy_id_round_trip(id);
}

/// A legacy name without a successor is kept verbatim: the legacy version knows the
/// frame by it, and no later version knows the frame at all.
pub proof fn lemma_unmapped_legacy_id(id: Seq<char>, version: Version)
    requires
        encode_utf8(id).len() == 3,
        convert_id_2_to_3_spec(id) is None,
    ensures
        IdView::construct(id) == IdView::Invalid(id),
        IdView::construct(id).text() == id,
        IdView::construct(id).for_version(Version::Id3v22) == Some(id),
        version != Version::Id3v22 ==> IdView::construct(id).for_version(version) is None,
        IdView::construct(id).well_formed(),
{
}

} // verus!
