use vstd::prelude::*;

verus! {

/// Set where other tools should drop the frame when they alter the tag.
pub const TAG_ALTER_PRESERVATION: u16 = 0x8000;

/// Set where other tools should drop the frame when they alter the file.
pub const FILE_ALTER_PRESERVATION: u16 = 0x4000;

/// Set where the frame is meant to be read only.
pub const READ_ONLY: u16 = 0x2000;

/// Set where the content is a zlib stream behind a four-byte decompressed size.
pub const COMPRESSION: u16 = 0x0080;

/// Set where the content is encrypted.
pub const ENCRYPTION: u16 = 0x0040;

/// Set where the content starts with a grouping identity byte.
pub const GROUPING_IDENTITY: u16 = 0x0020;

/// The flag word of a version-3 frame header, bit by bit.
#[derive(Clone, Copy, Debug, PartialEq, Eq, Structural)]
pub struct Flags {
    pub tag_alter_preservation: bool,
    pub file_alter_preservation: bool,
    pub read_only: bool,
    pub compression: bool,
    pub encryption: bool,
    pub grouping_identity: bool,
}

impl Flags {
    /// The flags that a flag word holds; bits without a meaning are ignored.
    pub open spec fn from_bits_spec(bits: u16) -> Flags {
        Flags {
            tag_alter_preservation: bits & TAG_ALTER_PRESERVATION != 0,
            file_alter_preservation: bits & FILE_ALTER_PRESERVATION != 0,
            read_only: bits & READ_ONLY != 0,
            compression: bits & COMPRESSION != 0,
            encryption: bits & ENCRYPTION != 0,
            grouping_identity: bits & GROUPING_IDENTITY != 0,
        }
    }

    /// The flag word that holds exactly these flags.
    pub open spec fn to_bits_spec(self) -> u16 {
        (if self.tag_alter_preservation { TAG_ALTER_PRESERVATION } else { 0 })
        | (if self.file_alter_preservation { FILE_ALTER_PRESERVATION } else { 0 })
        | (if self.read_only { READ_ONLY } else { 0 })
        | (if self.compression { COMPRESSION } else { 0 })
        | (if self.encryption { ENCRYPTION } else { 0 })
        | (if self.grouping_identity { GROUPING_IDENTITY } else { 0 })
    }

    /// Reads the flags out of a flag word.
    pub fn from_bits(bits: u16) -> (r: Flags)
        ensures
            r == Flags::from_bits_spec(bits),
    {
        Flags {
            tag_alter_preservation: bits & TAG_ALTER_PRESERVATION != 0,
            file_alter_preservation: bits & FILE_ALTER_PRESERVATION != 0,
            read_only: bits & READ_ONLY != 0,
            compression: bits & COMPRESSION != 0,
            encryption: bits & ENCRYPTION != 0,
            grouping_identity: bits & GROUPING_IDENTITY != 0,
        }
    }

    /// Packs the flags into a flag word.
    pub fn to_bits(&self) -> (r: u16)
        ensures
            r == self.to_bits_spec(),
    {
        let a: u16 = if self.tag_alter_preservation { TAG_ALTER_PRESERVATION } else { 0 };
        let b: u16 = if self.file_alter_preservation { FILE_ALTER_PRESERVATION } else { 0 };
        let c: u16 = if self.read_only { READ_ONLY } else { 0 };
        let d: u16 = if self.compression { COMPRESSION } else { 0 };
        let e: u16 = if self.encryption { ENCRYPTION } else { 0 };
        let f: u16 = if self.grouping_identity { GROUPING_IDENTITY } else { 0 };
        a | b | c | d | e | f
    }

    /// A flag word made of flags gives the same flags back.
    pub proof fn lemma_bits_round_trip(self)
        ensures
            Flags::from_bits_spec(self.to_bits_spec()) == self,
    {
        let a: u16 = if self.tag_alter_preservation { 0x8000 } else { 0 };
        let b: u16 = if self.file_alter_preservation { 0x4000 } else { 0 };
        let c: u16 = if self.read_only { 0x2000 } else { 0 };
        let d: u16 = if self.compression { 0x0080 } else { 0 };
        let e: u16 = if self.encryption { 0x0040 } else { 0 };
        let f: u16 = if self.grouping_identity { 0x0020 } else { 0 };
        let w: u16 = a | b | c | d | e | f;
        assert((w & 0x8000 != 0) == (a != 0) && (w & 0x4000 != 0) == (b != 0) && (w & 0x2000 != 0)
            == (c != 0) && (w & 0x0080 != 0) == (d != 0) && (w & 0x0040 != 0) == (e != 0) && (w
            & 0x0020 != 0) == (f != 0)) by (bit_vector)
            requires
                w == a | b | c | d | e | f,
                a == 0x8000 || a == 0,
                b == 0x4000 || b == 0,
                c == 0x2000 || c == 0,
                d == 0x0080 || d == 0,
                e == 0x0040 || e == 0,
                f == 0x0020 || f == 0,
        ;
    }
}

} // verus!
