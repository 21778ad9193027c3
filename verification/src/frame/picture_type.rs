use vstd::prelude::*;

verus! {

/// What a picture shows, as the format numbers it.
#[derive(Clone, Copy, Debug, PartialEq, Eq, Hash, Structural)]
pub enum PictureType {
    Other,
    Icon,
    OtherIcon,
    CoverFront,
    CoverBack,
    Leaflet,
    Media,
    LeadArtist,
    Artist,
    Conductor,
    Band,
    Composer,
    Lyricist,
    RecordingLocation,
    DuringRecording,
    DuringPerformance,
    ScreenCapture,
    BrightFish,
    Illustration,
    BandLogo,
    PublisherLogo,
}

impl PictureType {
    /// The byte that stands for this picture type in a payload.
    pub open spec fn code_spec(self) -> u8 {
        match self {
            PictureType::Other => 0,
            PictureType::Icon => 1,
            PictureType::OtherIcon => 2,
            PictureType::CoverFront => 3,
            PictureType::CoverBack => 4,
            PictureType::Leaflet => 5,
            PictureType::Media => 6,
            PictureType::LeadArtist => 7,
            PictureType::Artist => 8,
            PictureType::Conductor => 9,
            PictureType::Band => 10,
            PictureType::Composer => 11,
            PictureType::Lyricist => 12,
            PictureType::RecordingLocation => 13,
            PictureType::DuringRecording => 14,
            PictureType::DuringPerformance => 15,
            PictureType::ScreenCapture => 16,
            PictureType::BrightFish => 17,
            PictureType::Illustration => 18,
            PictureType::BandLogo => 19,
            PictureType::PublisherLogo => 20,
        }
    }

    /// The picture type that a byte of a payload stands for, if it stands for one.
    pub open spec fn from_code_spec(code: u8) -> Option<PictureType> {
        match code {
            0 => Some(PictureType::Other),
            1 => Some(PictureType::Icon),
            2 => Some(PictureType::OtherIcon),
            3 => Some(PictureType::CoverFront),
            4 => Some(PictureType::CoverBack),
            5 => Some(PictureType::Leaflet),
            6 => Some(PictureType::Media),
            7 => Some(PictureType::LeadArtist),
            8 => Some(PictureType::Artist),
            9 => Some(PictureType::Conductor),
            10 => Some(PictureType::Band),
            11 => Some(PictureType::Composer),
            12 => Some(PictureType::Lyricist),
            13 => Some(PictureType::RecordingLocation),
            14 => Some(PictureType::DuringRecording),
            15 => Some(PictureType::DuringPerformance),
            16 => Some(PictureType::ScreenCapture),
            17 => Some(PictureType::BrightFish),
            18 => Some(PictureType::Illustration),
            19 => Some(PictureType::BandLogo),
            20 => Some(PictureType::PublisherLogo),
            _ => None,
        }
    }

    /// The name under which this picture type is displayed.
    pub open spec fn name_spec(self) -> Seq<char> {
        match self {
            PictureType::Other => "Other"@,
            PictureType::Icon => "Icon"@,
            PictureType::OtherIcon => "OtherIcon"@,
            PictureType::CoverFront => "CoverFront"@,
            PictureType::CoverBack => "CoverBack"@,
            PictureType::Leaflet => "Leaflet"@,
            PictureType::Media => "Media"@,
            PictureType::LeadArtist => "LeadArtist"@,
            PictureType::Artist => "Artist"@,
            PictureType::Conductor => "Conductor"@,
            PictureType::Band => "Band"@,
            PictureType::Composer => "Composer"@,
            PictureType::Lyricist => "Lyricist"@,
            PictureType::RecordingLocation => "RecordingLocation"@,
            PictureType::DuringRecording => "DuringRecording"@,
            PictureType::DuringPerformance => "DuringPerformance"@,
            PictureType::ScreenCapture => "ScreenCapture"@,
            PictureType::BrightFish => "BrightFish"@,
            PictureType::Illustration => "Illustration"@,
            PictureType::BandLogo => "BandLogo"@,
            PictureType::PublisherLogo => "PublisherLogo"@,
        }
    }

    /// The byte that stands for this picture type in a payload.
    pub fn code(&self) -> (r: u8)
        ensures
            r == self.code_spec(),
    {
        match self {
            PictureType::Other => 0,
            PictureType::Icon => 1,
            PictureType::OtherIcon => 2,
            PictureType::CoverFront => 3,
            PictureType::CoverBack => 4,
            PictureType::Leaflet => 5,
            PictureType::Media => 6,
            PictureType::LeadArtist => 7,
            PictureType::Artist => 8,
            PictureType::Conductor => 9,
            PictureType::Band => 10,
            PictureType::Composer => 11,
            PictureType::Lyricist => 12,
            PictureType::RecordingLocation => 13,
            PictureType::DuringRecording => 14,
            PictureType::DuringPerformance => 15,
            PictureType::ScreenCapture => 16,
            PictureType::BrightFish => 17,
            PictureType::Illustration => 18,
            PictureType::BandLogo => 19,
            PictureType::PublisherLogo => 20,
        }
    }

    /// The picture type that a byte of a payload stands for, if it stands for one.
    pub fn from_code(code: u8) -> (r: Option<PictureType>)
        ensures
            r == PictureType::from_code_spec(code),
    {
        match code {
            0 => Some(PictureType::Other),
            1 => Some(PictureType::Icon),
            2 => Some(PictureType::OtherIcon),
            3 => Some(PictureType::CoverFront),
            4 => Some(PictureType::CoverBack),
            5 => Some(PictureType::Leaflet),
            6 => Some(PictureType::Media),
            7 => Some(PictureType::LeadArtist),
            8 => Some(PictureType::Artist),
            9 => Some(PictureType::Conductor),
            10 => Some(PictureType::Band),
            11 => Some(PictureType::Composer),
            12 => Some(PictureType::Lyricist),
            13 => Some(PictureType::RecordingLocation),
            14 => Some(PictureType::DuringRecording),
            15 => Some(PictureType::DuringPerformance),
            16 => Some(PictureType::ScreenCapture),
            17 => Some(PictureType::BrightFish),
            18 => Some(PictureType::Illustration),
            19 => Some(PictureType::BandLogo),
            20 => Some(PictureType::PublisherLogo),
            _ => None,
        }
    }

    /// The name under which this picture type is displayed.
    pub fn name(&self) -> (r: &'static str)
        ensures
            r@ == self.name_spec(),
    {
        match self {
            PictureType::Other => "Other",
            PictureType::Icon => "Icon",
            PictureType::OtherIcon => "OtherIcon",
            PictureType::CoverFront => "CoverFront",
            PictureType::CoverBack => "CoverBack",
            PictureType::Leaflet => "Leaflet",
            PictureType::Media => "Media",
            PictureType::LeadArtist => "LeadArtist",
            PictureType::Artist => "Artist",
            PictureType::Conductor => "Conductor",
            PictureType::Band => "Band",
            PictureType::Composer => "Composer",
            PictureType::Lyricist => "Lyricist",
            PictureType::RecordingLocation => "RecordingLocation",
            PictureType::DuringRecording => "DuringRecording",
            PictureType::DuringPerformance => "DuringPerformance",
            PictureType::ScreenCapture => "ScreenCapture",
            PictureType::BrightFish => "BrightFish",
            PictureType::Illustration => "Illustration",
            PictureType::BandLogo => "BandLogo",
            PictureType::PublisherLogo => "PublisherLogo",
        }
    }

    /// The byte of a picture type stands for that picture type.
    pub proof fn lemma_code_round_trip(self)
        ensures
            PictureType::from_code_spec(self.code_spec()) == Some(self),
    {
    }
}

} // verus!
