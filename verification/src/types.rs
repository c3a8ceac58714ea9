use vstd::prelude::*;
use vstd::string::StringExecFns;

verus! {

/// The closed set of metadata field labels a track record carries.
#[derive(Clone, Copy, PartialEq, Eq, Structural, Debug)]
pub enum FieldLabel {
    Title,
    Artist,
    Album,
    Genre,
}

impl FieldLabel {
    /// The lower-case display name of the label.
    pub open spec fn spec_name(self) -> Seq<char> {
        match self {
            FieldLabel::Title => "title"@,
            FieldLabel::Artist => "artist"@,
            FieldLabel::Album => "album"@,
            FieldLabel::Genre => "genre"@,
        }
    }

    pub fn name(&self) -> (r: &'static str)
        ensures
            r@ == self.spec_name(),
    {
        match self {
            FieldLabel::Title => "title",
            FieldLabel::Artist => "artist",
            FieldLabel::Album => "album",
            FieldLabel::Genre => "genre",
        }
    }
}

/// The uploader of a track, as the resolution endpoint describes it.
pub struct User {
    pub id: u32,
    pub username: String,
}

/// Transport protocol and MIME type of one available rendition.
pub struct TranscodingFormat {
    pub protocol: String,
    pub mime_type: String,
}

/// One available encoded rendition of a track: an exchange URL, a preset
/// label and a format descriptor.
pub struct Transcoding {
    pub url: String,
    pub preset: String,
    pub format: TranscodingFormat,
}

/// The ordered list of renditions the resolution endpoint offers.
pub struct Transcodings {
    pub transcodings: Vec<Transcoding>,
}

/// A resolved track descriptor, immutable once fetched.
pub struct TrackInfo {
    pub artwork_url: String,
    pub genre: String,
    pub id: u32,
    pub title: String,
    pub user: User,
    pub media: Transcodings,
}

/// A (label, value) pair. An empty value is valid and means that no
/// override was applied for that label.
pub struct MetadataField {
    pub label: FieldLabel,
    pub value: String,
}

impl MetadataField {
    /// The textual rendering: the label name, and `": value"` after it
    /// when the value is non-empty.
    pub open spec fn spec_render(&self) -> Seq<char> {
        if self.value@.len() == 0 {
            self.label.spec_name()
        } else {
            self.label.spec_name() + ": "@ + self.value@
        }
    }

    pub fn render(&self) -> (r: String)
        ensures
            r@ == self.spec_render(),
    {
        let mut r = String::from_str(self.label.name());
        if !self.value.as_str().is_empty() {
            r.append(": ");
            r.append(self.value.as_str());
        }
        proof {
            assert(r@ =~= self.spec_render());
        }
        r
    }
}

/// The assembled metadata record: exactly one field per label, plus the
/// raw cover-art bytes (possibly empty). Consumed once by the tag writer.
pub struct Metadata {
    pub title: MetadataField,
    pub artist: MetadataField,
    pub genre: MetadataField,
    pub album_name: MetadataField,
    pub album_art: Vec<u8>,
}

/// Each field of an assembled record carries the label it stands under.
pub open spec fn metadata_wf(m: &Metadata) -> bool {
    &&& m.title.label == FieldLabel::Title
    &&& m.artist.label == FieldLabel::Artist
    &&& m.genre.label == FieldLabel::Genre
    &&& m.album_name.label == FieldLabel::Album
}

/// The closed error taxonomy of a single track's pipeline. The two
/// resolution-failure kinds carry the original source URL extracted from
/// the failed request; the other two carry a plain message.
pub enum DownloadError {
    File(String),
    NetworkNotFound(String),
    NetworkForbidden(String),
    NetworkOther(String),
}

impl DownloadError {
    /// The user-facing rendering of the error.
    pub open spec fn spec_message(&self) -> Seq<char> {
        match self {
            DownloadError::File(s) => "could not write to file: "@ + s@,
            DownloadError::NetworkNotFound(s) => "not found: "@ + s@,
            DownloadError::NetworkForbidden(s) => "forbidden: "@ + s@,
            DownloadError::NetworkOther(s) => s@,
        }
    }

    pub fn message(&self) -> (r: String)
        ensures
            r@ == self.spec_message(),
    {
        match self {
            DownloadError::File(s) => {
                let mut r = String::from_str("could not write to file: ");
                r.append(s.as_str());
                r
            },
            DownloadError::NetworkNotFound(s) => {
                let mut r = String::from_str("not found: ");
                r.append(s.as_str());
                r
            },
            DownloadError::NetworkForbidden(s) => {
                let mut r = String::from_str("forbidden: ");
                r.append(s.as_str());
                r
            },
            DownloadError::NetworkOther(s) => s.clone(),
        }
    }
}

/// Failure of the transcoding selection strategy: the configured ordinal
/// does not name an entry of the resolved list. This is a data-invariant
/// violation, kept apart from the user-facing download errors.
#[derive(Clone, Copy, PartialEq, Eq, Structural, Debug)]
pub enum SelectionError {
    OrdinalOutOfRange,
}

/// Everything that can end a track's pipeline early.
pub enum SoundcloudError {
    Download(DownloadError),
    Selection(SelectionError),
}

impl SoundcloudError {
    /// The user-facing rendering of the error.
    pub open spec fn spec_message(&self) -> Seq<char> {
        match self {
            SoundcloudError::Download(e) => e.spec_message(),
            SoundcloudError::Selection(_) => "no transcoding at the configured ordinal"@,
        }
    }

    pub fn message(&self) -> (r: String)
        ensures
            r@ == self.spec_message(),
    {
        match self {
            SoundcloudError::Download(e) => e.message(),
            SoundcloudError::Selection(_) => String::from_str(
                "no transcoding at the configured ordinal",
            ),
        }
    }
}

} // verus!
