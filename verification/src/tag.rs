use vstd::prelude::*;

use id3::Tag;
use id3::TagLike;

use crate::types::FieldLabel;
use crate::types::Metadata;
use crate::types::MetadataField;
use crate::types::metadata_wf;

verus! {

#[verifier::external_type_specification]
#[verifier::external_body]
pub struct ExTag(Tag);

/// The text frames a tag holds, keyed by frame identifier: for each
/// identifier, the text of its first textual frame.
pub uninterp spec fn tag_text_frames(t: Tag) -> Map<Seq<char>, Seq<char>>;

/// The picture frames a tag holds, keyed by picture type code, each a
/// (MIME type, description, data) triple.
pub uninterp spec fn tag_pictures(t: Tag) -> Map<int, (Seq<char>, Seq<char>, Seq<u8>)>;

/// Whether a tag holds at most one frame per text-frame identifier and
/// at most one picture per picture type, as freshly created tags do and
/// the setters below keep it.
pub uninterp spec fn tag_tidy(t: Tag) -> bool;

/// A tag that holds no text frames and no pictures.
pub open spec fn tag_empty(t: Tag) -> bool {
    &&& tag_text_frames(t) == Map::<Seq<char>, Seq<char>>::empty()
    &&& tag_pictures(t) == Map::<int, (Seq<char>, Seq<char>, Seq<u8>)>::empty()
}

/// Relies on id3's Tag::new: a freshly created tag holds no frames.
#[verifier::external_body]
pub fn tag_new() -> (res: Tag)
    ensures
        tag_tidy(res),
        tag_empty(res),
{
    Tag::new()
}

/// Relies on id3's TagLike::set_title: stores the text as the single
/// TIT2 frame, replacing any other, and touches nothing else.
#[verifier::external_body]
fn tag_set_title(t: &mut Tag, v: &str)
    requires
        tag_tidy(*old(t)),
    ensures
        tag_tidy(*final(t)),
        tag_text_frames(*final(t)) == tag_text_frames(*old(t)).insert("TIT2"@, v@),
        tag_pictures(*final(t)) == tag_pictures(*old(t)),
{
    TagLike::set_title(t, v)
}

/// Relies on id3's TagLike::set_artist: stores the text as the single
/// TPE1 frame, replacing any other, and touches nothing else.
#[verifier::external_body]
fn tag_set_artist(t: &mut Tag, v: &str)
    requires
        tag_tidy(*old(t)),
    ensures
        tag_tidy(*final(t)),
        tag_text_frames(*final(t)) == tag_text_frames(*old(t)).insert("TPE1"@, v@),
        tag_pictures(*final(t)) == tag_pictures(*old(t)),
{
    TagLike::set_artist(t, v)
}

/// Relies on id3's TagLike::set_album: stores the text as the single
/// TALB frame, replacing any other, and touches nothing else.
#[verifier::external_body]
fn tag_set_album(t: &mut Tag, v: &str)
    requires
        tag_tidy(*old(t)),
    ensures
        tag_tidy(*final(t)),
        tag_text_frames(*final(t)) == tag_text_frames(*old(t)).insert("TALB"@, v@),
        tag_pictures(*final(t)) == tag_pictures(*old(t)),
{
    TagLike::set_album(t, v)
}

/// Relies on id3's TagLike::set_genre: stores the text as the single
/// TCON frame, replacing any other, and touches nothing else.
#[verifier::external_body]
fn tag_set_genre(t: &mut Tag, v: &str)
    requires
        tag_tidy(*old(t)),
    ensures
        tag_tidy(*final(t)),
        tag_text_frames(*final(t)) == tag_text_frames(*old(t)).insert("TCON"@, v@),
        tag_pictures(*final(t)) == tag_pictures(*old(t)),
{
    TagLike::set_genre(t, v)
}

/// Relies on id3's TagLike::add_frame with a frame::Picture: stores the
/// picture as the single one of its type (the front-cover type code is
/// 3), replacing any other, and touches no text frame.
#[verifier::external_body]
fn tag_set_front_cover(t: &mut Tag, mime: &str, description: &str, data: &Vec<u8>)
    requires
        tag_tidy(*old(t)),
    ensures
        tag_tidy(*final(t)),
        tag_text_frames(*final(t)) == tag_text_frames(*old(t)),
        tag_pictures(*final(t)) == tag_pictures(*old(t)).insert(
            3,
            (mime@, description@, data@),
        ),
{
    TagLike::add_frame(
        t,
        id3::frame::Picture {
            mime_type: mime.to_string(),
            picture_type: id3::frame::PictureType::CoverFront,
            description: description.to_string(),
            data: data.clone(),
        },
    );
}

/// Relies on id3's TagLike::title: yields the text of the TIT2 frame,
/// or nothing where the tag holds none.
#[verifier::external_body]
fn tag_title(t: &Tag) -> (r: Option<String>)
    ensures
        match r {
            Some(s) => tag_text_frames(*t).contains_key("TIT2"@) && s@ == tag_text_frames(
                *t,
            )["TIT2"@],
            None => !tag_text_frames(*t).contains_key("TIT2"@),
        },
{
    TagLike::title(t).map(|s| s.to_string())
}

/// Relies on id3's TagLike::artist: yields the text of the TPE1 frame,
/// or nothing where the tag holds none.
#[verifier::external_body]
fn tag_artist(t: &Tag) -> (r: Option<String>)
    ensures
        match r {
            Some(s) => tag_text_frames(*t).contains_key("TPE1"@) && s@ == tag_text_frames(
                *t,
            )["TPE1"@],
            None => !tag_text_frames(*t).contains_key("TPE1"@),
        },
{
    TagLike::artist(t).map(|s| s.to_string())
}

/// Relies on id3's TagLike::album: yields the text of the TALB frame,
/// or nothing where the tag holds none.
#[verifier::external_body]
fn tag_album(t: &Tag) -> (r: Option<String>)
    ensures
        match r {
            Some(s) => tag_text_frames(*t).contains_key("TALB"@) && s@ == tag_text_frames(
                *t,
            )["TALB"@],
            None => !tag_text_frames(*t).contains_key("TALB"@),
        },
{
    TagLike::album(t).map(|s| s.to_string())
}

/// Relies on id3's TagLike::genre: yields the text of the TCON frame,
/// or nothing where the tag holds none.
#[verifier::external_body]
fn tag_genre(t: &Tag) -> (r: Option<String>)
    ensures
        match r {
            Some(s) => tag_text_frames(*t).contains_key("TCON"@) && s@ == tag_text_frames(
                *t,
            )["TCON"@],
            None => !tag_text_frames(*t).contains_key("TCON"@),
        },
{
    TagLike::genre(t).map(|s| s.to_string())
}

/// The frame identifier a label's value is stored under.
pub open spec fn spec_frame_id(l: FieldLabel) -> Seq<char> {
    match l {
        FieldLabel::Title => "TIT2"@,
        FieldLabel::Artist => "TPE1"@,
        FieldLabel::Album => "TALB"@,
        FieldLabel::Genre => "TCON"@,
    }
}

/// The four frame identifiers are pairwise distinct.
pub proof fn lemma_frame_ids_distinct()
    ensures
        "TIT2"@ != "TPE1"@,
        "TIT2"@ != "TALB"@,
        "TIT2"@ != "TCON"@,
        "TPE1"@ != "TALB"@,
        "TPE1"@ != "TCON"@,
        "TALB"@ != "TCON"@,
{
    reveal_strlit("TIT2");
    reveal_strlit("TPE1");
    reveal_strlit("TALB");
    reveal_strlit("TCON");
    assert("TIT2"@[1] != "TPE1"@[1]);
    assert("TIT2"@[1] != "TALB"@[1]);
    assert("TIT2"@[1] != "TCON"@[1]);
    assert("TPE1"@[1] != "TALB"@[1]);
    assert("TPE1"@[1] != "TCON"@[1]);
    assert("TALB"@[1] != "TCON"@[1]);
}

/// Stores one field's value under its label's frame.
pub fn set_field(t: &mut Tag, f: &MetadataField)
    requires
        tag_tidy(*old(t)),
    ensures
        tag_tidy(*final(t)),
        tag_text_frames(*final(t)) == tag_text_frames(*old(t)).insert(
            spec_frame_id(f.label),
            f.value@,
        ),
        tag_pictures(*final(t)) == tag_pictures(*old(t)),
{
    match f.label {
        FieldLabel::Title => tag_set_title(t, f.value.as_str()),
        FieldLabel::Artist => tag_set_artist(t, f.value.as_str()),
        FieldLabel::Album => tag_set_album(t, f.value.as_str()),
        FieldLabel::Genre => tag_set_genre(t, f.value.as_str()),
    }
}

/// The text frames after a list of fields is stored left to right on
/// top of the given frames.
pub open spec fn spec_apply_fields(
    init: Map<Seq<char>, Seq<char>>,
    fields: Seq<MetadataField>,
) -> Map<Seq<char>, Seq<char>>
    decreases fields.len(),
{
    if fields.len() == 0 {
        init
    } else {
        spec_apply_fields(init, fields.drop_last()).insert(
            spec_frame_id(fields.last().label),
            fields.last().value@,
        )
    }
}

/// Stores a list of fields left to right; a later field wins over an
/// earlier one with the same label.
pub fn apply_fields(t: &mut Tag, fields: &Vec<MetadataField>)
    requires
        tag_tidy(*old(t)),
    ensures
        tag_tidy(*final(t)),
        tag_text_frames(*final(t)) == spec_apply_fields(tag_text_frames(*old(t)), fields@),
        tag_pictures(*final(t)) == tag_pictures(*old(t)),
{
    let mut i: usize = 0;
    while i < fields.len()
        invariant
            i <= fields@.len(),
            tag_tidy(*t),
            tag_text_frames(*t) == spec_apply_fields(
                tag_text_frames(*old(t)),
                fields@.subrange(0, i as int),
            ),
            tag_pictures(*t) == tag_pictures(*old(t)),
        decreases fields@.len() - i,
    {
        proof {
            assert(fields@.subrange(0, i + 1 as int).drop_last() =~= fields@.subrange(0, i as int));
            assert(fields@.subrange(0, i + 1 as int).last() == fields@[i as int]);
        }
        set_field(t, &fields[i]);
        i = i + 1;
    }
    proof {
        assert(fields@.subrange(0, fields@.len() as int) =~= fields@);
    }
}

/// Builds a tag from two field lists, the second stored after the first
/// so its values win.
pub fn create_base_tag(default_metadata: &Vec<MetadataField>, param_metadata: &Vec<MetadataField>)
    -> (t: Tag)
    ensures
        tag_tidy(t),
        tag_text_frames(t) == spec_apply_fields(
            spec_apply_fields(Map::empty(), default_metadata@),
            param_metadata@,
        ),
        tag_pictures(t) == Map::<int, (Seq<char>, Seq<char>, Seq<u8>)>::empty(),
{
    let mut t = tag_new();
    apply_fields(&mut t, default_metadata);
    apply_fields(&mut t, param_metadata);
    t
}

/// The text frames an assembled record is embedded as.
pub open spec fn spec_metadata_frames(m: &Metadata) -> Map<Seq<char>, Seq<char>> {
    Map::empty().insert("TIT2"@, m.title.value@).insert("TPE1"@, m.artist.value@).insert(
        "TALB"@,
        m.album_name.value@,
    ).insert("TCON"@, m.genre.value@)
}

/// Embeds an assembled record into a fresh tag: the four labels as
/// standard text frames and, where the record carries cover bytes, a
/// front-cover picture frame with the fixed JPEG MIME type.
pub fn build_tag(m: &Metadata) -> (t: Tag)
    requires
        metadata_wf(m),
    ensures
        tag_tidy(t),
        tag_text_frames(t) == spec_metadata_frames(m),
        m.album_art@.len() > 0 ==> tag_pictures(t) == Map::<int, (
            Seq<char>,
            Seq<char>,
            Seq<u8>,
        )>::empty().insert(3, ("image/jpeg"@, ""@, m.album_art@)),
        m.album_art@.len() == 0 ==> tag_pictures(t) == Map::<int, (
            Seq<char>,
            Seq<char>,
            Seq<u8>,
        )>::empty(),
{
    let mut t = tag_new();
    set_field(&mut t, &m.title);
    set_field(&mut t, &m.artist);
    set_field(&mut t, &m.album_name);
    set_field(&mut t, &m.genre);
    if m.album_art.len() > 0 {
        tag_set_front_cover(&mut t, "image/jpeg", "", &m.album_art);
    }
    proof {
        assert(tag_text_frames(t) =~= spec_metadata_frames(m));
    }
    t
}

/// What reading a label's text frame out of a tag yields.
pub open spec fn spec_read_frame(t: Tag, l: FieldLabel) -> Option<Seq<char>> {
    if tag_text_frames(t).contains_key(spec_frame_id(l)) {
        Some(tag_text_frames(t)[spec_frame_id(l)])
    } else {
        None
    }
}

/// Reads one label's value back out of a tag.
pub fn read_field(t: &Tag, l: FieldLabel) -> (r: Option<String>)
    ensures
        match r {
            Some(s) => spec_read_frame(*t, l) == Some(s@),
            None => spec_read_frame(*t, l) is None,
        },
{
    match l {
        FieldLabel::Title => tag_title(t),
        FieldLabel::Artist => tag_artist(t),
        FieldLabel::Album => tag_album(t),
        FieldLabel::Genre => tag_genre(t),
    }
}

/// Round trip: a tag holding exactly an assembled record's frames reads
/// back the record's four values unchanged, an empty album included.
pub proof fn lemma_tag_round_trip(m: &Metadata, t: Tag)
    requires
        metadata_wf(m),
        tag_text_frames(t) == spec_metadata_frames(m),
    ensures
        spec_read_frame(t, FieldLabel::Title) == Some(m.title.value@),
        spec_read_frame(t, FieldLabel::Artist) == Some(m.artist.value@),
        spec_read_frame(t, FieldLabel::Album) == Some(m.album_name.value@),
        spec_read_frame(t, FieldLabel::Genre) == Some(m.genre.value@),
{
    lemma_frame_ids_distinct();
}

} // verus!
