use vstd::prelude::*;

use crate::types::FieldLabel;
use crate::types::Metadata;
use crate::types::MetadataField;
use crate::types::TrackInfo;
use crate::types::metadata_wf;

verus! {

/// The value a label ends with: the last override naming that label, or
/// the base value where none does.
pub open spec fn spec_override(base: Seq<char>, label: FieldLabel, ovs: Seq<MetadataField>) -> Seq<
    char,
>
    decreases ovs.len(),
{
    if ovs.len() == 0 {
        base
    } else if ovs.last().label == label {
        ovs.last().value@
    } else {
        spec_override(base, label, ovs.drop_last())
    }
}

/// A label that no override names keeps the descriptor's base value
/// unchanged.
pub proof fn lemma_override_absent(base: Seq<char>, label: FieldLabel, ovs: Seq<MetadataField>)
    requires
        forall|i: int| 0 <= i < ovs.len() ==> (#[trigger] ovs[i].label) != label,
    ensures
        spec_override(base, label, ovs) == base,
    decreases ovs.len(),
{
    if ovs.len() > 0 {
        lemma_override_absent(base, label, ovs.drop_last());
    }
}

/// Where several overrides name one label, the last in the supplied
/// order wins.
pub proof fn lemma_override_last_wins(
    base: Seq<char>,
    label: FieldLabel,
    ovs: Seq<MetadataField>,
    i: int,
)
    requires
        0 <= i < ovs.len(),
        ovs[i].label == label,
        forall|j: int| i < j < ovs.len() ==> (#[trigger] ovs[j].label) != label,
    ensures
        spec_override(base, label, ovs) == ovs[i].value@,
    decreases ovs.len(),
{
    if i < ovs.len() - 1 {
        lemma_override_last_wins(base, label, ovs.drop_last(), i);
    }
}

/// What it means for a record to be correctly assembled from the given
/// base values, override list and cover bytes: exactly one field per
/// label, each holding its override-resolved value.
pub open spec fn assembled(
    m: &Metadata,
    title: Seq<char>,
    artist: Seq<char>,
    genre: Seq<char>,
    ovs: Seq<MetadataField>,
    cover: Seq<u8>,
) -> bool {
    &&& metadata_wf(m)
    &&& m.title.value@ == spec_override(title, FieldLabel::Title, ovs)
    &&& m.artist.value@ == spec_override(artist, FieldLabel::Artist, ovs)
    &&& m.genre.value@ == spec_override(genre, FieldLabel::Genre, ovs)
    &&& m.album_name.value@ == spec_override(Seq::empty(), FieldLabel::Album, ovs)
    &&& m.album_art@ == cover
}

/// Composes the final metadata record from a resolved descriptor, the
/// caller's overrides and the fetched cover bytes. Base values are the
/// descriptor's title, uploader and genre; the album base is empty, the
/// upstream carrying no album concept. Later overrides win over earlier
/// ones; the cover is never overridable.
pub fn assemble(info: &TrackInfo, overrides: &Vec<MetadataField>, cover: Vec<u8>) -> (m: Metadata)
    ensures
        assembled(&m, info.title@, info.user.username@, info.genre@, overrides@, cover@),
{
    let mut title = info.title.clone();
    let mut artist = info.user.username.clone();
    let mut genre = info.genre.clone();
    let mut album = String::new();
    let mut i: usize = 0;
    while i < overrides.len()
        invariant
            i <= overrides@.len(),
            title@ == spec_override(
                info.title@,
                FieldLabel::Title,
                overrides@.subrange(0, i as int),
            ),
            artist@ == spec_override(
                info.user.username@,
                FieldLabel::Artist,
                overrides@.subrange(0, i as int),
            ),
            genre@ == spec_override(
                info.genre@,
                FieldLabel::Genre,
                overrides@.subrange(0, i as int),
            ),
            album@ == spec_override(
                Seq::empty(),
                FieldLabel::Album,
                overrides@.subrange(0, i as int),
            ),
        decreases overrides@.len() - i,
    {
        proof {
            assert(overrides@.subrange(0, i + 1 as int).drop_last() =~= overrides@.subrange(
                0,
                i as int,
            ));
            assert(overrides@.subrange(0, i + 1 as int).last() == overrides@[i as int]);
        }
        let f = &overrides[i];
        match f.label {
            FieldLabel::Title => title = f.value.clone(),
            FieldLabel::Artist => artist = f.value.clone(),
            FieldLabel::Album => album = f.value.clone(),
            FieldLabel::Genre => genre = f.value.clone(),
        }
        i = i + 1;
    }
    proof {
        assert(overrides@.subrange(0, overrides@.len() as int) =~= overrides@);
    }
    Metadata {
        title: MetadataField { label: FieldLabel::Title, value: title },
        artist: MetadataField { label: FieldLabel::Artist, value: artist },
        genre: MetadataField { label: FieldLabel::Genre, value: genre },
        album_name: MetadataField { label: FieldLabel::Album, value: album },
        album_art: cover,
    }
}

} // verus!
