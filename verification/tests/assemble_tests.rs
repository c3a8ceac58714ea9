use soundcloud_dl::assemble::assemble;
use soundcloud_dl::types::FieldLabel;
use soundcloud_dl::types::MetadataField;
use soundcloud_dl::types::Transcoding;
use soundcloud_dl::types::TranscodingFormat;
use soundcloud_dl::types::Transcodings;
use soundcloud_dl::types::TrackInfo;
use soundcloud_dl::types::User;

fn descriptor() -> TrackInfo {
    TrackInfo {
        artwork_url: "https://i1.sndcdn.com/art-large.jpg".to_string(),
        genre: "Rock".to_string(),
        id: 7,
        title: "Song".to_string(),
        user: User {
            id: 9,
            username: "Band".to_string(),
        },
        media: Transcodings {
            transcodings: vec![Transcoding {
                url: "https://api-v2.soundcloud.com/media/1".to_string(),
                preset: "mp3_standard".to_string(),
                format: TranscodingFormat {
                    protocol: "progressive".to_string(),
                    mime_type: "audio/mpeg".to_string(),
                },
            }],
        },
    }
}

fn field(label: FieldLabel, value: &str) -> MetadataField {
    MetadataField {
        label,
        value: value.to_string(),
    }
}

#[test]
fn base_values_without_overrides() {
    let m = assemble(&descriptor(), &vec![], vec![1, 2, 3]);
    assert_eq!(m.title.value, "Song");
    assert_eq!(m.artist.value, "Band");
    assert_eq!(m.genre.value, "Rock");
    assert_eq!(m.album_name.value, "");
    assert_eq!(m.album_art, vec![1, 2, 3]);
    assert!(matches!(m.title.label, FieldLabel::Title));
    assert!(matches!(m.artist.label, FieldLabel::Artist));
    assert!(matches!(m.genre.label, FieldLabel::Genre));
    assert!(matches!(m.album_name.label, FieldLabel::Album));
}

#[test]
fn an_override_replaces_only_its_label() {
    let ovs = vec![field(FieldLabel::Artist, "Cover Band")];
    let m = assemble(&descriptor(), &ovs, vec![]);
    assert_eq!(m.title.value, "Song");
    assert_eq!(m.artist.value, "Cover Band");
    assert_eq!(m.genre.value, "Rock");
    assert_eq!(m.album_name.value, "");
}

#[test]
fn an_empty_override_value_is_valid() {
    let ovs = vec![field(FieldLabel::Genre, "")];
    let m = assemble(&descriptor(), &ovs, vec![]);
    assert_eq!(m.genre.value, "");
}

#[test]
fn duplicate_album_overrides_last_wins() {
    let ovs = vec![
        field(FieldLabel::Album, "First Album"),
        field(FieldLabel::Album, "Second Album"),
    ];
    let m = assemble(&descriptor(), &ovs, vec![]);
    assert_eq!(m.album_name.value, "Second Album");
}

#[test]
fn overrides_of_every_label_apply() {
    let ovs = vec![
        field(FieldLabel::Title, "T2"),
        field(FieldLabel::Artist, "A2"),
        field(FieldLabel::Album, "B2"),
        field(FieldLabel::Genre, "G2"),
    ];
    let m = assemble(&descriptor(), &ovs, vec![9]);
    assert_eq!(m.title.value, "T2");
    assert_eq!(m.artist.value, "A2");
    assert_eq!(m.album_name.value, "B2");
    assert_eq!(m.genre.value, "G2");
    assert_eq!(m.album_art, vec![9]);
}

#[test]
fn field_rendering_names_the_label() {
    assert_eq!(field(FieldLabel::Title, "Song").render(), "title: Song");
    assert_eq!(field(FieldLabel::Album, "").render(), "album");
    assert_eq!(FieldLabel::Genre.name(), "genre");
}
