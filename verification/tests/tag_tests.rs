use id3::TagLike;

use soundcloud_dl::tag::build_tag;
use soundcloud_dl::tag::create_base_tag;
use soundcloud_dl::tag::read_field;
use soundcloud_dl::types::FieldLabel;
use soundcloud_dl::types::Metadata;
use soundcloud_dl::types::MetadataField;

fn field(label: FieldLabel, value: &str) -> MetadataField {
    MetadataField {
        label,
        value: value.to_string(),
    }
}

fn record(title: &str, artist: &str, album: &str, genre: &str, cover: Vec<u8>) -> Metadata {
    Metadata {
        title: field(FieldLabel::Title, title),
        artist: field(FieldLabel::Artist, artist),
        genre: field(FieldLabel::Genre, genre),
        album_name: field(FieldLabel::Album, album),
        album_art: cover,
    }
}

#[test]
fn built_tag_holds_the_four_fields() {
    let tag = build_tag(&record("T", "A", "", "G", vec![]));
    assert_eq!(tag.title(), Some("T"));
    assert_eq!(tag.artist(), Some("A"));
    assert_eq!(tag.album(), Some(""));
    assert_eq!(tag.genre(), Some("G"));
}

#[test]
fn built_tag_reads_back_through_the_library() {
    let tag = build_tag(&record("T", "A", "", "G", vec![]));
    assert_eq!(read_field(&tag, FieldLabel::Title), Some("T".to_string()));
    assert_eq!(read_field(&tag, FieldLabel::Artist), Some("A".to_string()));
    assert_eq!(read_field(&tag, FieldLabel::Album), Some("".to_string()));
    assert_eq!(read_field(&tag, FieldLabel::Genre), Some("G".to_string()));
}

#[test]
fn round_trip_through_encoded_bytes() {
    let tag = build_tag(&record("T", "A", "", "G", vec![]));
    let mut buf = std::io::Cursor::new(Vec::new());
    tag.write_to(&mut buf, id3::Version::Id3v24).expect("encode");
    buf.set_position(0);
    let back = id3::Tag::read_from2(buf).expect("decode");
    assert_eq!(back.title(), Some("T"));
    assert_eq!(back.artist(), Some("A"));
    assert_eq!(back.album().unwrap_or(""), "");
    assert_eq!(back.genre(), Some("G"));
}

#[test]
fn cover_bytes_become_a_front_cover_jpeg_frame() {
    let tag = build_tag(&record("T", "A", "B", "G", vec![0xFF, 0xD8, 0xFF]));
    let pics: Vec<&id3::frame::Picture> = tag.pictures().collect();
    assert_eq!(pics.len(), 1);
    assert_eq!(pics[0].mime_type, "image/jpeg");
    assert!(matches!(
        pics[0].picture_type,
        id3::frame::PictureType::CoverFront
    ));
    assert_eq!(pics[0].data, vec![0xFF, 0xD8, 0xFF]);
}

#[test]
fn empty_cover_adds_no_picture_frame() {
    let tag = build_tag(&record("T", "A", "B", "G", vec![]));
    assert_eq!(tag.pictures().count(), 0);
}

#[test]
fn base_tag_lets_the_second_list_win() {
    let defaults = vec![
        field(FieldLabel::Title, "Default Title"),
        field(FieldLabel::Artist, "Default Artist"),
    ];
    let params = vec![field(FieldLabel::Title, "Param Title")];
    let tag = create_base_tag(&defaults, &params);
    assert_eq!(tag.title(), Some("Param Title"));
    assert_eq!(tag.artist(), Some("Default Artist"));
    assert_eq!(tag.album(), None);
}

#[test]
fn later_fields_of_one_list_win() {
    let defaults = vec![
        field(FieldLabel::Genre, "Rock"),
        field(FieldLabel::Genre, "Jazz"),
    ];
    let tag = create_base_tag(&defaults, &vec![]);
    assert_eq!(tag.genre(), Some("Jazz"));
}
