use soundcloud_dl::filename::get_filename;
use soundcloud_dl::filename::get_filepath;
use soundcloud_dl::filename::sanitize;

#[test]
fn sanitize_replaces_spaces() {
    assert_eq!(sanitize("My Great Song"), "My_Great_Song");
}

#[test]
fn sanitize_strips_denylisted_characters() {
    assert_eq!(sanitize("a/b\\c:d*e?f\"g<h>i|j"), "abcdefghij");
}

#[test]
fn sanitize_mixes_both_rules() {
    assert_eq!(sanitize("AC/DC: Back In Black?"), "ACDC_Back_In_Black");
}

#[test]
fn sanitize_empty() {
    assert_eq!(sanitize(""), "");
}

#[test]
fn sanitize_is_idempotent_on_samples() {
    let samples = [
        "My Great Song",
        "a/b\\c:d*e?f\"g<h>i|j",
        "AC/DC: Back In Black?",
        "",
        "already_clean",
        "   ",
        "*?<>|",
    ];
    for s in samples {
        let once = sanitize(s);
        let twice = sanitize(&once);
        assert_eq!(once, twice);
    }
}

#[test]
fn sanitize_output_has_no_denied_characters() {
    let out = sanitize("w * e / i | r : d ? n \" a < m > e \\");
    for bad in ['/', '\\', ':', '*', '?', '"', '<', '>', '|'] {
        assert!(!out.contains(bad));
    }
}

#[test]
fn filename_from_resolved_title() {
    assert_eq!(get_filename(&Some("My Song".to_string())), "My_Song.mp3");
}

#[test]
fn filename_fallback_without_title() {
    assert_eq!(get_filename(&None), "soundcloud.mp3");
}

#[test]
fn filepath_prefers_chosen_directory() {
    assert_eq!(
        get_filepath(&Some("/tmp/music".to_string()), &"/home/u/Music".to_string()),
        "/tmp/music"
    );
}

#[test]
fn filepath_falls_back_to_default() {
    assert_eq!(
        get_filepath(&None, &"/home/u/Music".to_string()),
        "/home/u/Music"
    );
}
