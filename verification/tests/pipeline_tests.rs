use soundcloud_dl::pipeline::Action;
use soundcloud_dl::pipeline::Config;
use soundcloud_dl::pipeline::Event;
use soundcloud_dl::pipeline::Pipeline;
use soundcloud_dl::pipeline::State;
use soundcloud_dl::pipeline::select_transcoding;
use soundcloud_dl::types::DownloadError;
use soundcloud_dl::types::FieldLabel;
use soundcloud_dl::types::MetadataField;
use soundcloud_dl::types::SelectionError;
use soundcloud_dl::types::SoundcloudError;
use soundcloud_dl::types::Transcoding;
use soundcloud_dl::types::TranscodingFormat;
use soundcloud_dl::types::Transcodings;
use soundcloud_dl::types::TrackInfo;
use soundcloud_dl::types::User;

fn config() -> Config {
    Config {
        client_id: "CID".to_string(),
        resolve_endpoint: "https://api-v2.soundcloud.com/resolve".to_string(),
        transcoding_ordinal: 1,
    }
}

fn transcoding(url: &str) -> Transcoding {
    Transcoding {
        url: url.to_string(),
        preset: "mp3_standard".to_string(),
        format: TranscodingFormat {
            protocol: "progressive".to_string(),
            mime_type: "audio/mpeg".to_string(),
        },
    }
}

fn resolved(artwork_url: &str, transcoding_urls: &[&str]) -> TrackInfo {
    TrackInfo {
        artwork_url: artwork_url.to_string(),
        genre: "Rock".to_string(),
        id: 1,
        title: "Song".to_string(),
        user: User {
            id: 2,
            username: "Band".to_string(),
        },
        media: Transcodings {
            transcodings: transcoding_urls.iter().map(|u| transcoding(u)).collect(),
        },
    }
}

fn fetch_url(act: &Action) -> String {
    match act {
        Action::Fetch { url } => url.clone(),
        _ => panic!("expected a fetch action"),
    }
}

#[test]
fn full_run_writes_the_sanitized_title() {
    let p = Pipeline::new(
        config(),
        "https://example.com/artist/track".to_string(),
        vec![],
    );
    let (p, act) = p.step(Event::Start);
    assert_eq!(
        fetch_url(&act),
        "https://api-v2.soundcloud.com/resolve?url=https://example.com/artist/track&client_id=CID"
    );
    let (p, act) = p.step(Event::ResolveOk {
        info: resolved("", &["x", "y"]),
    });
    assert_eq!(fetch_url(&act), "y?client_id=CID");
    let (p, act) = p.step(Event::ExchangeOk {
        media_url: "https://cdn.example.net/direct.mp3".to_string(),
    });
    assert_eq!(fetch_url(&act), "https://cdn.example.net/direct.mp3");
    let (p, act) = p.step(Event::AudioOk {
        bytes: vec![1, 2, 3],
    });
    match &act {
        Action::Write { filename, audio } => {
            assert_eq!(filename, "Song.mp3");
            assert_eq!(audio, &vec![1, 2, 3]);
        }
        _ => panic!("expected a write action"),
    }
    match &p.state {
        State::Writing { metadata, filename } => {
            assert_eq!(filename, "Song.mp3");
            assert_eq!(metadata.title.value, "Song");
            assert_eq!(metadata.artist.value, "Band");
            assert_eq!(metadata.genre.value, "Rock");
            assert_eq!(metadata.album_name.value, "");
            assert!(metadata.album_art.is_empty());
        }
        _ => panic!("expected the writing stage"),
    }
    let (p, act) = p.step(Event::WriteOk);
    assert!(matches!(act, Action::Stop));
    assert!(matches!(p.state, State::Done { .. }));
}

#[test]
fn cover_bytes_flow_into_the_record() {
    let p = Pipeline::new(config(), "https://example.com/a/t".to_string(), vec![]);
    let (p, _) = p.step(Event::Start);
    let (p, act) = p.step(Event::ResolveOk {
        info: resolved("https://i1.sndcdn.com/art-large.jpg", &["x", "y"]),
    });
    assert_eq!(fetch_url(&act), "https://i1.sndcdn.com/art-t500x500.jpg");
    let (p, act) = p.step(Event::CoverOk {
        bytes: vec![9, 9, 9],
    });
    assert_eq!(fetch_url(&act), "y?client_id=CID");
    let (p, _) = p.step(Event::ExchangeOk {
        media_url: "https://cdn.example.net/direct.mp3".to_string(),
    });
    let (p, _) = p.step(Event::AudioOk { bytes: vec![5] });
    match &p.state {
        State::Writing { metadata, .. } => assert_eq!(metadata.album_art, vec![9, 9, 9]),
        _ => panic!("expected the writing stage"),
    }
}

#[test]
fn overrides_reach_the_record_and_the_filename_does_not_change() {
    let ovs = vec![
        MetadataField {
            label: FieldLabel::Title,
            value: "Other Title".to_string(),
        },
        MetadataField {
            label: FieldLabel::Album,
            value: "An Album".to_string(),
        },
    ];
    let p = Pipeline::new(config(), "https://example.com/a/t".to_string(), ovs);
    let (p, _) = p.step(Event::Start);
    let (p, _) = p.step(Event::ResolveOk {
        info: resolved("", &["x", "y"]),
    });
    let (p, _) = p.step(Event::ExchangeOk {
        media_url: "https://cdn.example.net/d.mp3".to_string(),
    });
    let (p, _) = p.step(Event::AudioOk { bytes: vec![] });
    match &p.state {
        State::Writing { metadata, filename } => {
            assert_eq!(metadata.title.value, "Other Title");
            assert_eq!(metadata.album_name.value, "An Album");
            assert_eq!(filename, "Song.mp3");
        }
        _ => panic!("expected the writing stage"),
    }
}

#[test]
fn resolution_not_found_carries_the_source_url() {
    let source = "https://example.com/artist/track";
    let p = Pipeline::new(config(), source.to_string(), vec![]);
    let (p, _) = p.step(Event::Start);
    let (p, act) = p.step(Event::TransportFailed {
        status: Some(404),
        message: "HTTP 404".to_string(),
    });
    assert!(matches!(act, Action::Stop));
    match &p.state {
        State::Failed {
            error: SoundcloudError::Download(DownloadError::NetworkNotFound(u)),
        } => assert_eq!(u, source),
        _ => panic!("expected NetworkNotFound"),
    }
}

#[test]
fn resolution_not_found_carries_a_separator_laden_source_url() {
    let source = "https://soundcloud.com/a/b?x=1&y=2";
    let p = Pipeline::new(config(), source.to_string(), vec![]);
    let (p, _) = p.step(Event::Start);
    let (p, _) = p.step(Event::TransportFailed {
        status: Some(404),
        message: "HTTP 404".to_string(),
    });
    match &p.state {
        State::Failed {
            error: SoundcloudError::Download(DownloadError::NetworkNotFound(u)),
        } => assert_eq!(u, source),
        _ => panic!("expected NetworkNotFound"),
    }
}

#[test]
fn resolution_forbidden_carries_the_source_url() {
    let source = "https://example.com/artist/track";
    let p = Pipeline::new(config(), source.to_string(), vec![]);
    let (p, _) = p.step(Event::Start);
    let (p, _) = p.step(Event::TransportFailed {
        status: Some(403),
        message: "HTTP 403".to_string(),
    });
    match &p.state {
        State::Failed {
            error: SoundcloudError::Download(DownloadError::NetworkForbidden(u)),
        } => assert_eq!(u, source),
        _ => panic!("expected NetworkForbidden"),
    }
}

#[test]
fn other_transport_failures_keep_their_message() {
    let p = Pipeline::new(config(), "https://example.com/a/t".to_string(), vec![]);
    let (p, _) = p.step(Event::Start);
    let (p, _) = p.step(Event::TransportFailed {
        status: None,
        message: "connection refused".to_string(),
    });
    match &p.state {
        State::Failed {
            error: SoundcloudError::Download(DownloadError::NetworkOther(m)),
        } => assert_eq!(m, "connection refused"),
        _ => panic!("expected NetworkOther"),
    }
}

#[test]
fn empty_transcoding_list_fails_resolution() {
    let p = Pipeline::new(config(), "https://example.com/a/t".to_string(), vec![]);
    let (p, _) = p.step(Event::Start);
    let (p, act) = p.step(Event::ResolveOk {
        info: resolved("", &[]),
    });
    assert!(matches!(act, Action::Stop));
    match &p.state {
        State::Failed {
            error: SoundcloudError::Download(DownloadError::NetworkOther(m)),
        } => assert_eq!(m, "resolution returned no transcodings"),
        _ => panic!("expected NetworkOther"),
    }
}

#[test]
fn short_transcoding_list_fails_on_selection() {
    let p = Pipeline::new(config(), "https://example.com/a/t".to_string(), vec![]);
    let (p, _) = p.step(Event::Start);
    let (p, act) = p.step(Event::ResolveOk {
        info: resolved("", &["only-one"]),
    });
    assert!(matches!(act, Action::Stop));
    assert!(matches!(
        p.state,
        State::Failed {
            error: SoundcloudError::Selection(SelectionError::OrdinalOutOfRange),
        }
    ));
}

#[test]
fn write_failure_becomes_a_file_error() {
    let p = Pipeline::new(config(), "https://example.com/a/t".to_string(), vec![]);
    let (p, _) = p.step(Event::Start);
    let (p, _) = p.step(Event::ResolveOk {
        info: resolved("", &["x", "y"]),
    });
    let (p, _) = p.step(Event::ExchangeOk {
        media_url: "https://cdn.example.net/d.mp3".to_string(),
    });
    let (p, _) = p.step(Event::AudioOk { bytes: vec![] });
    let (p, act) = p.step(Event::WriteFailed {
        message: "disk full".to_string(),
    });
    assert!(matches!(act, Action::Stop));
    match &p.state {
        State::Failed {
            error: SoundcloudError::Download(DownloadError::File(m)),
        } => assert_eq!(m, "disk full"),
        _ => panic!("expected a file error"),
    }
}

#[test]
fn selection_strategy_guards_the_ordinal() {
    let list = vec![transcoding("a"), transcoding("b")];
    match select_transcoding(&list, 1) {
        Ok(t) => assert_eq!(t.url, "b"),
        Err(_) => panic!("expected the second transcoding"),
    }
    assert!(matches!(
        select_transcoding(&list, 2),
        Err(SelectionError::OrdinalOutOfRange)
    ));
    let empty: Vec<Transcoding> = vec![];
    assert!(matches!(
        select_transcoding(&empty, 0),
        Err(SelectionError::OrdinalOutOfRange)
    ));
}

#[test]
fn selection_error_message_renders() {
    let e = SoundcloudError::Selection(SelectionError::OrdinalOutOfRange);
    assert_eq!(e.message(), "no transcoding at the configured ordinal");
}
