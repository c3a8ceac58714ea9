use vstd::prelude::*;
use vstd::pervasive::unreached;
use vstd::string::StringExecFns;

use crate::assemble::assemble;
use crate::assemble::assembled;
use crate::filename::get_filename;
use crate::filename::spec_sanitize;
use crate::transport::classified;
use crate::transport::classify_transport_error;
use crate::transport::exchange_request_url;
use crate::transport::lemma_extract_of_resolve_url;
use crate::transport::resolve_request_url;
use crate::transport::rewrite_artwork_url;
use crate::transport::spec_exchange_url;
use crate::transport::spec_resolve_url;
use crate::transport::spec_rewrite_artwork;
use crate::types::DownloadError;
use crate::types::MetadataField;
use crate::types::SelectionError;
use crate::types::SoundcloudError;
use crate::types::Transcoding;
use crate::types::TrackInfo;

verus! {

/// The explicitly constructed configuration of one pipeline run: the
/// static client credential, the resolution endpoint, and the ordinal
/// of the transcoding the selection strategy picks.
pub struct Config {
    pub client_id: String,
    pub resolve_endpoint: String,
    pub transcoding_ordinal: usize,
}

/// The strictly linear, single-shot progress of one track's download.
/// Every non-terminal stage remembers the URL of the request in flight,
/// so a transport failure can be mapped without consulting the caller.
pub enum State {
    Idle,
    Resolving { request_url: String },
    FetchingCover { info: TrackInfo, request_url: String },
    Exchanging { info: TrackInfo, cover: Vec<u8>, request_url: String },
    FetchingAudio { info: TrackInfo, cover: Vec<u8>, request_url: String },
    Writing { metadata: crate::types::Metadata, filename: String },
    Done { metadata: crate::types::Metadata, filename: String },
    Failed { error: SoundcloudError },
}

/// What the surrounding I/O loop reports back into the pipeline: the
/// parsed payload of a successful call, or how a call failed.
pub enum Event {
    Start,
    ResolveOk { info: TrackInfo },
    CoverOk { bytes: Vec<u8> },
    ExchangeOk { media_url: String },
    AudioOk { bytes: Vec<u8> },
    TransportFailed { status: Option<u16>, message: String },
    WriteOk,
    WriteFailed { message: String },
}

/// What the pipeline asks the surrounding I/O loop to do next.
pub enum Action {
    Fetch { url: String },
    Write { filename: String, audio: Vec<u8> },
    Stop,
}

/// Which events can answer which states: each in-flight request takes
/// its own payload or a transport failure; a write takes its outcome.
pub open spec fn event_fits(s: &State, ev: &Event) -> bool {
    match (s, ev) {
        (State::Idle, Event::Start) => true,
        (State::Resolving { .. }, Event::ResolveOk { .. }) => true,
        (State::Resolving { .. }, Event::TransportFailed { .. }) => true,
        (State::FetchingCover { .. }, Event::CoverOk { .. }) => true,
        (State::FetchingCover { .. }, Event::TransportFailed { .. }) => true,
        (State::Exchanging { .. }, Event::ExchangeOk { .. }) => true,
        (State::Exchanging { .. }, Event::TransportFailed { .. }) => true,
        (State::FetchingAudio { .. }, Event::AudioOk { .. }) => true,
        (State::FetchingAudio { .. }, Event::TransportFailed { .. }) => true,
        (State::Writing { .. }, Event::WriteOk) => true,
        (State::Writing { .. }, Event::WriteFailed { .. }) => true,
        _ => false,
    }
}

/// The outcome of leaving the cover stage: the transcoding at the
/// configured ordinal is selected and its exchange requested, or the
/// pipeline fails on the selection where the resolved list is too
/// short, rather than reading out of bounds.
pub open spec fn advanced_to_exchange(
    config: Config,
    info: TrackInfo,
    cover: Seq<u8>,
    post_state: State,
    act: Action,
) -> bool {
    if (config.transcoding_ordinal as int) < info.media.transcodings@.len() {
        let ex_url = spec_exchange_url(
            info.media.transcodings@[config.transcoding_ordinal as int].url@,
            config.client_id@,
        );
        &&& post_state matches State::Exchanging { info: i2, cover: c2, request_url } && i2 == info
            && c2@ == cover && request_url@ == ex_url
        &&& act matches Action::Fetch { url } && url@ == ex_url
    } else {
        &&& post_state matches State::Failed { error } && error == SoundcloudError::Selection(
            SelectionError::OrdinalOutOfRange,
        )
        &&& act is Stop
    }
}

/// A transport failure ends the run: the status and the in-flight
/// request's URL are mapped to the domain error taxonomy.
pub open spec fn failed_transport(
    status: Option<u16>,
    request_url: Seq<char>,
    message: Seq<char>,
    post_state: State,
    act: Action,
) -> bool {
    &&& post_state matches State::Failed { error } && error matches SoundcloudError::Download(e)
        && classified(&e, status, request_url, message)
    &&& act is Stop
}

/// The full transition relation of one pipeline step: what the next
/// state and the next action are for every state and fitting event.
pub open spec fn step_ensures(pre: Pipeline, ev: Event, post: Pipeline, act: Action) -> bool {
    &&& post.config == pre.config
    &&& post.source_url == pre.source_url
    &&& post.overrides == pre.overrides
    &&& match (pre.state, ev) {
        (State::Idle, Event::Start) => {
            let r_url = spec_resolve_url(
                pre.config.resolve_endpoint@,
                pre.source_url@,
                pre.config.client_id@,
            );
            &&& post.state matches State::Resolving { request_url } && request_url@ == r_url
            &&& act matches Action::Fetch { url } && url@ == r_url
        },
        (State::Resolving { request_url }, Event::ResolveOk { info }) => {
            if info.media.transcodings@.len() == 0 {
                &&& post.state matches State::Failed { error } && error
                    matches SoundcloudError::Download(e) && e matches DownloadError::NetworkOther(
                    m,
                ) && m@ == "resolution returned no transcodings"@
                &&& act is Stop
            } else if info.artwork_url@.len() == 0 {
                advanced_to_exchange(pre.config, info, Seq::empty(), post.state, act)
            } else {
                let c_url = spec_rewrite_artwork(info.artwork_url@);
                &&& post.state matches State::FetchingCover { info: i2, request_url } && i2 == info
                    && request_url@ == c_url
                &&& act matches Action::Fetch { url } && url@ == c_url
            }
        },
        (State::FetchingCover { info, request_url }, Event::CoverOk { bytes }) => {
            advanced_to_exchange(pre.config, info, bytes@, post.state, act)
        },
        (State::Exchanging { info, cover, request_url }, Event::ExchangeOk { media_url }) => {
            &&& post.state matches State::FetchingAudio { info: i2, cover: c2, request_url: r2 }
                && i2 == info && c2 == cover && r2@ == media_url@
            &&& act matches Action::Fetch { url } && url@ == media_url@
        },
        (State::FetchingAudio { info, cover, request_url }, Event::AudioOk { bytes }) => {
            let fname = spec_sanitize(info.title@) + ".mp3"@;
            &&& post.state matches State::Writing { metadata, filename } && assembled(
                &metadata,
                info.title@,
                info.user.username@,
                info.genre@,
                pre.overrides@,
                cover@,
            ) && filename@ == fname
            &&& act matches Action::Write { filename: f2, audio } && f2@ == fname && audio@
                == bytes@
        },
        (State::Writing { metadata, filename }, Event::WriteOk) => {
            &&& post.state matches State::Done { metadata: m2, filename: f2 } && m2 == metadata
                && f2 == filename
            &&& act is Stop
        },
        (State::Writing { .. }, Event::WriteFailed { message }) => {
            &&& post.state matches State::Failed { error } && error
                matches SoundcloudError::Download(e) && e matches DownloadError::File(m) && m@
                == message@
            &&& act is Stop
        },
        (State::Resolving { request_url }, Event::TransportFailed { status, message }) => {
            failed_transport(status, request_url@, message@, post.state, act)
        },
        (State::FetchingCover { request_url, .. }, Event::TransportFailed { status, message }) => {
            failed_transport(status, request_url@, message@, post.state, act)
        },
        (State::Exchanging { request_url, .. }, Event::TransportFailed { status, message }) => {
            failed_transport(status, request_url@, message@, post.state, act)
        },
        (State::FetchingAudio { request_url, .. }, Event::TransportFailed { status, message }) => {
            failed_transport(status, request_url@, message@, post.state, act)
        },
        _ => false,
    }
}

/// The index-based selection strategy: the transcoding at the given
/// ordinal of the resolved list, or a selection error where the list
/// is too short. Selection never reads out of bounds.
pub fn select_transcoding(transcodings: &Vec<Transcoding>, ordinal: usize) -> (r: Result<
    &Transcoding,
    SelectionError,
>)
    ensures
        match r {
            Ok(t) => ordinal < transcodings@.len() && *t == transcodings@[ordinal as int],
            Err(e) => ordinal >= transcodings@.len() && e == SelectionError::OrdinalOutOfRange,
        },
{
    if ordinal < transcodings.len() {
        Ok(&transcodings[ordinal])
    } else {
        Err(SelectionError::OrdinalOutOfRange)
    }
}

fn advance_to_exchange(config: &Config, info: TrackInfo, cover: Vec<u8>) -> (r: (State, Action))
    ensures
        advanced_to_exchange(*config, info, cover@, r.0, r.1),
{
    match select_transcoding(&info.media.transcodings, config.transcoding_ordinal) {
        Ok(t) => {
            let ex = exchange_request_url(t.url.as_str(), config.client_id.as_str());
            let ex2 = ex.clone();
            (State::Exchanging { info, cover, request_url: ex }, Action::Fetch { url: ex2 })
        },
        Err(e) => (State::Failed { error: SoundcloudError::Selection(e) }, Action::Stop),
    }
}

/// One track's acquisition pipeline: the configuration, the caller's
/// source URL and overrides, and the stage reached so far.
pub struct Pipeline {
    pub config: Config,
    pub source_url: String,
    pub overrides: Vec<MetadataField>,
    pub state: State,
}

impl Pipeline {
    /// While a resolution request is in flight, the stored request URL
    /// is the one built from the endpoint, source URL and credential.
    pub open spec fn inv(&self) -> bool {
        match self.state {
            State::Resolving { request_url } => request_url@ == spec_resolve_url(
                self.config.resolve_endpoint@,
                self.source_url@,
                self.config.client_id@,
            ),
            _ => true,
        }
    }

    pub fn new(config: Config, source_url: String, overrides: Vec<MetadataField>) -> (p: Pipeline)
        ensures
            p.config == config,
            p.source_url == source_url,
            p.overrides == overrides,
            p.state is Idle,
            p.inv(),
    {
        Pipeline { config, source_url, overrides, state: State::Idle }
    }

    /// One transition: consumes the pipeline and the event, yields the
    /// advanced pipeline and the action the I/O loop performs next.
    pub fn step(self, ev: Event) -> (r: (Pipeline, Action))
        requires
            event_fits(&self.state, &ev),
        ensures
            step_ensures(self, ev, r.0, r.1),
            r.0.inv(),
    {
        let Pipeline { config, source_url, overrides, state } = self;
        match (state, ev) {
            (State::Idle, Event::Start) => {
                let url = resolve_request_url(
                    config.resolve_endpoint.as_str(),
                    source_url.as_str(),
                    config.client_id.as_str(),
                );
                let url2 = url.clone();
                (
                    Pipeline { config, source_url, overrides, state: State::Resolving { request_url: url } },
                    Action::Fetch { url: url2 },
                )
            },
            (State::Resolving { request_url: _ }, Event::ResolveOk { info }) => {
                if info.media.transcodings.len() == 0 {
                    let m = String::from_str("resolution returned no transcodings");
                    (
                        Pipeline {
                            config,
                            source_url,
                            overrides,
                            state: State::Failed {
                                error: SoundcloudError::Download(DownloadError::NetworkOther(m)),
                            },
                        },
                        Action::Stop,
                    )
                } else if info.artwork_url.as_str().is_empty() {
                    let (st, act) = advance_to_exchange(&config, info, Vec::new());
                    (Pipeline { config, source_url, overrides, state: st }, act)
                } else {
                    let url = rewrite_artwork_url(info.artwork_url.as_str());
                    let url2 = url.clone();
                    (
                        Pipeline {
                            config,
                            source_url,
                            overrides,
                            state: State::FetchingCover { info, request_url: url },
                        },
                        Action::Fetch { url: url2 },
                    )
                }
            },
            (State::FetchingCover { info, request_url: _ }, Event::CoverOk { bytes }) => {
                let (st, act) = advance_to_exchange(&config, info, bytes);
                (Pipeline { config, source_url, overrides, state: st }, act)
            },
            (State::Exchanging { info, cover, request_url: _ }, Event::ExchangeOk { media_url }) => {
                let url2 = media_url.clone();
                (
                    Pipeline {
                        config,
                        source_url,
                        overrides,
                        state: State::FetchingAudio { info, cover, request_url: media_url },
                    },
                    Action::Fetch { url: url2 },
                )
            },
            (State::FetchingAudio { info, cover, request_url: _ }, Event::AudioOk { bytes }) => {
                let filename = get_filename(&Some(info.title.clone()));
                let filename2 = filename.clone();
                let metadata = assemble(&info, &overrides, cover);
                (
                    Pipeline {
                        config,
                        source_url,
                        overrides,
                        state: State::Writing { metadata, filename },
                    },
                    Action::Write { filename: filename2, audio: bytes },
                )
            },
            (State::Writing { metadata, filename }, Event::WriteOk) => {
                (
                    Pipeline {
                        config,
                        source_url,
                        overrides,
                        state: State::Done { metadata, filename },
                    },
                    Action::Stop,
                )
            },
            (State::Writing { metadata: _, filename: _ }, Event::WriteFailed { message }) => {
                (
                    Pipeline {
                        config,
                        source_url,
                        overrides,
                        state: State::Failed {
                            error: SoundcloudError::Download(DownloadError::File(message)),
                        },
                    },
                    Action::Stop,
                )
            },
            (State::Resolving { request_url }, Event::TransportFailed { status, message }) => {
                let e = classify_transport_error(status, request_url.as_str(), message.as_str());
                (
                    Pipeline {
                        config,
                        source_url,
                        overrides,
                        state: State::Failed { error: SoundcloudError::Download(e) },
                    },
                    Action::Stop,
                )
            },
            (State::FetchingCover { info: _, request_url }, Event::TransportFailed { status, message }) => {
                let e = classify_transport_error(status, request_url.as_str(), message.as_str());
                (
                    Pipeline {
                        config,
                        source_url,
                        overrides,
                        state: State::Failed { error: SoundcloudError::Download(e) },
                    },
                    Action::Stop,
                )
            },
            (State::Exchanging { info: _, cover: _, request_url }, Event::TransportFailed { status, message }) => {
                let e = classify_transport_error(status, request_url.as_str(), message.as_str());
                (
                    Pipeline {
                        config,
                        source_url,
                        overrides,
                        state: State::Failed { error: SoundcloudError::Download(e) },
                    },
                    Action::Stop,
                )
            },
            (State::FetchingAudio { info: _, cover: _, request_url }, Event::TransportFailed { status, message }) => {
                let e = classify_transport_error(status, request_url.as_str(), message.as_str());
                (
                    Pipeline {
                        config,
                        source_url,
                        overrides,
                        state: State::Failed { error: SoundcloudError::Download(e) },
                    },
                    Action::Stop,
                )
            },
            _ => unreached(),
        }
    }
}

/// For any source URL whose resolution request comes back HTTP 404,
/// the pipeline ends failed with `NetworkNotFound` carrying exactly
/// the URL the caller passed in; the endpoint carries no query of its
/// own.
pub proof fn lemma_resolution_not_found_carries_source(
    pre: Pipeline,
    ev: Event,
    post: Pipeline,
    act: Action,
)
    requires
        step_ensures(pre, ev, post, act),
        pre.inv(),
        pre.state is Resolving,
        ev matches Event::TransportFailed { status, message } && status == Some(404u16),
        !pre.config.resolve_endpoint@.contains('?'),
    ensures
        post.state matches State::Failed { error } && error matches SoundcloudError::Download(e)
            && e matches DownloadError::NetworkNotFound(u) && u@ == pre.source_url@,
{
    lemma_extract_of_resolve_url(
        pre.config.resolve_endpoint@,
        pre.source_url@,
        pre.config.client_id@,
    );
}

/// For any source URL whose resolution request comes back HTTP 403,
/// the pipeline ends failed with `NetworkForbidden` carrying exactly
/// the URL the caller passed in, under the same condition.
pub proof fn lemma_resolution_forbidden_carries_source(
    pre: Pipeline,
    ev: Event,
    post: Pipeline,
    act: Action,
)
    requires
        step_ensures(pre, ev, post, act),
        pre.inv(),
        pre.state is Resolving,
        ev matches Event::TransportFailed { status, message } && status == Some(403u16),
        !pre.config.resolve_endpoint@.contains('?'),
    ensures
        post.state matches State::Failed { error } && error matches SoundcloudError::Download(e)
            && e matches DownloadError::NetworkForbidden(u) && u@ == pre.source_url@,
{
    lemma_extract_of_resolve_url(
        pre.config.resolve_endpoint@,
        pre.source_url@,
        pre.config.client_id@,
    );
}

/// Where the resolved list holds fewer entries than the configured
/// ordinal requires, leaving the cover stage fails deterministically on
/// the selection instead of reading out of bounds.
pub proof fn lemma_short_transcoding_list_fails(
    pre: Pipeline,
    ev: Event,
    post: Pipeline,
    act: Action,
)
    requires
        step_ensures(pre, ev, post, act),
        pre.state matches State::FetchingCover { info, request_url } && pre.config.transcoding_ordinal
            >= info.media.transcodings@.len(),
        ev is CoverOk,
    ensures
        post.state matches State::Failed { error } && error == SoundcloudError::Selection(
            SelectionError::OrdinalOutOfRange,
        ),
        act is Stop,
{
}

} // verus!
