//! The sink bridge element: at most one video and one audio request
//! pad, each learning its encoded format from caps events, plus the
//! session configuration held until the peer connection is created.
//!
//! The embedding element wraps a value of [`WebRtcRedux`] in a mutex
//! shared between the pipeline thread and the negotiation task, and
//! calls these transition functions under the lock.

use vstd::prelude::*;

use crate::errors::FlowError;
use crate::media_type::{parse_media_type, MediaType, MediaTypeParseError};
use crate::webrtc_glue::assemble_default_api;

verus! {

/// Which request-pad slot of the sink element a pad occupies.
#[derive(Clone, Copy, Debug, PartialEq, Eq, Structural)]
pub enum PadKind {
    Video,
    Audio,
}

/// The slot of the other kind.
pub open spec fn other_kind(kind: PadKind) -> PadKind {
    match kind {
        PadKind::Video => PadKind::Audio,
        PadKind::Audio => PadKind::Video,
    }
}

/// Whether a sink pad has learned its encoded format yet.
#[derive(Clone, Copy, Debug, PartialEq, Eq, Structural)]
pub enum MediaState {
    NotConfigured,
    Configured { media_type: MediaType },
}

/// Why a caps event did not configure a pad.
#[derive(Clone, Debug, PartialEq, Eq)]
pub enum CapsEventError {
    /// The MIME string is outside the alias table.
    Parse(MediaTypeParseError),
    /// No pad of that kind has been requested.
    NoPad,
    /// The pad is already configured; its format is read-only for the
    /// pad's remaining lifetime, until the pad is released.
    AlreadyConfigured,
}

/// The session bundle: the engine's API object, immutable once built,
/// and the ICE-server configuration gathered before the peer
/// connection is created.
pub struct WebRtcState {
    pub api: webrtc::api::API,
    pub ice_servers: Vec<webrtc::ice_transport::ice_server::RTCIceServer>,
    pub peer_connected: bool,
}

/// The element's whole mutable state: one optional media state per pad
/// kind (absent means the pad was never requested, or was released),
/// and the session bundle.
pub struct State {
    pub video_state: Option<MediaState>,
    pub audio_state: Option<MediaState>,
    pub webrtc_state: Option<WebRtcState>,
}

/// The sink bridge element. The state is absent as a whole once the
/// element has stopped.
pub struct WebRtcRedux {
    pub state: Option<State>,
}

impl WebRtcRedux {
    /// Whether the element holds state (it has been constructed and
    /// not stopped).
    pub open spec fn started(self) -> bool {
        self.state is Some
    }

    /// The media-state slot of the given pad kind; absent when no such
    /// pad exists or the element is stopped.
    pub open spec fn slot(self, kind: PadKind) -> Option<MediaState> {
        match self.state {
            Some(st) => match kind {
                PadKind::Video => st.video_state,
                PadKind::Audio => st.audio_state,
            },
            None => None,
        }
    }

    /// Whether the pad of the given kind exists and has learned its
    /// format.
    pub open spec fn pad_configured(self, kind: PadKind) -> bool {
        match self.slot(kind) {
            Some(MediaState::Configured { media_type: _ }) => true,
            _ => false,
        }
    }

    /// Whether the session bundle is present.
    pub open spec fn session_present(self) -> bool {
        match self.state {
            Some(st) => st.webrtc_state is Some,
            None => false,
        }
    }

    /// The configured ICE servers, as a sequence; empty when the
    /// session bundle is absent.
    pub open spec fn ice_servers(self) -> Seq<webrtc::ice_transport::ice_server::RTCIceServer> {
        match self.state {
            Some(st) => match st.webrtc_state {
                Some(w) => w.ice_servers@,
                None => Seq::empty(),
            },
            None => Seq::empty(),
        }
    }

    /// Whether the peer connection has been created from the session
    /// configuration.
    pub open spec fn peer_connected(self) -> bool {
        match self.state {
            Some(st) => match st.webrtc_state {
                Some(w) => w.peer_connected,
                None => false,
            },
            None => false,
        }
    }

    /// The engine bundle held by the session, if any.
    pub open spec fn session_api(self) -> Option<webrtc::api::API> {
        match self.state {
            Some(st) => match st.webrtc_state {
                Some(w) => Some(w.api),
                None => None,
            },
            None => None,
        }
    }
}

/// The element with the media-state slot of `kind` replaced; the
/// stopped element is left as it is.
pub open spec fn with_slot(s: WebRtcRedux, kind: PadKind, v: Option<MediaState>) -> WebRtcRedux {
    match s.state {
        Some(st) => WebRtcRedux {
            state: Some(
                match kind {
                    PadKind::Video => State { video_state: v, ..st },
                    PadKind::Audio => State { audio_state: v, ..st },
                },
            ),
        },
        None => s,
    }
}

/// A pad request of the given kind is accepted exactly when the
/// element is started and no pad of that kind exists.
pub open spec fn request_accepts(s: WebRtcRedux, kind: PadKind) -> bool {
    s.started() && s.slot(kind) is None
}

/// What a pad request does: on acceptance the slot starts out
/// unconfigured; otherwise nothing changes and no pad is handed out.
pub open spec fn spec_request_new_pad(s: WebRtcRedux, kind: PadKind) -> (WebRtcRedux, Option<
    PadKind,
>) {
    if request_accepts(s, kind) {
        (with_slot(s, kind, Some(MediaState::NotConfigured)), Some(kind))
    } else {
        (s, None)
    }
}

/// What releasing a pad does: the slot of that kind becomes absent.
pub open spec fn spec_release_pad(s: WebRtcRedux, kind: PadKind) -> WebRtcRedux {
    with_slot(s, kind, None)
}

/// What a caps event carrying media type `m` does to the pad of the
/// given kind: the slot records the configured format.
pub open spec fn spec_configure_pad(s: WebRtcRedux, kind: PadKind, m: MediaType) -> WebRtcRedux {
    with_slot(s, kind, Some(MediaState::Configured { media_type: m }))
}

impl WebRtcRedux {
    /// Builds the engine bundle and a fresh element: no pad of either
    /// kind, no ICE servers, no peer connection.
    pub fn new() -> (e: WebRtcRedux)
        ensures
            e.started(),
            e.slot(PadKind::Video) is None,
            e.slot(PadKind::Audio) is None,
            e.session_present(),
            e.ice_servers() == Seq::<webrtc::ice_transport::ice_server::RTCIceServer>::empty(),
            !e.peer_connected(),
    {
        let api = assemble_default_api();
        let ice_servers: Vec<webrtc::ice_transport::ice_server::RTCIceServer> = Vec::new();
        WebRtcRedux {
            state: Some(
                State {
                    video_state: None,
                    audio_state: None,
                    webrtc_state: Some(WebRtcState { api, ice_servers, peer_connected: false }),
                },
            ),
        }
    }

    /// Requests the sink pad of the given kind. Refused — no pad, and
    /// the existing pad untouched — if a pad of that kind already
    /// exists or the element is stopped; otherwise the new pad starts
    /// out unconfigured.
    pub fn request_new_pad(&mut self, kind: PadKind) -> (r: Option<PadKind>)
        ensures
            (*final(self), r) == spec_request_new_pad(*old(self), kind),
            r is Some <==> request_accepts(*old(self), kind),
    {
        match &mut self.state {
            Some(st) => match kind {
                PadKind::Video => {
                    if st.video_state.is_some() {
                        None
                    } else {
                        st.video_state = Some(MediaState::NotConfigured);
                        Some(kind)
                    }
                },
                PadKind::Audio => {
                    if st.audio_state.is_some() {
                        None
                    } else {
                        st.audio_state = Some(MediaState::NotConfigured);
                        Some(kind)
                    }
                },
            },
            None => None,
        }
    }

    /// Releases the pad of the given kind: its slot returns to absent,
    /// so a pad of that kind can be requested again. Structural pad
    /// teardown stays with the embedding element.
    pub fn release_pad(&mut self, kind: PadKind)
        requires
            old(self).started(),
        ensures
            *final(self) == spec_release_pad(*old(self), kind),
    {
        match &mut self.state {
            Some(st) => match kind {
                PadKind::Video => {
                    st.video_state = None;
                },
                PadKind::Audio => {
                    st.audio_state = None;
                },
            },
            None => {},
        }
    }

    /// Handles a caps event on the pad of the given kind: parses the
    /// negotiated MIME string and records the pad's format. The format
    /// is learned exactly once, from the first caps event on a
    /// requested pad; a configured pad is read-only until its release,
    /// and a later event is refused without touching it. An
    /// unrecognized string is a configuration error, reported with the
    /// offending string and leaving the state unchanged.
    pub fn handle_caps_event(&mut self, kind: PadKind, mime: &str) -> (r: Result<
        MediaType,
        CapsEventError,
    >)
        requires
            old(self).started(),
        ensures
            match r {
                Ok(m) => parse_media_type(mime@) == Some(m) && old(self).slot(kind) == Some(
                    MediaState::NotConfigured,
                ) && *final(self) == spec_configure_pad(*old(self), kind, m),
                Err(e) => *final(self) == *old(self) && match e {
                    CapsEventError::Parse(p) => parse_media_type(mime@) is None && p.input@
                        == mime@,
                    CapsEventError::NoPad => parse_media_type(mime@) is Some && old(self).slot(
                        kind,
                    ) is None,
                    CapsEventError::AlreadyConfigured => parse_media_type(mime@) is Some && old(
                        self,
                    ).pad_configured(kind),
                },
            },
    {
        let media_type = match MediaType::from_mime_str(mime) {
            Ok(m) => m,
            Err(e) => {
                return Err(CapsEventError::Parse(e));
            },
        };
        match &mut self.state {
            Some(st) => {
                let slot = match kind {
                    PadKind::Video => &mut st.video_state,
                    PadKind::Audio => &mut st.audio_state,
                };
                match slot {
                    None => Err(CapsEventError::NoPad),
                    Some(MediaState::Configured { media_type: _ }) => Err(
                        CapsEventError::AlreadyConfigured,
                    ),
                    Some(MediaState::NotConfigured) => {
                        *slot = Some(MediaState::Configured { media_type });
                        Ok(media_type)
                    },
                }
            },
            None => Err(CapsEventError::NoPad),
        }
    }

    /// Handles one buffer arriving on the pad of the given kind.
    /// `payload` is the buffer's content if it mapped readably. The
    /// payload is handed back for forwarding to the outgoing track
    /// only once the pad's format is configured; a buffer that arrives
    /// earlier is refused with a flow error, never passed through
    /// silently.
    pub fn handle_buffer(&self, kind: PadKind, payload: Option<Vec<u8>>) -> (r: Result<
        Vec<u8>,
        FlowError,
    >)
        ensures
            match r {
                Ok(p) => payload matches Some(q) && p == q && self.pad_configured(kind),
                Err(e) => (e == FlowError::Error && payload is None) || (e
                    == FlowError::NotNegotiated && payload is Some && !self.pad_configured(kind)),
            },
    {
        let payload = match payload {
            Some(p) => p,
            None => {
                return Err(FlowError::Error);
            },
        };
        let configured = match &self.state {
            Some(st) => {
                let slot = match kind {
                    PadKind::Video => &st.video_state,
                    PadKind::Audio => &st.audio_state,
                };
                match slot {
                    Some(MediaState::Configured { media_type: _ }) => true,
                    _ => false,
                }
            },
            None => false,
        };
        if configured {
            Ok(payload)
        } else {
            Err(FlowError::NotNegotiated)
        }
    }

    /// Appends ICE servers to the session configuration. The servers
    /// are taken up only while the peer connection has not been
    /// created; a later call leaves the configuration unchanged (late
    /// additions are rejected silently — the connection is already
    /// running on the configuration it was built from).
    pub fn add_ice_servers(&mut self, ice_server: Vec<webrtc::ice_transport::ice_server::RTCIceServer>)
        requires
            old(self).started(),
            old(self).session_present(),
        ensures
            final(self).started(),
            final(self).session_present(),
            final(self).slot(PadKind::Video) == old(self).slot(PadKind::Video),
            final(self).slot(PadKind::Audio) == old(self).slot(PadKind::Audio),
            final(self).peer_connected() == old(self).peer_connected(),
            final(self).session_api() == old(self).session_api(),
            old(self).peer_connected() ==> final(self).ice_servers() == old(self).ice_servers(),
            !old(self).peer_connected() ==> final(self).ice_servers() == old(self).ice_servers()
                + ice_server@,
    {
        let mut ice_server = ice_server;
        match &mut self.state {
            Some(st) => match &mut st.webrtc_state {
                Some(w) => {
                    if !w.peer_connected {
                        w.ice_servers.append(&mut ice_server);
                    }
                },
                None => {},
            },
            None => {},
        }
    }

    /// Records that the peer connection has been created from the
    /// current configuration; from here on, added ICE servers are
    /// ignored.
    pub fn mark_peer_connection_created(&mut self)
        requires
            old(self).started(),
            old(self).session_present(),
        ensures
            final(self).started(),
            final(self).session_present(),
            final(self).peer_connected(),
            final(self).slot(PadKind::Video) == old(self).slot(PadKind::Video),
            final(self).slot(PadKind::Audio) == old(self).slot(PadKind::Audio),
            final(self).ice_servers() == old(self).ice_servers(),
            final(self).session_api() == old(self).session_api(),
    {
        match &mut self.state {
            Some(st) => match &mut st.webrtc_state {
                Some(w) => {
                    w.peer_connected = true;
                },
                None => {},
            },
            None => {},
        }
    }

    /// Lifecycle stop: the whole state — both pad slots and the
    /// session bundle — is discarded atomically, so a later start
    /// begins clean.
    pub fn stop(&mut self)
        ensures
            !final(self).started(),
    {
        self.state = None;
    }
}

/// The pad kind a request-pad template name denotes; a template that
/// is neither the video nor the audio one yields no pad.
pub fn pad_kind_from_template(name: &str) -> (r: Option<PadKind>)
    ensures
        name@ == "video"@ ==> r == Some(PadKind::Video),
        name@ == "audio"@ ==> r == Some(PadKind::Audio),
        match r {
            Some(k) => (name@ == "video"@ && k == PadKind::Video) || (name@ == "audio"@ && k
                == PadKind::Audio),
            None => name@ != "video"@ && name@ != "audio"@,
        },
{
    proof {
        reveal_strlit("video");
        reveal_strlit("audio");
        assert("video"@[0] == 'v');
        assert("audio"@[0] == 'a');
        assert("video"@ != "audio"@);
    }
    if crate::routing::str_eq(name, "video") {
        Some(PadKind::Video)
    } else if crate::routing::str_eq(name, "audio") {
        Some(PadKind::Audio)
    } else {
        None
    }
}

/// The codecs the video request-pad template accepts.
pub fn video_pad_codecs() -> (r: Vec<MediaType>)
    ensures
        r@ == seq![MediaType::H264, MediaType::VP8, MediaType::VP9],
{
    let mut v: Vec<MediaType> = Vec::new();
    v.push(MediaType::H264);
    v.push(MediaType::VP8);
    v.push(MediaType::VP9);
    proof {
        assert(v@ =~= seq![MediaType::H264, MediaType::VP8, MediaType::VP9]);
    }
    v
}

/// The codecs the audio request-pad template accepts.
pub fn audio_pad_codecs() -> (r: Vec<MediaType>)
    ensures
        r@ == seq![MediaType::Opus, MediaType::G722, MediaType::Mulaw, MediaType::Alaw],
{
    let mut v: Vec<MediaType> = Vec::new();
    v.push(MediaType::Opus);
    v.push(MediaType::G722);
    v.push(MediaType::Mulaw);
    v.push(MediaType::Alaw);
    proof {
        assert(v@ =~= seq![
            MediaType::Opus,
            MediaType::G722,
            MediaType::Mulaw,
            MediaType::Alaw,
        ]);
    }
    v
}

/// A second request of a kind whose pad exists is refused and replaces
/// nothing: the state, the existing pad's slot included, is exactly
/// what it was.
pub proof fn lemma_no_silent_replace(s: WebRtcRedux, kind: PadKind)
    requires
        s.slot(kind) is Some,
    ensures
        spec_request_new_pad(s, kind).0 == s,
        spec_request_new_pad(s, kind).1 is None,
{
}

/// A pad's media state is unconfigured the instant the pad is
/// requested, and becomes configured — with exactly the parsed type —
/// only through a caps event.
pub proof fn lemma_request_then_configure(s: WebRtcRedux, kind: PadKind, m: MediaType)
    requires
        request_accepts(s, kind),
    ensures
        spec_request_new_pad(s, kind).0.slot(kind) == Some(MediaState::NotConfigured),
        spec_configure_pad(spec_request_new_pad(s, kind).0, kind, m).slot(kind) == Some(
            MediaState::Configured { media_type: m },
        ),
{
}

/// Round trip of a pad slot: releasing the pad of a kind makes a new
/// request of that kind succeed, and the fresh pad starts out
/// unconfigured.
pub proof fn lemma_release_then_request(s: WebRtcRedux, kind: PadKind)
    requires
        s.started(),
    ensures
        spec_request_new_pad(spec_release_pad(s, kind), kind).1 == Some(kind),
        spec_request_new_pad(spec_release_pad(s, kind), kind).0.slot(kind) == Some(
            MediaState::NotConfigured,
        ),
{
}

} // verus!
