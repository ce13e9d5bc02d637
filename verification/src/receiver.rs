//! The receiver bridge element: one instance per accepted remote
//! track, exposing a pull-based source pad fed by packets that arrive
//! asynchronously. The embedding element owns the remote track and the
//! runtime handle, reads packets on the asynchronous side, and hands
//! each read's outcome to [`WebRtcReduxReceiver::fill`] on the
//! pipeline thread.

use vstd::prelude::*;

use crate::errors::FlowError;

verus! {

/// Which kind of track a receiver instance exposes.
#[derive(Clone, Copy, Debug, PartialEq, Eq, Structural)]
pub enum MediaType {
    Video,
    Audio,
}

/// Lifecycle of one receiver instance. It is bound before it produces,
/// and once the track ends or fails the instance is finished for good:
/// a new incoming track gets a new instance.
#[derive(Clone, Copy, Debug, PartialEq, Eq, Structural)]
pub enum Phase {
    Created,
    Bound,
    Producing,
    EndOfTrack,
    Failed,
    Stopped,
}

/// A pipeline lifecycle transition, as handed to the element by the
/// scheduler.
#[derive(Clone, Copy, Debug, PartialEq, Eq, Structural)]
pub enum StateTransition {
    NullToReady,
    ReadyToPaused,
    PausedToPlaying,
    PlayingToPaused,
    PausedToReady,
    ReadyToNull,
}

/// The outcome of one read of the bound remote track, handed over from
/// the asynchronous reader.
#[derive(Clone, Debug, PartialEq, Eq)]
pub enum TrackRead {
    /// A packet's payload.
    Packet(Vec<u8>),
    /// The track closed normally.
    Eos,
    /// The track reader failed or the channel to it was cancelled.
    Failed,
}

/// The per-instance state: the track kind and expected packet duration
/// recorded by the one-time bind, and the production phase. Durations
/// are in nanoseconds.
pub struct WebRtcReduxReceiver {
    pub media_type: Option<MediaType>,
    pub duration: Option<u64>,
    pub phase: Phase,
}

impl WebRtcReduxReceiver {
    /// Whether a fill call may produce data in this phase.
    pub open spec fn can_produce(self) -> bool {
        self.phase == Phase::Bound || self.phase == Phase::Producing
    }
}

/// The flow signal a fill call returns in a phase that cannot produce.
pub open spec fn stalled_signal(phase: Phase) -> FlowError {
    match phase {
        Phase::Created => FlowError::Error,
        Phase::EndOfTrack => FlowError::Eos,
        Phase::Failed => FlowError::Error,
        Phase::Stopped => FlowError::Flushing,
        _ => FlowError::Error,
    }
}

/// How many of a packet's bytes a fill call delivers: all of them,
/// capped at the requested length.
pub open spec fn delivered_len(data: Seq<u8>, length: u32) -> int {
    if data.len() <= length { data.len() as int } else { length as int }
}

impl Default for WebRtcReduxReceiver {
    /// A freshly created receiver: nothing bound yet.
    fn default() -> (r: WebRtcReduxReceiver)
        ensures
            r.media_type is None,
            r.duration is None,
            r.phase == Phase::Created,
    {
        WebRtcReduxReceiver { media_type: None, duration: None, phase: Phase::Created }
    }
}

impl WebRtcReduxReceiver {
    /// Binds the receiver to an accepted remote track: records the
    /// track's kind and, if known, its expected packet duration in
    /// nanoseconds. The embedding element stores the track and runtime
    /// handles alongside this state. A repeated call replaces the
    /// recorded info — re-binding is reconfiguration, not an error —
    /// but never moves the phase backwards: only the first bind takes
    /// the instance from created to bound.
    pub fn add_info(&mut self, media_type: MediaType, duration: Option<u64>)
        ensures
            final(self).media_type == Some(media_type),
            final(self).duration == duration,
            final(self).phase == (if old(self).phase == Phase::Created {
                Phase::Bound
            } else {
                old(self).phase
            }),
    {
        self.media_type = Some(media_type);
        self.duration = duration;
        if self.phase == Phase::Created {
            self.phase = Phase::Bound;
        }
    }

    /// The clock decision at a lifecycle transition: on the move from
    /// paused to playing, and only then, a periodic clock with the
    /// bound duration as its period is installed — if a duration was
    /// bound. With no bound duration no custom clock is installed and
    /// the default system clock stays in place.
    pub fn change_state(&self, transition: StateTransition) -> (r: Option<u64>)
        ensures
            r == (if transition == StateTransition::PausedToPlaying {
                self.duration
            } else {
                None::<u64>
            }),
    {
        if transition == StateTransition::PausedToPlaying {
            self.duration
        } else {
            None
        }
    }

    /// One fill call from the pipeline thread. `read` is what the
    /// asynchronous reader handed over for this call and `length` the
    /// requested byte count. In a producing phase a packet yields its
    /// payload — capped at `length` bytes — and moves the instance to
    /// producing, while end-of-track and a failed read end production
    /// for good with the matching flow signal. Outside the producing
    /// phases nothing changes and the phase's flow signal is returned:
    /// in particular a fill before the bind fails loudly rather than
    /// producing from an unbound instance.
    pub fn fill(&mut self, length: u32, read: TrackRead) -> (r: Result<Vec<u8>, FlowError>)
        ensures
            final(self).media_type == old(self).media_type,
            final(self).duration == old(self).duration,
            !old(self).can_produce() ==> final(self).phase == old(self).phase && r == Err::<
                Vec<u8>,
                FlowError,
            >(stalled_signal(old(self).phase)),
            old(self).can_produce() ==> match read {
                TrackRead::Packet(data) => final(self).phase == Phase::Producing && (r matches Ok(p)
                    && p@ == data@.take(delivered_len(data@, length))),
                TrackRead::Eos => final(self).phase == Phase::EndOfTrack && r == Err::<
                    Vec<u8>,
                    FlowError,
                >(FlowError::Eos),
                TrackRead::Failed => final(self).phase == Phase::Failed && r == Err::<
                    Vec<u8>,
                    FlowError,
                >(FlowError::Error),
            },
    {
        match self.phase {
            Phase::Created => Err(FlowError::Error),
            Phase::EndOfTrack => Err(FlowError::Eos),
            Phase::Failed => Err(FlowError::Error),
            Phase::Stopped => Err(FlowError::Flushing),
            Phase::Bound | Phase::Producing => match read {
                TrackRead::Packet(data) => {
                    let mut data = data;
                    if data.len() > length as usize {
                        data.truncate(length as usize);
                    }
                    proof {
                        assert(data@ =~= data@.take(data@.len() as int));
                    }
                    self.phase = Phase::Producing;
                    Ok(data)
                },
                TrackRead::Eos => {
                    self.phase = Phase::EndOfTrack;
                    Err(FlowError::Eos)
                },
                TrackRead::Failed => {
                    self.phase = Phase::Failed;
                    Err(FlowError::Error)
                },
            },
        }
    }

    /// Lifecycle stop: production ends for good. Any in-flight or
    /// later fill is answered with a flushing signal, so a caller
    /// blocked on the track is unblocked rather than hung.
    pub fn stop(&mut self)
        ensures
            final(self).phase == Phase::Stopped,
            final(self).media_type == old(self).media_type,
            final(self).duration == old(self).duration,
    {
        self.phase = Phase::Stopped;
    }
}

/// The codecs the receiver's announced source pad can carry.
pub fn src_pad_codecs() -> (r: Vec<crate::media_type::MediaType>)
    ensures
        r@ == seq![
            crate::media_type::MediaType::Opus,
            crate::media_type::MediaType::G722,
            crate::media_type::MediaType::Mulaw,
            crate::media_type::MediaType::Alaw,
            crate::media_type::MediaType::H264,
            crate::media_type::MediaType::VP8,
            crate::media_type::MediaType::VP9,
        ],
{
    let mut v: Vec<crate::media_type::MediaType> = Vec::new();
    v.push(crate::media_type::MediaType::Opus);
    v.push(crate::media_type::MediaType::G722);
    v.push(crate::media_type::MediaType::Mulaw);
    v.push(crate::media_type::MediaType::Alaw);
    v.push(crate::media_type::MediaType::H264);
    v.push(crate::media_type::MediaType::VP8);
    v.push(crate::media_type::MediaType::VP9);
    proof {
        assert(v@ =~= seq![
            crate::media_type::MediaType::Opus,
            crate::media_type::MediaType::G722,
            crate::media_type::MediaType::Mulaw,
            crate::media_type::MediaType::Alaw,
            crate::media_type::MediaType::H264,
            crate::media_type::MediaType::VP8,
            crate::media_type::MediaType::VP9,
        ]);
    }
    v
}

/// The extra framing constraints the source pad's caps put on H264
/// alone: field-name/value pairs restricting it to byte-stream framing
/// with the baseline profile. The other codecs carry no extra fields.
pub fn src_pad_h264_constraints() -> (r: Vec<(&'static str, &'static str)>)
    ensures
        r@.len() == 2,
        r@[0].0@ == "stream-format"@ && r@[0].1@ == "byte-stream"@,
        r@[1].0@ == "profile"@ && r@[1].1@ == "baseline"@,
{
    let mut v: Vec<(&'static str, &'static str)> = Vec::new();
    v.push(("stream-format", "byte-stream"));
    v.push(("profile", "baseline"));
    v
}

} // verus!
