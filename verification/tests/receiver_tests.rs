use webrtcredux::errors::FlowError;
use webrtcredux::media_type::MediaType as Codec;
use webrtcredux::receiver::{
    src_pad_codecs, src_pad_h264_constraints, MediaType, Phase, StateTransition, TrackRead,
    WebRtcReduxReceiver,
};

#[test]
fn fresh_receiver_is_unbound() {
    let r = WebRtcReduxReceiver::default();
    assert_eq!(r.phase, Phase::Created);
    assert!(r.media_type.is_none());
    assert!(r.duration.is_none());
}

#[test]
fn add_info_binds_once() {
    let mut r = WebRtcReduxReceiver::default();
    r.add_info(MediaType::Video, Some(33_333_333));
    assert_eq!(r.phase, Phase::Bound);
    assert_eq!(r.media_type, Some(MediaType::Video));
    assert_eq!(r.duration, Some(33_333_333));
}

#[test]
fn second_add_info_reconfigures_without_phase_change() {
    let mut r = WebRtcReduxReceiver::default();
    r.add_info(MediaType::Video, Some(33_333_333));
    r.add_info(MediaType::Audio, None);
    assert_eq!(r.phase, Phase::Bound);
    assert_eq!(r.media_type, Some(MediaType::Audio));
    assert_eq!(r.duration, None);
}

#[test]
fn paused_to_playing_installs_periodic_clock_with_bound_duration() {
    let mut r = WebRtcReduxReceiver::default();
    r.add_info(MediaType::Audio, Some(20_000_000));
    assert_eq!(r.change_state(StateTransition::PausedToPlaying), Some(20_000_000));
    // Other transitions never install a clock.
    assert_eq!(r.change_state(StateTransition::ReadyToPaused), None);
    assert_eq!(r.change_state(StateTransition::PlayingToPaused), None);
}

#[test]
fn without_duration_no_custom_clock_is_installed() {
    let mut r = WebRtcReduxReceiver::default();
    r.add_info(MediaType::Audio, None);
    assert_eq!(r.change_state(StateTransition::PausedToPlaying), None);
}

#[test]
fn fill_before_bind_fails_loudly() {
    let mut r = WebRtcReduxReceiver::default();
    let got = r.fill(16, TrackRead::Packet(vec![1, 2, 3]));
    assert_eq!(got, Err(FlowError::Error));
    assert_eq!(r.phase, Phase::Created);
}

#[test]
fn fill_delivers_at_most_the_requested_length() {
    let mut r = WebRtcReduxReceiver::default();
    r.add_info(MediaType::Video, None);
    let got = r.fill(4, TrackRead::Packet(vec![1, 2, 3, 4, 5, 6]));
    assert_eq!(got, Ok(vec![1, 2, 3, 4]));
    assert_eq!(r.phase, Phase::Producing);
}

#[test]
fn fill_delivers_a_short_packet_whole() {
    let mut r = WebRtcReduxReceiver::default();
    r.add_info(MediaType::Video, None);
    let got = r.fill(100, TrackRead::Packet(vec![7, 8]));
    assert_eq!(got, Ok(vec![7, 8]));
}

#[test]
fn end_of_track_is_terminal() {
    let mut r = WebRtcReduxReceiver::default();
    r.add_info(MediaType::Audio, None);
    assert_eq!(r.fill(8, TrackRead::Eos), Err(FlowError::Eos));
    assert_eq!(r.phase, Phase::EndOfTrack);
    // A packet arriving after the end changes nothing.
    assert_eq!(r.fill(8, TrackRead::Packet(vec![1])), Err(FlowError::Eos));
    assert_eq!(r.phase, Phase::EndOfTrack);
}

#[test]
fn failed_read_is_terminal() {
    let mut r = WebRtcReduxReceiver::default();
    r.add_info(MediaType::Audio, None);
    assert_eq!(r.fill(8, TrackRead::Failed), Err(FlowError::Error));
    assert_eq!(r.phase, Phase::Failed);
    assert_eq!(r.fill(8, TrackRead::Packet(vec![1])), Err(FlowError::Error));
}

#[test]
fn stop_unblocks_fill_with_flushing() {
    let mut r = WebRtcReduxReceiver::default();
    r.add_info(MediaType::Video, Some(1));
    r.stop();
    assert_eq!(r.phase, Phase::Stopped);
    assert_eq!(r.fill(8, TrackRead::Packet(vec![1])), Err(FlowError::Flushing));
}

#[test]
fn source_pad_carries_all_negotiable_codecs() {
    assert_eq!(
        src_pad_codecs(),
        vec![
            Codec::Opus,
            Codec::G722,
            Codec::Mulaw,
            Codec::Alaw,
            Codec::H264,
            Codec::VP8,
            Codec::VP9,
        ]
    );
}

#[test]
fn source_pad_constrains_h264_to_byte_stream_baseline() {
    assert_eq!(
        src_pad_h264_constraints(),
        vec![("stream-format", "byte-stream"), ("profile", "baseline")]
    );
}
