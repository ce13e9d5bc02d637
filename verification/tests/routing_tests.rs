use webrtcredux::routing::{route_pad, DepayBranch};

#[test]
fn first_accepted_track_routes_to_video_branch() {
    assert_eq!(route_pad("src_0"), Ok(DepayBranch::Video));
}

#[test]
fn second_accepted_track_routes_to_audio_branch() {
    assert_eq!(route_pad("src_1"), Ok(DepayBranch::Audio));
}

#[test]
fn unexpected_pad_names_fail_loudly() {
    for bad in ["src_2", "src_", "src_01", "", "video", "SRC_0"] {
        let err = route_pad(bad).unwrap_err();
        assert_eq!(err.input, bad.to_string());
    }
}
