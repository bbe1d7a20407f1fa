use std::collections::VecDeque;
use touchhle_core::guest::RefOp;
use touchhle_core::movie_player::{
    attach_video_texture, drain_notifications, frame_for_picture, handle_packet, init_with_content_url, load_tracks, begin_play, PlayStep,
    next_notification, play, select_video_track, set_movie_control_mode, stop, wants_packet,
    DecodeOutcome, MPMoviePlayerControllerHostObject, Notification, PacketOutcome, PlayerAction,
    State, TrackInfo, MPMovieLoadStatePlayableAndPlaythroughOK, MPMovieLoadStateUnknown,
    MPMoviePlaybackStatePlaying, MPMoviePlaybackStateStopped,
};
use touchhle_core::yuv::yuv_to_rgb;

const PLAYER: u32 = 0x5000;
const URL: u32 = 0x6000;

fn tracks() -> Vec<TrackInfo> {
    vec![
        TrackInfo { id: 1, is_h264: false, width: None, height: None },
        TrackInfo { id: 2, is_h264: true, width: Some(4), height: Some(2) },
        TrackInfo { id: 3, is_h264: true, width: Some(8), height: Some(8) },
    ]
}

fn drain(state: &mut State) -> Vec<(Notification, u32)> {
    let mut out = Vec::new();
    while let Some(n) = next_notification(state) {
        out.push(n);
    }
    out
}

#[test]
fn notification_names() {
    assert_eq!(Notification::PlaybackDidFinish.name(), "MPMoviePlayerPlaybackDidFinishNotification");
    assert_eq!(
        Notification::ContentPreloadDidFinish.name(),
        "MPMoviePlayerContentPreloadDidFinishNotification"
    );
    assert_eq!(
        Notification::PlaybackStateDidChange.name(),
        "MPMoviePlayerPlaybackStateDidChangeNotification"
    );
    assert_eq!(Notification::LoadStateDidChange.name(), "MPMoviePlayerLoadStateDidChangeNotification");
    assert_eq!(
        Notification::ScalingModeDidChange.name(),
        "MPMoviePlayerScalingModeDidChangeNotification"
    );
}

#[test]
fn first_h264_track_is_selected() {
    assert_eq!(select_video_track(&tracks()), Some(1));
    assert_eq!(select_video_track(&vec![tracks()[0]]), None);
    assert_eq!(select_video_track(&vec![]), None);
}

#[test]
fn loading_h264_content_makes_player_ready() {
    let mut state = State::default();
    let mut host = MPMoviePlayerControllerHostObject::new();
    load_tracks(&mut state, PLAYER, &mut host, Some(tracks()));
    assert_eq!(host.video_track_id, Some(2));
    assert_eq!(host.frame_dimensions, Some((4, 2)));
    // The decoder library is built in, so a decoder is always created here.
    assert!(host.decoder.is_some());
    assert_eq!(host.load_state, MPMovieLoadStatePlayableAndPlaythroughOK);
    assert_eq!(
        drain(&mut state),
        vec![
            (Notification::ContentPreloadDidFinish, PLAYER),
            (Notification::LoadStateDidChange, PLAYER)
        ]
    );
}

#[test]
fn unreadable_content_leaves_player_unloaded() {
    let mut state = State::default();
    let mut host = MPMoviePlayerControllerHostObject::new();
    let (ops, demuxer) = init_with_content_url(&mut state, PLAYER, &mut host, URL, None);
    assert_eq!(ops, vec![RefOp::Retain(URL)]);
    assert!(demuxer.is_none());
    assert_eq!(host.content_url, URL);
    assert_eq!(host.load_state, MPMovieLoadStateUnknown);
    assert!(host.decoder.is_none());
    assert!(drain(&mut state).is_empty());
    let mut host2 = MPMoviePlayerControllerHostObject::new();
    load_tracks(&mut state, PLAYER, &mut host2, Some(vec![tracks()[0]]));
    assert_eq!(host2.video_track_id, None);
    assert!(drain(&mut state).is_empty());
}

#[test]
fn play_then_stop() {
    let mut state = State::default();
    let mut host = MPMoviePlayerControllerHostObject::new();
    load_tracks(&mut state, PLAYER, &mut host, Some(tracks()));
    drain(&mut state);
    let e = play(&mut state, PLAYER, &mut host);
    assert_eq!(e.ops, vec![RefOp::Retain(PLAYER)]);
    assert_eq!(e.create_texture, Some((4, 2)));
    attach_video_texture(&mut host, 77);
    assert_eq!(state.active_player, Some(PLAYER));
    assert_eq!(host.playback_state, MPMoviePlaybackStatePlaying);
    assert!(wants_packet(&host, true));
    assert!(!wants_packet(&host, false));
    let e = stop(&mut state, PLAYER, &mut host);
    assert_eq!(e.delete_texture, Some(77));
    assert_eq!(e.ops, vec![RefOp::Release(PLAYER)]);
    assert_eq!(state.active_player, None);
    assert_eq!(host.video_texture, None);
    assert_eq!(host.playback_state, MPMoviePlaybackStateStopped);
    assert_eq!(
        drain(&mut state),
        vec![
            (Notification::PlaybackStateDidChange, PLAYER),
            (Notification::PlaybackStateDidChange, PLAYER)
        ]
    );
    // Playing again needs a new texture.
    assert_eq!(play(&mut state, PLAYER, &mut host).create_texture, Some((4, 2)));
}

#[test]
fn end_of_stream_finishes_then_stops() {
    let mut state = State::default();
    let mut host = MPMoviePlayerControllerHostObject::new();
    load_tracks(&mut state, PLAYER, &mut host, Some(tracks()));
    play(&mut state, PLAYER, &mut host);
    attach_video_texture(&mut host, 9);
    drain(&mut state);
    match handle_packet(&mut state, PLAYER, &mut host, PacketOutcome::EndOfStream) {
        PlayerAction::Finished(e) => {
            assert_eq!(e.delete_texture, Some(9));
            assert_eq!(e.ops, vec![RefOp::Release(PLAYER)]);
        }
        _ => panic!("expected the player to finish"),
    }
    assert_eq!(state.active_player, None);
    assert_eq!(host.playback_state, MPMoviePlaybackStateStopped);
    assert_eq!(
        drain(&mut state),
        vec![
            (Notification::PlaybackDidFinish, PLAYER),
            (Notification::PlaybackStateDidChange, PLAYER)
        ]
    );
}

#[test]
fn packets_of_other_tracks_and_read_errors_change_nothing() {
    let mut state = State::default();
    let mut host = MPMoviePlayerControllerHostObject::new();
    load_tracks(&mut state, PLAYER, &mut host, Some(tracks()));
    play(&mut state, PLAYER, &mut host);
    attach_video_texture(&mut host, 9);
    drain(&mut state);
    let a = handle_packet(
        &mut state,
        PLAYER,
        &mut host,
        PacketOutcome::Packet { track_id: 1, data: vec![1, 2, 3] },
    );
    assert!(matches!(a, PlayerAction::Nothing));
    let a = handle_packet(&mut state, PLAYER, &mut host, PacketOutcome::ReadError);
    assert!(matches!(a, PlayerAction::ReadError));
    assert_eq!(host.playback_state, MPMoviePlaybackStatePlaying);
    assert!(drain(&mut state).is_empty());
}

#[test]
fn garbage_video_packet_gives_no_frame() {
    let mut state = State::default();
    let mut host = MPMoviePlayerControllerHostObject::new();
    load_tracks(&mut state, PLAYER, &mut host, Some(tracks()));
    play(&mut state, PLAYER, &mut host);
    attach_video_texture(&mut host, 9);
    let a = handle_packet(
        &mut state,
        PLAYER,
        &mut host,
        PacketOutcome::Packet { track_id: 2, data: vec![0, 0, 0, 1, 0x65, 0xff, 0x00] },
    );
    assert!(!matches!(a, PlayerAction::UploadFrame { .. }));
    assert!(host.decoder.is_some());
    assert_eq!(state.active_player, Some(PLAYER));
}

#[test]
fn decoded_picture_becomes_rgb_frame() {
    let y = vec![16u8, 50, 100, 200, 235, 128, 0, 255];
    let u = vec![90u8, 160];
    let v = vec![240u8, 30];
    let a = frame_for_picture(
        DecodeOutcome::Picture { y: y.clone(), u: u.clone(), v: v.clone() },
        5,
        4,
        2,
    );
    let mut expected = vec![0u8; 24];
    yuv_to_rgb(&y, &u, &v, 4, 2, &mut expected);
    match a {
        PlayerAction::UploadFrame { texture, width, height, rgb } => {
            assert_eq!((texture, width, height), (5, 4, 2));
            assert_eq!(rgb, expected);
        }
        _ => panic!("expected a frame"),
    }
}

#[test]
fn short_planes_give_bad_frame() {
    let a = frame_for_picture(
        DecodeOutcome::Picture { y: vec![0; 7], u: vec![0; 2], v: vec![0; 2] },
        5,
        4,
        2,
    );
    assert!(matches!(a, PlayerAction::BadFrame));
    let a = frame_for_picture(
        DecodeOutcome::Picture { y: vec![0; 8], u: vec![0; 1], v: vec![0; 2] },
        5,
        4,
        2,
    );
    assert!(matches!(a, PlayerAction::BadFrame));
    let a = frame_for_picture(
        DecodeOutcome::Picture { y: vec![], u: vec![], v: vec![] },
        5,
        0x10000,
        0x10000,
    );
    assert!(matches!(a, PlayerAction::BadFrame));
    assert!(matches!(frame_for_picture(DecodeOutcome::NoPicture, 5, 4, 2), PlayerAction::Nothing));
    assert!(matches!(frame_for_picture(DecodeOutcome::Error, 5, 4, 2), PlayerAction::DecodeError));
}

#[test]
fn spore_gets_the_finished_notification_again() {
    let mut state = State { active_player: None, pending_notifications: VecDeque::new() };
    set_movie_control_mode(&mut state, PLAYER, b"com.ea.spore.origins");
    assert_eq!(drain(&mut state), vec![(Notification::PlaybackDidFinish, PLAYER)]);
    set_movie_control_mode(&mut state, PLAYER, b"com.ea.spor");
    set_movie_control_mode(&mut state, PLAYER, b"com.example.app");
    assert!(drain(&mut state).is_empty());
}

#[test]
fn run_loop_pass_posts_queued_notifications_first() {
    let mut state = State::default();
    let mut host = MPMoviePlayerControllerHostObject::new();
    load_tracks(&mut state, PLAYER, &mut host, Some(tracks()));
    play(&mut state, PLAYER, &mut host);
    attach_video_texture(&mut host, 7);
    set_movie_control_mode(&mut state, PLAYER, b"com.ea.spore.origins");
    let queued: Vec<(Notification, u32)> = state.pending_notifications.iter().copied().collect();
    assert!(wants_packet(&host, true));
    handle_packet(&mut state, PLAYER, &mut host, PacketOutcome::EndOfStream);
    let posted = drain_notifications(&mut state);
    assert_eq!(&posted[..queued.len()], &queued[..]);
    assert_eq!(
        &posted[queued.len()..],
        &[(Notification::PlaybackDidFinish, PLAYER), (Notification::PlaybackStateDidChange, PLAYER)]
    );
    assert!(state.pending_notifications.is_empty());
    assert_eq!(state.active_player, None);
}

/// A WAV file holding two 16-bit mono samples.
fn tiny_wav() -> Vec<u8> {
    let mut b = Vec::new();
    b.extend_from_slice(b"RIFF");
    b.extend_from_slice(&40u32.to_le_bytes());
    b.extend_from_slice(b"WAVEfmt ");
    b.extend_from_slice(&16u32.to_le_bytes());
    b.extend_from_slice(&1u16.to_le_bytes()); // PCM
    b.extend_from_slice(&1u16.to_le_bytes()); // mono
    b.extend_from_slice(&8000u32.to_le_bytes());
    b.extend_from_slice(&16000u32.to_le_bytes());
    b.extend_from_slice(&2u16.to_le_bytes());
    b.extend_from_slice(&16u16.to_le_bytes());
    b.extend_from_slice(b"data");
    b.extend_from_slice(&4u32.to_le_bytes());
    b.extend_from_slice(&[0, 0, 1, 0]);
    b
}

#[test]
fn probing_a_movie_file() {
    let mut state = State::default();
    let mut host = MPMoviePlayerControllerHostObject::new();
    let (ops, demuxer) = init_with_content_url(&mut state, PLAYER, &mut host, URL, Some(tiny_wav()));
    assert_eq!(ops, vec![RefOp::Retain(URL)]);
    assert!(demuxer.is_some());
    // An audio-only file has no video track.
    assert_eq!(host.video_track_id, None);
    assert!(host.decoder.is_none());
    assert!(drain(&mut state).is_empty());

    let mut host2 = MPMoviePlayerControllerHostObject::new();
    let (_, demuxer) =
        init_with_content_url(&mut state, PLAYER, &mut host2, URL, Some(b"not a movie".to_vec()));
    assert!(demuxer.is_none());
    assert_eq!(host2.content_url, URL);
}

#[test]
fn play_stops_the_active_player_first() {
    let mut state = State::default();
    assert_eq!(begin_play(&state), PlayStep::Play);
    let mut host = MPMoviePlayerControllerHostObject::new();
    play(&mut state, PLAYER, &mut host);
    assert_eq!(begin_play(&state), PlayStep::StopFirst(PLAYER));
}
