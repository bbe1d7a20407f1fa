//! `MPMoviePlayerController`: the player's state machine (load, play, stop,
//! end of stream), the queue of notifications posted on the next run-loop
//! pass, and turning decoded H.264 pictures into RGB frames.
//!
//! Reading the movie file, demuxing packets, the GL texture and posting the
//! notifications are the runtime's work; it hands the outcomes to the
//! functions here and performs the actions they return.
#![allow(non_snake_case)]
#![allow(non_upper_case_globals)]

use vstd::prelude::*;
use std::collections::VecDeque;
use openh264::decoder::Decoder;
use openh264::formats::YUVSource;
use std::io::Cursor;
use crate::guest::{Id, NSInteger, RefOp};
use crate::yuv::{yuv_to_rgb, spec_rgb, chroma_len_needed};

verus! {

#[verifier::external_type_specification]
#[verifier::external_body]
pub struct ExDecoder(Decoder);

#[verifier::external_type_specification]
#[verifier::external_body]
pub struct ExProbeResult(symphonia::core::probe::ProbeResult);

pub type MPMoviePlaybackState = NSInteger;
pub type MPMovieLoadState = NSInteger;

// MPMoviePlaybackState values
pub const MPMoviePlaybackStateStopped: MPMoviePlaybackState = 0;
pub const MPMoviePlaybackStatePlaying: MPMoviePlaybackState = 1;
pub const MPMoviePlaybackStatePaused: MPMoviePlaybackState = 2;
pub const MPMoviePlaybackStateInterrupted: MPMoviePlaybackState = 3;
pub const MPMoviePlaybackStateSeekingForward: MPMoviePlaybackState = 4;
pub const MPMoviePlaybackStateSeekingBackward: MPMoviePlaybackState = 5;

// MPMovieLoadState values
pub const MPMovieLoadStateUnknown: MPMovieLoadState = 0;
pub const MPMovieLoadStatePlayable: MPMovieLoadState = 1;
pub const MPMovieLoadStatePlaythroughOK: MPMovieLoadState = 2;
pub const MPMovieLoadStateStalled: MPMovieLoadState = 4;

/// `MPMovieLoadStatePlayable | MPMovieLoadStatePlaythroughOK`.
pub const MPMovieLoadStatePlayableAndPlaythroughOK: MPMovieLoadState = 3;

/// The notifications a movie player posts.
#[derive(Clone, Copy, Debug, PartialEq, Eq, Structural)]
pub enum Notification {
    PlaybackDidFinish,
    /// Apparently an undocumented, private API. Spore Origins uses it.
    ContentPreloadDidFinish,
    ScalingModeDidChange,
    PlaybackStateDidChange,
    LoadStateDidChange,
}

impl Notification {
    /// The `NSNotificationName` of the notification.
    pub fn name(&self) -> (s: &'static str)
        ensures
            *self == Notification::PlaybackDidFinish ==> s@
                == "MPMoviePlayerPlaybackDidFinishNotification"@,
            *self == Notification::ContentPreloadDidFinish ==> s@
                == "MPMoviePlayerContentPreloadDidFinishNotification"@,
            *self == Notification::ScalingModeDidChange ==> s@
                == "MPMoviePlayerScalingModeDidChangeNotification"@,
            *self == Notification::PlaybackStateDidChange ==> s@
                == "MPMoviePlayerPlaybackStateDidChangeNotification"@,
            *self == Notification::LoadStateDidChange ==> s@
                == "MPMoviePlayerLoadStateDidChangeNotification"@,
    {
        match self {
            Notification::PlaybackDidFinish => "MPMoviePlayerPlaybackDidFinishNotification",
            Notification::ContentPreloadDidFinish => "MPMoviePlayerContentPreloadDidFinishNotification",
            Notification::ScalingModeDidChange => "MPMoviePlayerScalingModeDidChangeNotification",
            Notification::PlaybackStateDidChange => "MPMoviePlayerPlaybackStateDidChangeNotification",
            Notification::LoadStateDidChange => "MPMoviePlayerLoadStateDidChangeNotification",
        }
    }
}

/// The media player framework's movie state.
pub struct State {
    /// The player that is playing, retained by the runtime until stopped.
    pub active_player: Option<Id>,
    /// Various apps (e.g. Crash Bandicoot Nitro Kart 3D and Spore Origins)
    /// create or start a player and await some kind of notification, but
    /// can't handle it if that notification happens immediately. This queue
    /// lets us delay such notifications until the app next returns to the run
    /// loop, which seems to be late enough.
    pub pending_notifications: VecDeque<(Notification, Id)>,
}

/// The movie state as plain values.
pub struct Session {
    pub active_player: Option<Id>,
    pub pending: Seq<(Notification, Id)>,
}

impl State {
    pub open spec fn session(&self) -> Session {
        Session { active_player: self.active_player, pending: self.pending_notifications@ }
    }
}

impl Default for State {
    fn default() -> (s: Self)
        ensures
            s.active_player is None,
            s.pending_notifications@ == Seq::<(Notification, Id)>::empty(),
    {
        State { active_player: None, pending_notifications: VecDeque::new() }
    }
}

/// What the runtime knows of a track of the movie file.
#[derive(Clone, Copy, Debug, PartialEq, Eq, Structural)]
pub struct TrackInfo {
    pub id: u32,
    /// Whether the track is coded with H.264.
    pub is_h264: bool,
    pub width: Option<u32>,
    pub height: Option<u32>,
}

/// A player's H.264 decoder together with the bitstream it has been fed.
/// Only this module creates one, from a new decoder that has been fed
/// nothing.
pub struct H264Decoder {
    decoder: Decoder,
    /// Every packet handed to the decoder so far, in order.
    fed: Ghost<Seq<Seq<u8>>>,
}

impl View for H264Decoder {
    type V = Seq<Seq<u8>>;

    /// The packets the decoder has been fed, in order.
    closed spec fn view(&self) -> Seq<Seq<u8>> {
        self.fed@
    }
}

/// A probed movie file: symphonia's demuxer for it.
pub struct MovieDemuxer {
    pub probed: symphonia::core::probe::ProbeResult,
}

/// A movie player object.
pub struct MPMoviePlayerControllerHostObject {
    /// `NSURL*`
    pub content_url: Id,
    pub playback_state: MPMoviePlaybackState,
    pub load_state: MPMovieLoadState,
    pub video_track_id: Option<u32>,
    pub decoder: Option<H264Decoder>,
    pub video_texture: Option<u32>,
    pub frame_dimensions: Option<(u32, u32)>,
    /// How many times a decoder was created for the player, successfully
    /// or not.
    pub decoders_requested: Ghost<nat>,
}

impl MPMoviePlayerControllerHostObject {
    /// A freshly allocated player: no content, stopped, load state unknown.
    pub fn new() -> (h: Self)
        ensures
            h.content_url == 0,
            h.playback_state == MPMoviePlaybackStateStopped,
            h.load_state == MPMovieLoadStateUnknown,
            h.video_track_id is None,
            h.decoder is None,
            h.video_texture is None,
            h.frame_dimensions is None,
            h.decoders_requested@ == 0,
    {
        MPMoviePlayerControllerHostObject {
            content_url: 0,
            playback_state: MPMoviePlaybackStateStopped,
            load_state: MPMovieLoadStateUnknown,
            video_track_id: None,
            decoder: None,
            video_texture: None,
            frame_dimensions: None,
            decoders_requested: Ghost(0),
        }
    }
}

/// Whether track `i` is the first H.264 track of `tracks`.
pub open spec fn is_first_h264(tracks: Seq<TrackInfo>, i: int) -> bool {
    &&& 0 <= i < tracks.len()
    &&& tracks[i].is_h264
    &&& forall|j: int| 0 <= j < i ==> !(#[trigger] tracks[j]).is_h264
}

/// The index of the first H.264 track, if there is one.
pub fn select_video_track(tracks: &Vec<TrackInfo>) -> (r: Option<usize>)
    ensures
        match r {
            Some(i) => is_first_h264(tracks@, i as int),
            None => forall|j: int| 0 <= j < tracks@.len() ==> !(#[trigger] tracks@[j]).is_h264,
        },
{
    let mut i: usize = 0;
    while i < tracks.len()
        invariant
            i <= tracks@.len(),
            forall|j: int| 0 <= j < i ==> !(#[trigger] tracks@[j]).is_h264,
        decreases tracks@.len() - i,
    {
        if tracks[i].is_h264 {
            return Some(i);
        }
        i = i + 1;
    }
    None
}

/// The first H.264 track of `tracks`, if it has one.
pub open spec fn first_h264(tracks: Seq<TrackInfo>) -> Option<TrackInfo> {
    if exists|k: int| is_first_h264(tracks, k) {
        Some(tracks[choose|k: int| is_first_h264(tracks, k)])
    } else {
        None
    }
}

/// The first H.264 track of the probed file, if the file was probed and has
/// one.
pub open spec fn spec_video_track(tracks: Option<Vec<TrackInfo>>) -> Option<TrackInfo> {
    match tracks {
        Some(t) => first_h264(t@),
        None => None,
    }
}

/// Creates an H.264 decoder for the player (`openh264::decoder::Decoder::new`);
/// None if the library reports an error. The player's count of decoder
/// requests goes up by one; nothing else of it changes.
#[verifier::external_body]
fn create_decoder(host: &mut MPMoviePlayerControllerHostObject) -> (r: Option<Decoder>)
    ensures
        final(host).decoders_requested@ == old(host).decoders_requested@ + 1,
        final(host).content_url == old(host).content_url,
        final(host).playback_state == old(host).playback_state,
        final(host).load_state == old(host).load_state,
        final(host).video_track_id == old(host).video_track_id,
        final(host).decoder == old(host).decoder,
        final(host).video_texture == old(host).video_texture,
        final(host).frame_dimensions == old(host).frame_dimensions,
{
    Decoder::new().ok()
}

/// The player (`h0` in movie state `s0`) after it took `video` as its video
/// track (None: the file has none), as `h1` in movie state `s1`. With a
/// video track it keeps the track's id and frame size and tries to create a
/// decoder; a new decoder has been fed nothing.
pub open spec fn loaded(
    s0: Session,
    h0: MPMoviePlayerControllerHostObject,
    s1: Session,
    h1: MPMoviePlayerControllerHostObject,
    this: Id,
    video: Option<TrackInfo>,
) -> bool {
    &&& h1.playback_state == h0.playback_state
    &&& h1.video_texture == h0.video_texture
    &&& match video {
        Some(track) => {
            &&& h1.decoders_requested@ == h0.decoders_requested@ + 1
            &&& h1.video_track_id == Some(track.id)
            &&& h1.frame_dimensions == (match (track.width, track.height) {
                (Some(w), Some(h)) => Some((w, h)),
                _ => h0.frame_dimensions,
            })
            &&& ((h1.decoder matches Some(d) && d@ == Seq::<Seq<u8>>::empty() && h1.load_state
                == MPMovieLoadStatePlayableAndPlaythroughOK && s1 == loaded_session(s0, this)) || (
            h1.decoder == h0.decoder && h1.load_state == h0.load_state && s1 == s0))
        },
        None => {
            &&& h1.decoders_requested@ == h0.decoders_requested@
            &&& h1.video_track_id == h0.video_track_id
            &&& h1.frame_dimensions == h0.frame_dimensions
            &&& h1.decoder == h0.decoder
            &&& h1.load_state == h0.load_state
            &&& s1 == s0
        },
    }
}

/// The player takes the first H.264 track of `tracks` (None: no track list)
/// as its video track; see `loaded`.
pub fn load_tracks(
    state: &mut State,
    this: Id,
    host: &mut MPMoviePlayerControllerHostObject,
    tracks: Option<Vec<TrackInfo>>,
)
    ensures
        final(host).content_url == old(host).content_url,
        loaded(
            old(state).session(),
            *old(host),
            final(state).session(),
            *final(host),
            this,
            spec_video_track(tracks),
        ),
{
    if let Some(tracks) = tracks {
        if let Some(i) = select_video_track(&tracks) {
            proof {
                assert(is_first_h264(tracks@, i as int));
                let c = choose|k: int| is_first_h264(tracks@, k);
                assert(is_first_h264(tracks@, c));
                if c < i {
                    assert(!tracks@[c].is_h264);
                } else if c > i {
                    assert(!tracks@[i as int].is_h264);
                }
                assert(c == i);
            }
            let track = tracks[i];
            host.video_track_id = Some(track.id);
            if let (Some(width), Some(height)) = (track.width, track.height) {
                host.frame_dimensions = Some((width, height));
            }
            let decoder = create_decoder(host);
            on_decoder_created(state, this, host, decoder);
        }
    }
}

/// Loading tracks whose first H.264 track is `tracks[i]` takes that track
/// and always asks the decoder library for a decoder, whatever frame size
/// the track reports. Then either the player holds a new decoder, is
/// playable and has "preload finished" and "load state changed" queued, or
/// (the library gave no decoder) its decoder, load state and the
/// notifications are as they were.
pub proof fn lemma_h264_track_requests_decoder(
    s0: Session,
    h0: MPMoviePlayerControllerHostObject,
    s1: Session,
    h1: MPMoviePlayerControllerHostObject,
    this: Id,
    tracks: Seq<TrackInfo>,
    i: int,
)
    requires
        is_first_h264(tracks, i),
        loaded(s0, h0, s1, h1, this, first_h264(tracks)),
    ensures
        h1.video_track_id == Some(tracks[i].id),
        h1.decoders_requested@ == h0.decoders_requested@ + 1,
        (h1.decoder matches Some(d) && d@ == Seq::<Seq<u8>>::empty() && h1.load_state
            == MPMovieLoadStatePlayableAndPlaythroughOK && s1.pending == s0.pending + seq![
            (Notification::ContentPreloadDidFinish, this),
            (Notification::LoadStateDidChange, this),
        ]) || (h1.decoder == h0.decoder && h1.load_state == h0.load_state && s1 == s0),
{
    let c = choose|k: int| is_first_h264(tracks, k);
    assert(is_first_h264(tracks, c));
    if c < i {
        assert(!tracks[c].is_h264);
    } else if c > i {
        assert(!tracks[i].is_h264);
    }
    assert(c == i);
    assert(s0.pending.push((Notification::ContentPreloadDidFinish, this)).push(
        (Notification::LoadStateDidChange, this),
    ) =~= s0.pending + seq![
        (Notification::ContentPreloadDidFinish, this),
        (Notification::LoadStateDidChange, this),
    ]);
}

/// What symphonia's probe finds in a movie file's bytes: the ids of its
/// tracks, or None if it recognizes no container format.
pub uninterp spec fn spec_probed_track_ids(bytes: Seq<u8>) -> Option<Seq<u32>>;

/// Probes `bytes` (`symphonia::default::get_probe().format`, gapless
/// playback on, no format hint) and lists the ids of the tracks found.
#[verifier::external_body]
fn probe_movie(bytes: Vec<u8>) -> (r: Option<(symphonia::core::probe::ProbeResult, Vec<u32>)>)
    ensures
        match r {
            Some((_, ids)) => spec_probed_track_ids(bytes@) == Some(ids@),
            None => spec_probed_track_ids(bytes@) is None,
        },
{
    let mss = symphonia::core::io::MediaSourceStream::new(Box::new(Cursor::new(bytes)), Default::default());
    let format_opts = symphonia::core::formats::FormatOptions { enable_gapless: true, ..Default::default() };
    let probed = symphonia::default::get_probe()
        .format(&symphonia::core::probe::Hint::new(), mss, &format_opts, &symphonia::core::meta::MetadataOptions::default())
        .ok()?;
    let ids = probed.format.tracks().iter().map(|t| t.id).collect();
    Some((probed, ids))
}

/// What the player knows of a probed track. Symphonia describes the codecs
/// of audio tracks only: it gives a video track no codec and no frame size,
/// so no probed track is known to be H.264.
pub open spec fn probed_track(id: u32) -> TrackInfo {
    TrackInfo { id, is_h264: false, width: None, height: None }
}

pub open spec fn probed_tracks(ids: Seq<u32>) -> Seq<TrackInfo> {
    ids.map_values(|id: u32| probed_track(id))
}

fn track_infos(ids: &Vec<u32>) -> (t: Vec<TrackInfo>)
    ensures
        t@ == probed_tracks(ids@),
{
    let mut t: Vec<TrackInfo> = Vec::new();
    let mut i: usize = 0;
    while i < ids.len()
        invariant
            i <= ids@.len(),
            t@ == probed_tracks(ids@.subrange(0, i as int)),
        decreases ids@.len() - i,
    {
        t.push(TrackInfo { id: ids[i], is_h264: false, width: None, height: None });
        proof {
            assert(probed_tracks(ids@.subrange(0, i + 1)) =~= probed_tracks(
                ids@.subrange(0, i as int),
            ).push(probed_track(ids@[i as int])));
        }
        i = i + 1;
    }
    proof {
        assert(ids@.subrange(0, ids@.len() as int) =~= ids@);
    }
    t
}

/// The video track `initWithContentURL:` finds in a movie file's bytes
/// (None: the file could not be read, or probed, or has no H.264 track).
pub open spec fn spec_movie_video_track(movie: Option<Seq<u8>>) -> Option<TrackInfo> {
    match movie {
        Some(b) => match spec_probed_track_ids(b) {
            Some(ids) => first_h264(probed_tracks(ids)),
            None => None,
        },
        None => None,
    }
}

/// `initWithContentURL:` given the bytes of the movie file (None if the URL
/// has no path or the file could not be read). The player keeps the URL
/// (retained); the bytes are probed, and the first H.264 track of the file
/// becomes the video track (see `loaded`). The demuxer is returned for the
/// runtime to read packets from.
pub fn init_with_content_url(
    state: &mut State,
    this: Id,
    host: &mut MPMoviePlayerControllerHostObject,
    url: Id,
    movie: Option<Vec<u8>>,
) -> (r: (Vec<RefOp>, Option<MovieDemuxer>))
    ensures
        r.0@ == seq![RefOp::Retain(url)],
        (r.1 is Some) == (movie matches Some(b) && spec_probed_track_ids(b@) is Some),
        final(host).content_url == url,
        loaded(
            old(state).session(),
            *old(host),
            final(state).session(),
            *final(host),
            this,
            spec_movie_video_track(match movie {
                Some(b) => Some(b@),
                None => None,
            }),
        ),
{
    let ops: Vec<RefOp> = vec![RefOp::Retain(url)];
    host.content_url = url;
    let mut demuxer: Option<MovieDemuxer> = None;
    let mut tracks: Option<Vec<TrackInfo>> = None;
    if let Some(bytes) = movie {
        if let Some((probed, ids)) = probe_movie(bytes) {
            tracks = Some(track_infos(&ids));
            demuxer = Some(MovieDemuxer { probed });
        }
    }
    load_tracks(state, this, host, tracks);
    (ops, demuxer)
}

/// No probed track is an H.264 track, so a probed movie gives the player no
/// video track.
pub proof fn lemma_probed_movie_has_no_video_track(movie: Option<Seq<u8>>)
    ensures
        spec_movie_video_track(movie) is None,
{
    if let Some(b) = movie {
        if let Some(ids) = spec_probed_track_ids(b) {
            let t = probed_tracks(ids);
            if exists|k: int| is_first_h264(t, k) {
                let k = choose|k: int| is_first_h264(t, k);
                assert(t[k] == probed_track(ids[k]));
            }
        }
    }
}

/// The movie state once a player's content is loaded: "preload finished"
/// and "load state changed" are queued for it.
pub open spec fn loaded_session(s: Session, this: Id) -> Session {
    Session {
        active_player: s.active_player,
        pending: s.pending.push((Notification::ContentPreloadDidFinish, this)).push(
            (Notification::LoadStateDidChange, this),
        ),
    }
}

/// Takes the decoder created for the player's H.264 track (None: creating
/// it failed). With a decoder the player acts as if loading immediately
/// completed (Spore Origins waits for this).
fn on_decoder_created(
    state: &mut State,
    this: Id,
    host: &mut MPMoviePlayerControllerHostObject,
    decoder: Option<Decoder>,
)
    ensures
        decoder is Some ==> (final(host).decoder matches Some(d) && d@ == Seq::<Seq<u8>>::empty())
            && final(host).load_state
            == MPMovieLoadStatePlayableAndPlaythroughOK && final(state).session() == loaded_session(
            old(state).session(),
            this,
        ),
        decoder is None ==> final(host).decoder == old(host).decoder && final(host).load_state
            == old(host).load_state && final(state).session() == old(state).session(),
        final(host).content_url == old(host).content_url,
        final(host).playback_state == old(host).playback_state,
        final(host).video_track_id == old(host).video_track_id,
        final(host).video_texture == old(host).video_texture,
        final(host).frame_dimensions == old(host).frame_dimensions,
        final(host).decoders_requested == old(host).decoders_requested,
{
    if let Some(decoder) = decoder {
        host.decoder = Some(H264Decoder { decoder, fed: Ghost(Seq::empty()) });
        host.load_state = MPMovieLoadStatePlayableAndPlaythroughOK;
        state.pending_notifications.push_back((Notification::ContentPreloadDidFinish, this));
        state.pending_notifications.push_back((Notification::LoadStateDidChange, this));
    }
}

/// The bytes of `com.ea.spore`, the bundle identifier prefix of Spore
/// Origins.
pub open spec fn spore_prefix() -> Seq<u8> {
    seq![99u8, 111, 109, 46, 101, 97, 46, 115, 112, 111, 114, 101]
}

/// Whether a bundle identifier starts with `com.ea.spore`.
pub open spec fn is_spore(bundle_identifier: Seq<u8>) -> bool {
    bundle_identifier.len() >= 12 && bundle_identifier.subrange(0, 12) == spore_prefix()
}

/// `setMovieControlMode:` (an undocumented, private API). Spore Origins
/// subscribes to the playback finished notification 0.2s after starting
/// playback, so it misses the notification we send. When it subscribes, it
/// also calls this method, so this is an opportunity to send the
/// notification again. Other apps see no effect.
pub fn set_movie_control_mode(state: &mut State, this: Id, bundle_identifier: &[u8])
    ensures
        final(state).active_player == old(state).active_player,
        is_spore(bundle_identifier@) ==> final(state).pending_notifications@ == old(
            state,
        ).pending_notifications@.push((Notification::PlaybackDidFinish, this)),
        !is_spore(bundle_identifier@) ==> final(state).pending_notifications@ == old(
            state,
        ).pending_notifications@,
{
    let prefix: [u8; 12] = [99, 111, 109, 46, 101, 97, 46, 115, 112, 111, 114, 101];
    assert(prefix@ =~= spore_prefix());
    if bundle_identifier.len() < 12 {
        return;
    }
    let mut i: usize = 0;
    while i < 12
        invariant
            i <= 12,
            bundle_identifier@.len() >= 12,
            prefix@ == spore_prefix(),
            forall|j: int| 0 <= j < i ==> bundle_identifier@[j] == spore_prefix()[j],
        decreases 12 - i,
    {
        if bundle_identifier[i] != prefix[i] {
            assert(bundle_identifier@.subrange(0, 12)[i as int] != spore_prefix()[i as int]);
            return;
        }
        i = i + 1;
    }
    assert(bundle_identifier@.subrange(0, 12) =~= spore_prefix());
    state.pending_notifications.push_back((Notification::PlaybackDidFinish, this));
}

/// The movie state after `play` of `this` started.
pub open spec fn played_session(s: Session, this: Id) -> Session {
    Session {
        active_player: Some(this),
        pending: s.pending.push((Notification::PlaybackStateDidChange, this)),
    }
}

/// What `play` asks of the runtime besides the state change.
pub struct PlayEffects {
    /// The runtime retains the player until it is stopped.
    pub ops: Vec<RefOp>,
    /// The size of the video texture to create, if the player needs one.
    pub create_texture: Option<(u32, u32)>,
}

/// `play` once any previously active player is stopped: `this` becomes the
/// active player (retained), starts playing, and a video texture of the
/// frame size is to be created if it has none yet.
pub fn play(state: &mut State, this: Id, host: &mut MPMoviePlayerControllerHostObject) -> (e:
    PlayEffects)
    requires
        old(state).active_player is None,
    ensures
        final(state).session() == played_session(old(state).session(), this),
        e.ops@ == seq![RefOp::Retain(this)],
        e.create_texture == (if old(host).video_texture is None {
            old(host).frame_dimensions
        } else {
            None
        }),
        final(host).playback_state == MPMoviePlaybackStatePlaying,
        final(host).content_url == old(host).content_url,
        final(host).load_state == old(host).load_state,
        final(host).video_track_id == old(host).video_track_id,
        final(host).decoder == old(host).decoder,
        final(host).video_texture == old(host).video_texture,
        final(host).frame_dimensions == old(host).frame_dimensions,
{
    // Movie player is retained by the runtime until it is stopped
    let ops: Vec<RefOp> = vec![RefOp::Retain(this)];
    state.active_player = Some(this);
    let create_texture = if host.video_texture.is_none() {
        host.frame_dimensions
    } else {
        None
    };
    // Update playback state
    host.playback_state = MPMoviePlaybackStatePlaying;
    state.pending_notifications.push_back((Notification::PlaybackStateDidChange, this));
    PlayEffects { ops, create_texture }
}

/// What `play` asks of the runtime first.
#[derive(Clone, Copy, Debug, PartialEq, Eq, Structural)]
pub enum PlayStep {
    /// Stop this player (`stop`), which is active, then play.
    StopFirst(Id),
    /// Play (`play`): no player is active.
    Play,
}

/// `play`: the player that is active, if any (`this` included), is stopped
/// before `this` starts playing.
pub fn begin_play(state: &State) -> (step: PlayStep)
    ensures
        state.active_player matches Some(p) ==> step == PlayStep::StopFirst(p),
        state.active_player is None ==> step == PlayStep::Play,
{
    match state.active_player {
        Some(p) => PlayStep::StopFirst(p),
        None => PlayStep::Play,
    }
}

/// Records the video texture the runtime created for the player.
pub fn attach_video_texture(host: &mut MPMoviePlayerControllerHostObject, texture: u32)
    ensures
        final(host).video_texture == Some(texture),
        final(host).content_url == old(host).content_url,
        final(host).playback_state == old(host).playback_state,
        final(host).load_state == old(host).load_state,
        final(host).video_track_id == old(host).video_track_id,
        final(host).decoder == old(host).decoder,
        final(host).frame_dimensions == old(host).frame_dimensions,
{
    host.video_texture = Some(texture);
}

/// The movie state after `stop` of the active player `this`.
pub open spec fn stopped_session(s: Session, this: Id) -> Session {
    Session {
        active_player: None,
        pending: s.pending.push((Notification::PlaybackStateDidChange, this)),
    }
}

/// What `stop` asks of the runtime besides the state change.
pub struct StopEffects {
    /// The video texture to delete.
    pub delete_texture: Option<u32>,
    /// The runtime's reference to the player is released.
    pub ops: Vec<RefOp>,
}

/// `stop` of the active player `this`: it stops, drops its video texture
/// and is released by the runtime.
pub fn stop(state: &mut State, this: Id, host: &mut MPMoviePlayerControllerHostObject) -> (e:
    StopEffects)
    requires
        old(state).active_player == Some(this),
    ensures
        final(state).session() == stopped_session(old(state).session(), this),
        e.delete_texture == old(host).video_texture,
        e.ops@ == seq![RefOp::Release(this)],
        final(host).video_texture is None,
        final(host).playback_state == MPMoviePlaybackStateStopped,
        final(host).content_url == old(host).content_url,
        final(host).load_state == old(host).load_state,
        final(host).video_track_id == old(host).video_track_id,
        final(host).decoder == old(host).decoder,
        final(host).frame_dimensions == old(host).frame_dimensions,
{
    state.active_player = None;
    let delete_texture = host.video_texture.take();
    // Update playback state
    host.playback_state = MPMoviePlaybackStateStopped;
    state.pending_notifications.push_back((Notification::PlaybackStateDidChange, this));
    StopEffects { delete_texture, ops: vec![RefOp::Release(this)] }
}

/// Whether the active player reads its next packet on this run-loop pass:
/// it is playing and has a reader (`has_reader`), a video track, a decoder,
/// a texture and a frame size.
pub open spec fn spec_wants_packet(host: &MPMoviePlayerControllerHostObject, has_reader: bool) -> bool {
    &&& host.playback_state == MPMoviePlaybackStatePlaying
    &&& has_reader
    &&& host.video_track_id is Some
    &&& host.decoder is Some
    &&& host.video_texture is Some
    &&& host.frame_dimensions is Some
}

pub fn wants_packet(host: &MPMoviePlayerControllerHostObject, has_reader: bool) -> (r: bool)
    ensures
        r == spec_wants_packet(host, has_reader),
{
    host.playback_state == MPMoviePlaybackStatePlaying && has_reader && host.video_track_id.is_some()
        && host.decoder.is_some() && host.video_texture.is_some() && host.frame_dimensions.is_some()
}

/// What reading the next packet of the movie gave.
pub enum PacketOutcome {
    Packet { track_id: u32, data: Vec<u8> },
    /// The reader reported an I/O error: the end of the stream.
    EndOfStream,
    /// Any other read error.
    ReadError,
}

/// What decoding a packet gave.
pub enum DecodeOutcome {
    /// A picture's Y, U and V planes.
    Picture { y: Vec<u8>, u: Vec<u8>, v: Vec<u8> },
    /// The decoder needs more data.
    NoPicture,
    /// The bitstream was corrupted.
    Error,
}

/// A decoding result as plain values: None for an error, `Some(None)` when
/// the decoder needs more data, else the picture's Y, U and V planes.
pub type DecodedPicture = Option<Option<(Seq<u8>, Seq<u8>, Seq<u8>)>>;

impl View for DecodeOutcome {
    type V = DecodedPicture;

    open spec fn view(&self) -> DecodedPicture {
        match self {
            DecodeOutcome::Picture { y, u, v } => Some(Some((y@, u@, v@))),
            DecodeOutcome::NoPicture => Some(None),
            DecodeOutcome::Error => None,
        }
    }
}

/// What a new openh264 decoder (default configuration) answers to the last
/// packet of `fed` after it has been fed all of `fed`, in order. H.264
/// decoding is specified bit-exactly, so this depends on the packets alone.
pub uninterp spec fn h264_decode(fed: Seq<Seq<u8>>) -> DecodedPicture;

/// Decodes `packet` with the player's decoder
/// (`openh264::decoder::Decoder::decode`), copying the planes of a returned
/// picture. The packet joins the bitstream the decoder has been fed, and
/// the answer is the decoder's answer to that whole bitstream.
#[verifier::external_body]
fn decode_picture(decoder: &mut H264Decoder, packet: &[u8]) -> (r: DecodeOutcome)
    ensures
        final(decoder)@ == old(decoder)@.push(packet@),
        r@ == h264_decode(old(decoder)@.push(packet@)),
{
    match decoder.decoder.decode(packet) {
        Ok(Some(picture)) => DecodeOutcome::Picture {
            y: picture.y().to_vec(),
            u: picture.u().to_vec(),
            v: picture.v().to_vec(),
        },
        Ok(None) => DecodeOutcome::NoPicture,
        Err(_) => DecodeOutcome::Error,
    }
}

/// What the runtime does after the active player handled a packet outcome.
pub enum PlayerAction {
    Nothing,
    /// Upload `rgb` (packed RGB, `width` x `height`) into the texture.
    UploadFrame { texture: u32, width: u32, height: u32, rgb: Vec<u8> },
    /// Log an H.264 decoding error.
    DecodeError,
    /// Log a decoded picture whose planes do not fit the frame size.
    BadFrame,
    /// Log a packet read error.
    ReadError,
    /// The movie ended and the player was stopped.
    Finished(StopEffects),
}

/// Whether planes decoded for a `width` x `height` frame are large enough.
pub open spec fn planes_fit(y: Seq<u8>, u: Seq<u8>, v: Seq<u8>, width: int, height: int) -> bool {
    &&& width * height * 3 <= u32::MAX
    &&& y.len() >= width * height
    &&& u.len() >= chroma_len_needed(width, height)
    &&& v.len() >= chroma_len_needed(width, height)
}

/// Whether `a` is the action for the decoded `picture` of a `width` x
/// `height` video track shown in `texture`.
pub open spec fn is_frame_for_picture(picture: DecodedPicture, texture: u32, width: u32, height: u32, a: PlayerAction) -> bool {
    match picture {
        Some(Some((y, u, v))) => if planes_fit(y, u, v, width as int, height as int) {
            a matches PlayerAction::UploadFrame { texture: t, width: w, height: h, rgb } && t
                == texture && w == width && h == height && rgb@ == spec_rgb(
                y,
                u,
                v,
                width as int,
                height as int,
            )
        } else {
            a is BadFrame
        },
        Some(None) => a is Nothing,
        None => a is DecodeError,
    }
}

/// The action for a decoded picture of the video track: its RGB frame for
/// the texture, or why there is none.
pub fn frame_for_picture(picture: DecodeOutcome, texture: u32, width: u32, height: u32) -> (a:
    PlayerAction)
    ensures
        is_frame_for_picture(picture@, texture, width, height, a),
{
    match picture {
        DecodeOutcome::Picture { y, u, v } => {
            let w = width as u64;
            let h = height as u64;
            proof {
                assert(w * h <= 0xffff_ffff_ffff_ffff) by (nonlinear_arith)
                    requires
                        w <= 0xffff_ffff,
                        h <= 0xffff_ffff,
                ;
            }
            if w * h > 0xffff_ffff / 3 {
                return PlayerAction::BadFrame;
            }
            let n: usize = (w * h * 3) as usize;
            let wu = width as usize;
            let hu = height as usize;
            assert(wu * hu * 3 == n);
            if y.len() < wu * hu {
                return PlayerAction::BadFrame;
            }
            let chroma_needed: usize = if wu == 0 || hu == 0 {
                0
            } else {
                proof {
                    assert(((hu - 1) / 2) * (wu / 2) <= wu * hu) by (nonlinear_arith)
                        requires
                            hu >= 1,
                            wu >= 1,
                    ;
                }
                ((hu - 1) / 2) * (wu / 2) + (wu - 1) / 2 + 1
            };
            if u.len() < chroma_needed || v.len() < chroma_needed {
                return PlayerAction::BadFrame;
            }
            let mut rgb: Vec<u8> = vec![0u8; n];
            yuv_to_rgb(y.as_slice(), u.as_slice(), v.as_slice(), wu, hu, rgb.as_mut_slice());
            proof {
                assert(rgb@.subrange(0, n as int) =~= rgb@);
            }
            PlayerAction::UploadFrame { texture, width, height, rgb }
        },
        DecodeOutcome::NoPicture => PlayerAction::Nothing,
        DecodeOutcome::Error => PlayerAction::DecodeError,
    }
}

/// The movie state after the active player `this` reached the end of its
/// stream: "playback finished" is queued, then the player is stopped.
pub open spec fn finished_session(s: Session, this: Id) -> Session {
    stopped_session(
        Session {
            active_player: s.active_player,
            pending: s.pending.push((Notification::PlaybackDidFinish, this)),
        },
        this,
    )
}

/// For use by `NSRunLoop` via `handle_players`: the active player `this`
/// handles what reading its next packet gave. A packet of the video track
/// is decoded and, if that gives a picture, converted to an RGB frame; the
/// end of the stream finishes playback and stops the player.
pub fn handle_packet(
    state: &mut State,
    this: Id,
    host: &mut MPMoviePlayerControllerHostObject,
    outcome: PacketOutcome,
) -> (a: PlayerAction)
    requires
        old(state).active_player == Some(this),
        spec_wants_packet(old(host), true),
    ensures
        match outcome {
            PacketOutcome::Packet { track_id, data } => {
                &&& final(state).session() == old(state).session()
                &&& final(host).playback_state == old(host).playback_state
                &&& final(host).video_texture == old(host).video_texture
                &&& final(host).frame_dimensions == old(host).frame_dimensions
                &&& final(host).video_track_id == old(host).video_track_id
                &&& final(host).load_state == old(host).load_state
                &&& final(host).content_url == old(host).content_url
                &&& track_id != old(host).video_track_id->0 ==> a is Nothing && final(host).decoder
                    == old(host).decoder
                &&& track_id == old(host).video_track_id->0 ==> {
                    &&& final(host).decoder matches Some(d) && d@ == old(host).decoder->0@.push(
                        data@,
                    )
                    &&& is_frame_for_picture(
                        h264_decode(old(host).decoder->0@.push(data@)),
                        old(host).video_texture->0,
                        (old(host).frame_dimensions->0).0,
                        (old(host).frame_dimensions->0).1,
                        a,
                    )
                }
            },
            PacketOutcome::EndOfStream => {
                &&& final(state).session() == finished_session(old(state).session(), this)
                &&& (a matches PlayerAction::Finished(e) && e.delete_texture == old(host).video_texture
                    && e.ops@ == seq![RefOp::Release(this)])
                &&& final(host).playback_state == MPMoviePlaybackStateStopped
                &&& final(host).video_texture is None
                &&& final(host).decoder == old(host).decoder
                &&& final(host).frame_dimensions == old(host).frame_dimensions
                &&& final(host).video_track_id == old(host).video_track_id
                &&& final(host).load_state == old(host).load_state
                &&& final(host).content_url == old(host).content_url
            },
            PacketOutcome::ReadError => {
                &&& final(state).session() == old(state).session()
                &&& *final(host) == *old(host)
                &&& a is ReadError
            },
        },
{
    match outcome {
        PacketOutcome::Packet { track_id, data } => {
            let video_track_id = host.video_track_id.unwrap();
            let texture = host.video_texture.unwrap();
            let (width, height) = host.frame_dimensions.unwrap();
            if track_id != video_track_id {
                return PlayerAction::Nothing;
            }
            let mut decoder = host.decoder.take().unwrap();
            let picture = decode_picture(&mut decoder, data.as_slice());
            host.decoder = Some(decoder);
            let a = frame_for_picture(picture, texture, width, height);
            a
        },
        PacketOutcome::EndOfStream => {
            // End of stream
            host.playback_state = MPMoviePlaybackStateStopped;
            state.pending_notifications.push_back((Notification::PlaybackDidFinish, this));
            let e = stop(state, this, host);
            PlayerAction::Finished(e)
        },
        PacketOutcome::ReadError => PlayerAction::ReadError,
    }
}

/// Takes the next pending notification to post (first queued, first
/// posted).
pub fn next_notification(state: &mut State) -> (n: Option<(Notification, Id)>)
    ensures
        final(state).active_player == old(state).active_player,
        old(state).pending_notifications@.len() == 0 ==> n is None
            && final(state).pending_notifications@ == old(state).pending_notifications@,
        old(state).pending_notifications@.len() > 0 ==> n == Some(
            old(state).pending_notifications@[0],
        ) && final(state).pending_notifications@ == old(state).pending_notifications@.drop_first(),
{
    state.pending_notifications.pop_front()
}

/// Takes every pending notification, in the order to post them: first
/// queued, first posted. The queue is empty afterwards.
pub fn drain_notifications(state: &mut State) -> (posted: Vec<(Notification, Id)>)
    ensures
        posted@ == old(state).pending_notifications@,
        final(state).pending_notifications@ == Seq::<(Notification, Id)>::empty(),
        final(state).active_player == old(state).active_player,
{
    let ghost queued = state.pending_notifications@;
    let mut posted: Vec<(Notification, Id)> = Vec::new();
    loop
        invariant
            posted@ + state.pending_notifications@ == queued,
            state.active_player == old(state).active_player,
        ensures
            posted@ == queued,
            state.pending_notifications@ == Seq::<(Notification, Id)>::empty(),
            state.active_player == old(state).active_player,
        decreases state.pending_notifications@.len(),
    {
        let ghost before = state.pending_notifications@;
        match next_notification(state) {
            Some(n) => {
                posted.push(n);
                proof {
                    assert(before =~= seq![n] + before.drop_first());
                    assert(posted@ + state.pending_notifications@ =~= queued);
                }
            },
            None => {
                proof {
                    assert(posted@ + before =~= posted@);
                }
                break;
            },
        }
    }
    posted
}

/// A run-loop pass posts the notifications that were queued when it began
/// before any that the active player queues during it: whatever reading the
/// player's next packet gave, the queue the pass drains starts with the
/// queue it found, in the same order.
pub proof fn lemma_pass_posts_queued_first(s: Session, this: Id, end_of_stream: bool)
    ensures
        ({
            let after = if end_of_stream {
                finished_session(s, this)
            } else {
                s
            };
            &&& after.pending.len() >= s.pending.len()
            &&& after.pending.subrange(0, s.pending.len() as int) == s.pending
        }),
{
    assert(s.pending.subrange(0, s.pending.len() as int) =~= s.pending);
    lemma_end_of_stream_order(s, this);
    assert((s.pending + seq![
        (Notification::PlaybackDidFinish, this),
        (Notification::PlaybackStateDidChange, this),
    ]).subrange(0, s.pending.len() as int) =~= s.pending);
}

/// Playing a player and then stopping it leaves no player active and queues
/// two "playback state changed" notifications for it, after those already
/// pending.
pub proof fn lemma_play_then_stop(s: Session, this: Id)
    requires
        s.active_player is None,
    ensures
        stopped_session(played_session(s, this), this) == (Session {
            active_player: None,
            pending: s.pending + seq![
                (Notification::PlaybackStateDidChange, this),
                (Notification::PlaybackStateDidChange, this),
            ],
        }),
{
    assert(stopped_session(played_session(s, this), this).pending =~= s.pending + seq![
        (Notification::PlaybackStateDidChange, this),
        (Notification::PlaybackStateDidChange, this),
    ]);
}

/// When the movie ends, the app is told that playback finished before it is
/// told that the playback state changed, and no player is active anymore.
pub proof fn lemma_end_of_stream_order(s: Session, this: Id)
    ensures
        finished_session(s, this) == (Session {
            active_player: None,
            pending: s.pending + seq![
                (Notification::PlaybackDidFinish, this),
                (Notification::PlaybackStateDidChange, this),
            ],
        }),
{
    assert(finished_session(s, this).pending =~= s.pending + seq![
        (Notification::PlaybackDidFinish, this),
        (Notification::PlaybackStateDidChange, this),
    ]);
}

} // verus!
