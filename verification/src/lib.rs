//! Core logic of an iOS app runtime: guest-object state of several UIKit,
//! MediaPlayer and AudioToolbox classes, the C++ ABI destructor registry,
//! `stat` filling, YUV conversion and the Android launch hand-off. Work the
//! runtime does outside (guest memory, OpenGL, OpenAL, file reading) comes
//! in as plain values and goes out as the actions to perform.

pub mod guest;
pub mod android_bridge;
pub mod audio_session;
pub mod cf_socket;
pub mod cxxabi;
pub mod gles2;
pub mod log;
pub mod stat;
pub mod yuv;
pub mod movie_player;
pub mod ns_block;
pub mod uikit;
