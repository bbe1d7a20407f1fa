//! `AudioSession.h`: the audio session's properties and its OpenAL context.
//!
//! Property values travel through guest memory as little-endian bytes; the
//! state keeps the floating-point properties as their IEEE-754 bit patterns,
//! which is all the session ever does with them besides handing them on.
#![allow(non_snake_case)]
#![allow(non_upper_case_globals)]

use vstd::prelude::*;
use vstd::bytes::*;

verus! {

/// Status code of the Core Audio C API (0 is success).
pub type OSStatus = i32;

/// Usually a FourCC.
pub type AudioSessionPropertyID = u32;

/// Size of guest memory objects.
pub type GuestUSize = u32;

/// FourCC `!siz`.
pub const kAudioSessionBadPropertySizeError: OSStatus = 0x2173697a;

/// FourCC `othr`.
pub const kAudioSessionProperty_OtherAudioIsPlaying: AudioSessionPropertyID = 0x6f746872;
/// FourCC `acat`.
pub const kAudioSessionProperty_AudioCategory: AudioSessionPropertyID = 0x61636174;
/// FourCC `chsr`.
pub const kAudioSessionProperty_CurrentHardwareSampleRate: AudioSessionPropertyID = 0x63687372;
/// FourCC `choc`.
pub const kAudioSessionProperty_CurrentHardwareOutputNumberChannels: AudioSessionPropertyID =
    0x63686f63;
/// FourCC `chov`.
pub const kAudioSessionProperty_CurrentHardwareOutputVolume: AudioSessionPropertyID = 0x63686f76;
/// FourCC `iobd`.
pub const kAudioSessionProperty_PreferredHardwareIOBufferDuration: AudioSessionPropertyID =
    0x696f6264;
/// FourCC `hwsr`.
pub const kAudioSessionProperty_PreferredHardwareSampleRate: AudioSessionPropertyID = 0x68777372;
/// FourCC `chbd`.
pub const kAudioSessionProperty_CurrentHardwareIOBufferDuration: AudioSessionPropertyID =
    0x63686264;

/// FourCC `solo`.
pub const kAudioSessionCategory_SoloAmbientSound: u32 = 0x736f6c6f;

/// Bit pattern of the `f64` 44100.0.
pub const SAMPLE_RATE_44100_BITS: u64 = 0x40e5888000000000;
/// Bit pattern of the `f32` 1.0.
pub const VOLUME_1_BITS: u32 = 0x3f800000;
/// Bit pattern of the `f32` 0.023220.
pub const IO_BUFFER_DURATION_DEFAULT_BITS: u32 = 0x3cbe37df;

/// The audio session of the emulated app.
pub struct State {
    pub initialized: bool,
    /// Guest `ALCdevice*` opened on initialization.
    pub device: Option<u32>,
    /// Guest `ALCcontext*` created on initialization.
    pub context: Option<u32>,
    pub audio_session_category: u32,
    /// Bit pattern of the `f64` sample rate in Hz.
    pub current_hardware_sample_rate_bits: u64,
    pub current_hardware_output_number_channels: u32,
    /// Bit pattern of the `f32` output volume.
    pub current_hardware_output_volume_bits: u32,
    /// Bit pattern of the `f32` I/O buffer duration in seconds.
    pub current_hardware_io_buffer_duration_bits: u32,
}

impl State {
    /// The state before the app touches the session.
    pub open spec fn spec_default() -> State {
        State {
            initialized: false,
            device: None,
            context: None,
            audio_session_category: kAudioSessionCategory_SoloAmbientSound,
            current_hardware_sample_rate_bits: SAMPLE_RATE_44100_BITS,
            current_hardware_output_number_channels: 2,
            current_hardware_output_volume_bits: VOLUME_1_BITS,
            current_hardware_io_buffer_duration_bits: IO_BUFFER_DURATION_DEFAULT_BITS,
        }
    }
}

impl Default for State {
    fn default() -> (s: Self)
        ensures
            s == State::spec_default(),
    {
        State {
            initialized: false,
            device: None,
            context: None,
            // This is the default value.
            audio_session_category: kAudioSessionCategory_SoloAmbientSound,
            // Values taken from an iOS 2 simulator
            current_hardware_sample_rate_bits: SAMPLE_RATE_44100_BITS,
            current_hardware_output_number_channels: 2,
            current_hardware_output_volume_bits: VOLUME_1_BITS,
            // Value was checked on both iOS Simulator and iPhone 3GS
            current_hardware_io_buffer_duration_bits: IO_BUFFER_DURATION_DEFAULT_BITS,
        }
    }
}

/// The properties that can be read.
pub open spec fn is_readable_property(id: AudioSessionPropertyID) -> bool {
    ||| id == kAudioSessionProperty_OtherAudioIsPlaying
    ||| id == kAudioSessionProperty_AudioCategory
    ||| id == kAudioSessionProperty_CurrentHardwareSampleRate
    ||| id == kAudioSessionProperty_CurrentHardwareOutputNumberChannels
    ||| id == kAudioSessionProperty_CurrentHardwareOutputVolume
    ||| id == kAudioSessionProperty_CurrentHardwareIOBufferDuration
}

/// The properties that can be written.
pub open spec fn is_settable_property(id: AudioSessionPropertyID) -> bool {
    ||| id == kAudioSessionProperty_AudioCategory
    ||| id == kAudioSessionProperty_PreferredHardwareIOBufferDuration
    ||| id == kAudioSessionProperty_PreferredHardwareSampleRate
}

/// Size in bytes of a readable property's value: the sample rate is an
/// `f64`, every other value a 4-byte `u32` or `f32`.
pub open spec fn spec_property_size(id: AudioSessionPropertyID) -> GuestUSize {
    if id == kAudioSessionProperty_CurrentHardwareSampleRate { 8 } else { 4 }
}

/// Size in bytes of a settable property's value.
pub open spec fn spec_set_property_size(id: AudioSessionPropertyID) -> GuestUSize {
    if id == kAudioSessionProperty_PreferredHardwareSampleRate { 8 } else { 4 }
}

/// The little-endian bytes of a readable property's current value.
pub open spec fn property_bytes(s: State, id: AudioSessionPropertyID) -> Seq<u8> {
    if id == kAudioSessionProperty_OtherAudioIsPlaying {
        spec_u32_to_le_bytes(0)
    } else if id == kAudioSessionProperty_AudioCategory {
        spec_u32_to_le_bytes(s.audio_session_category)
    } else if id == kAudioSessionProperty_CurrentHardwareSampleRate {
        spec_u64_to_le_bytes(s.current_hardware_sample_rate_bits)
    } else if id == kAudioSessionProperty_CurrentHardwareOutputNumberChannels {
        spec_u32_to_le_bytes(s.current_hardware_output_number_channels)
    } else if id == kAudioSessionProperty_CurrentHardwareOutputVolume {
        spec_u32_to_le_bytes(s.current_hardware_output_volume_bits)
    } else {
        spec_u32_to_le_bytes(s.current_hardware_io_buffer_duration_bits)
    }
}

/// The state after a successful write of `bytes` to property `id`.
pub open spec fn state_after_set(s: State, id: AudioSessionPropertyID, bytes: Seq<u8>) -> State {
    if id == kAudioSessionProperty_PreferredHardwareSampleRate {
        State { current_hardware_sample_rate_bits: spec_u64_from_le_bytes(bytes), ..s }
    } else if id == kAudioSessionProperty_AudioCategory {
        State { audio_session_category: spec_u32_from_le_bytes(bytes), ..s }
    } else {
        State { current_hardware_io_buffer_duration_bits: spec_u32_from_le_bytes(bytes), ..s }
    }
}

/// Size of a readable property's value.
pub fn get_audio_session_property_size(in_ID: AudioSessionPropertyID) -> (size: GuestUSize)
    requires
        is_readable_property(in_ID),
    ensures
        size == spec_property_size(in_ID),
{
    if in_ID == kAudioSessionProperty_CurrentHardwareSampleRate {
        8
    } else {
        4
    }
}

/// `AudioSessionGetPropertySize`: the status (always success) and the size
/// written to the caller's output.
pub fn AudioSessionGetPropertySize(in_ID: AudioSessionPropertyID) -> (r: (OSStatus, GuestUSize))
    requires
        is_readable_property(in_ID),
    ensures
        r == (0i32, spec_property_size(in_ID)),
{
    let size = get_audio_session_property_size(in_ID);
    (0, size)
}

/// `AudioSessionGetProperty`: the bytes to write to the caller's output, or
/// the error when the caller's buffer size is not the property's size.
pub fn AudioSessionGetProperty(
    state: &State,
    in_ID: AudioSessionPropertyID,
    io_data_size_value: u32,
) -> (r: Result<Vec<u8>, OSStatus>)
    requires
        is_readable_property(in_ID),
    ensures
        io_data_size_value != spec_property_size(in_ID) ==> r == Err::<Vec<u8>, OSStatus>(
            kAudioSessionBadPropertySizeError,
        ),
        io_data_size_value == spec_property_size(in_ID) ==> (r matches Ok(b) && b@
            == property_bytes(*state, in_ID)),
{
    let required_size = get_audio_session_property_size(in_ID);
    if io_data_size_value != required_size {
        return Err(kAudioSessionBadPropertySizeError);
    }
    let bytes = if in_ID == kAudioSessionProperty_OtherAudioIsPlaying {
        u32_to_le_bytes(0)
    } else if in_ID == kAudioSessionProperty_AudioCategory {
        u32_to_le_bytes(state.audio_session_category)
    } else if in_ID == kAudioSessionProperty_CurrentHardwareSampleRate {
        u64_to_le_bytes(state.current_hardware_sample_rate_bits)
    } else if in_ID == kAudioSessionProperty_CurrentHardwareOutputNumberChannels {
        u32_to_le_bytes(state.current_hardware_output_number_channels)
    } else if in_ID == kAudioSessionProperty_CurrentHardwareOutputVolume {
        u32_to_le_bytes(state.current_hardware_output_volume_bits)
    } else {
        u32_to_le_bytes(state.current_hardware_io_buffer_duration_bits)
    };
    Ok(bytes)
}

/// What `AudioSessionSetProperty` asks of the runtime next.
#[derive(Clone, Copy, Debug, PartialEq, Eq, Structural)]
pub enum SetStep {
    /// Return this status to the caller; the caller's buffer is not read.
    Done(OSStatus),
    /// Read this many bytes from the caller's buffer and hand them to
    /// `on_value_read`.
    ReadValue(u32),
}

/// `AudioSessionSetProperty(in_ID, in_data_size, in_data)`: the size is
/// checked before the caller's buffer is touched; only a value of the
/// property's size is read.
pub fn AudioSessionSetProperty(in_ID: AudioSessionPropertyID, in_data_size: u32) -> (step: SetStep)
    requires
        is_settable_property(in_ID),
    ensures
        in_data_size != spec_set_property_size(in_ID) ==> step == SetStep::Done(
            kAudioSessionBadPropertySizeError,
        ),
        in_data_size == spec_set_property_size(in_ID) ==> step == SetStep::ReadValue(in_data_size),
{
    let required_size: GuestUSize = if in_ID == kAudioSessionProperty_PreferredHardwareSampleRate {
        8
    } else {
        4
    };
    if in_data_size != required_size {
        SetStep::Done(kAudioSessionBadPropertySizeError)
    } else {
        SetStep::ReadValue(in_data_size)
    }
}

/// The value the runtime read for `AudioSessionSetProperty`: it is stored
/// and the call succeeds.
pub fn on_value_read(state: &mut State, in_ID: AudioSessionPropertyID, in_data: &[u8]) -> (r: OSStatus)
    requires
        is_settable_property(in_ID),
        in_data@.len() == spec_set_property_size(in_ID),
    ensures
        r == 0,
        *final(state) == state_after_set(*old(state), in_ID, in_data@),
{
    if in_ID == kAudioSessionProperty_PreferredHardwareSampleRate {
        state.current_hardware_sample_rate_bits = u64_from_le_bytes(in_data);
    } else if in_ID == kAudioSessionProperty_AudioCategory {
        state.audio_session_category = u32_from_le_bytes(in_data);
    } else {
        state.current_hardware_io_buffer_duration_bits = u32_from_le_bytes(in_data);
    }
    0
}

/// The state once the session holds an OpenAL device and context.
pub open spec fn state_after_initialize(s: State, device: u32, context: u32) -> State {
    State { initialized: true, device: Some(device), context: Some(context), ..s }
}

/// What `AudioSessionInitialize` asks of the runtime next.
#[derive(Clone, Copy, Debug, PartialEq, Eq, Structural)]
pub enum InitStep {
    /// Return this status to the caller.
    Done(OSStatus),
    /// Open the default OpenAL device and report it to `on_device_opened`.
    OpenDevice,
    /// Create an OpenAL context on `device` with the attribute
    /// `ALC_FREQUENCY` set to the sample rate whose `f64` bit pattern is
    /// `sample_rate_bits`, and report it to `on_context_created`.
    CreateContext { device: u32, sample_rate_bits: u64 },
}

/// `AudioSessionInitialize`: nothing to do for a session that is already
/// initialized, else the OpenAL device is opened first.
pub fn AudioSessionInitialize(state: &State) -> (step: InitStep)
    ensures
        state.initialized ==> step == InitStep::Done(0i32),
        !state.initialized ==> step == InitStep::OpenDevice,
{
    if state.initialized {
        InitStep::Done(0)
    } else {
        InitStep::OpenDevice
    }
}

/// The OpenAL device the runtime opened (0 if opening failed): failure, or
/// a context is created on it at the session's current sample rate.
pub fn on_device_opened(state: &State, device: u32) -> (step: InitStep)
    ensures
        device == 0 ==> step == InitStep::Done(-1i32),
        device != 0 ==> step == (InitStep::CreateContext {
            device,
            sample_rate_bits: state.current_hardware_sample_rate_bits,
        }),
{
    if device == 0 {
        InitStep::Done(-1)
    } else {
        InitStep::CreateContext { device, sample_rate_bits: state.current_hardware_sample_rate_bits }
    }
}

/// The OpenAL context the runtime created on `device` (0 if creating
/// failed): the session keeps both and is initialized, or stays as it is.
pub fn on_context_created(state: &mut State, device: u32, context: u32) -> (r: OSStatus)
    ensures
        context == 0 ==> r == -1 && *final(state) == *old(state),
        context != 0 ==> r == 0 && *final(state) == state_after_initialize(*old(state), device, context),
{
    if context == 0 {
        return -1;
    }
    state.device = Some(device);
    state.context = Some(context);
    state.initialized = true;
    0
}

/// An OpenAL context call the runtime makes for the session.
#[derive(Clone, Copy, Debug, PartialEq, Eq, Structural)]
pub enum AlcCall {
    MakeContextCurrent(u32),
    ProcessContext(u32),
    SuspendContext(u32),
}

/// The OpenAL calls `AudioSessionSetActive(active)` makes, in order.
pub open spec fn set_active_calls(s: State, active: bool) -> Seq<AlcCall> {
    match s.context {
        Some(c) => if active {
            seq![AlcCall::MakeContextCurrent(c), AlcCall::ProcessContext(c)]
        } else {
            seq![AlcCall::SuspendContext(c), AlcCall::MakeContextCurrent(0)]
        },
        None => seq![],
    }
}

/// `AudioSessionSetActive`: the status (always success) and the OpenAL
/// calls to make.
pub fn AudioSessionSetActive(state: &State, active: bool) -> (r: (OSStatus, Vec<AlcCall>))
    ensures
        r.0 == 0,
        r.1@ == set_active_calls(*state, active),
{
    let mut calls: Vec<AlcCall> = Vec::new();
    if let Some(context) = state.context {
        if active {
            calls.push(AlcCall::MakeContextCurrent(context));
            calls.push(AlcCall::ProcessContext(context));
        } else {
            calls.push(AlcCall::SuspendContext(context));
            calls.push(AlcCall::MakeContextCurrent(0));
        }
    }
    proof {
        assert(calls@ =~= set_active_calls(*state, active));
    }
    (0, calls)
}

/// `AudioSessionAddPropertyListener`: listeners are accepted and never
/// called.
pub fn AudioSessionAddPropertyListener(
    inID: AudioSessionPropertyID,
    inProc: u32,
    inClientData: u32,
) -> (r: OSStatus)
    ensures
        r == 0,
{
    0
}

/// A value written to a settable property is what the matching readable
/// property gives back: the preferred sample rate is read back as the current
/// sample rate, the preferred I/O buffer duration as the current one, and the
/// category as itself.
pub proof fn lemma_set_then_get(s: State, set_id: AudioSessionPropertyID, bytes: Seq<u8>)
    requires
        is_settable_property(set_id),
        bytes.len() == spec_set_property_size(set_id),
    ensures
        ({
            let get_id = if set_id == kAudioSessionProperty_PreferredHardwareSampleRate {
                kAudioSessionProperty_CurrentHardwareSampleRate
            } else if set_id == kAudioSessionProperty_AudioCategory {
                kAudioSessionProperty_AudioCategory
            } else {
                kAudioSessionProperty_CurrentHardwareIOBufferDuration
            };
            &&& is_readable_property(get_id)
            &&& spec_property_size(get_id) == spec_set_property_size(set_id)
            &&& property_bytes(state_after_set(s, set_id, bytes), get_id) == bytes
        }),
{
    lemma_auto_spec_u32_to_from_le_bytes();
    lemma_auto_spec_u64_to_from_le_bytes();
}

/// Each readable property gives back its own part of the session state,
/// in little-endian order: the category, the current sample rate, channel
/// count, output volume and I/O buffer duration are each read from their
/// own field, and no other audio is ever reported as playing.
pub proof fn lemma_properties_read_their_fields(s: State)
    ensures
        spec_u32_from_le_bytes(property_bytes(s, kAudioSessionProperty_OtherAudioIsPlaying)) == 0,
        spec_u32_from_le_bytes(property_bytes(s, kAudioSessionProperty_AudioCategory))
            == s.audio_session_category,
        spec_u64_from_le_bytes(property_bytes(s, kAudioSessionProperty_CurrentHardwareSampleRate))
            == s.current_hardware_sample_rate_bits,
        spec_u32_from_le_bytes(
            property_bytes(s, kAudioSessionProperty_CurrentHardwareOutputNumberChannels),
        ) == s.current_hardware_output_number_channels,
        spec_u32_from_le_bytes(property_bytes(s, kAudioSessionProperty_CurrentHardwareOutputVolume))
            == s.current_hardware_output_volume_bits,
        spec_u32_from_le_bytes(
            property_bytes(s, kAudioSessionProperty_CurrentHardwareIOBufferDuration),
        ) == s.current_hardware_io_buffer_duration_bits,
{
    lemma_auto_spec_u32_to_from_le_bytes();
    lemma_auto_spec_u64_to_from_le_bytes();
    assert(spec_u32_to_le_bytes(0).len() == 4);
    assert(spec_u32_to_le_bytes(s.audio_session_category).len() == 4);
    assert(spec_u32_to_le_bytes(s.current_hardware_output_number_channels).len() == 4);
    assert(spec_u32_to_le_bytes(s.current_hardware_output_volume_bits).len() == 4);
    assert(spec_u32_to_le_bytes(s.current_hardware_io_buffer_duration_bits).len() == 4);
    assert(spec_u64_to_le_bytes(s.current_hardware_sample_rate_bits).len() == 8);
}

/// Every readable property's value is exactly as long as the size that
/// `AudioSessionGetPropertySize` reports for it.
pub proof fn lemma_value_has_reported_size(s: State, id: AudioSessionPropertyID)
    requires
        is_readable_property(id),
    ensures
        property_bytes(s, id).len() == spec_property_size(id),
{
    lemma_auto_spec_u32_to_from_le_bytes();
    lemma_auto_spec_u64_to_from_le_bytes();
}

} // verus!
