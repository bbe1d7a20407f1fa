use touchhle_core::audio_session::{
    get_audio_session_property_size, AlcCall, AudioSessionAddPropertyListener,
    AudioSessionGetProperty, AudioSessionGetPropertySize, AudioSessionInitialize,
    InitStep, on_context_created, on_device_opened, SAMPLE_RATE_44100_BITS,
    AudioSessionSetActive, AudioSessionSetProperty, SetStep, on_value_read, State, kAudioSessionBadPropertySizeError,
    kAudioSessionCategory_SoloAmbientSound, kAudioSessionProperty_AudioCategory,
    kAudioSessionProperty_CurrentHardwareIOBufferDuration,
    kAudioSessionProperty_CurrentHardwareOutputNumberChannels,
    kAudioSessionProperty_CurrentHardwareOutputVolume,
    kAudioSessionProperty_CurrentHardwareSampleRate, kAudioSessionProperty_OtherAudioIsPlaying,
    kAudioSessionProperty_PreferredHardwareIOBufferDuration,
    kAudioSessionProperty_PreferredHardwareSampleRate,
};

/// `AudioSessionSetProperty` as the runtime drives it: the caller's buffer
/// is read only when the library asks for its value.
fn set_property(s: &mut State, id: u32, size: u32, buffer: &[u8]) -> i32 {
    match AudioSessionSetProperty(id, size) {
        SetStep::Done(status) => status,
        SetStep::ReadValue(n) => on_value_read(s, id, &buffer[..n as usize]),
    }
}

fn fourcc(c: &[u8; 4]) -> u32 {
    u32::from_be_bytes(*c)
}

#[test]
fn property_ids_are_fourccs() {
    assert_eq!(kAudioSessionProperty_OtherAudioIsPlaying, fourcc(b"othr"));
    assert_eq!(kAudioSessionProperty_AudioCategory, fourcc(b"acat"));
    assert_eq!(kAudioSessionProperty_CurrentHardwareSampleRate, fourcc(b"chsr"));
    assert_eq!(kAudioSessionProperty_CurrentHardwareOutputNumberChannels, fourcc(b"choc"));
    assert_eq!(kAudioSessionProperty_CurrentHardwareOutputVolume, fourcc(b"chov"));
    assert_eq!(kAudioSessionProperty_PreferredHardwareIOBufferDuration, fourcc(b"iobd"));
    assert_eq!(kAudioSessionProperty_PreferredHardwareSampleRate, fourcc(b"hwsr"));
    assert_eq!(kAudioSessionProperty_CurrentHardwareIOBufferDuration, fourcc(b"chbd"));
    assert_eq!(kAudioSessionCategory_SoloAmbientSound, fourcc(b"solo"));
    assert_eq!(kAudioSessionBadPropertySizeError, fourcc(b"!siz") as i32);
}

#[test]
fn default_values_match_a_real_device() {
    let s = State::default();
    assert!(!s.initialized);
    assert_eq!(f64::from_bits(s.current_hardware_sample_rate_bits), 44100.0);
    assert_eq!(s.current_hardware_output_number_channels, 2);
    assert_eq!(f32::from_bits(s.current_hardware_output_volume_bits), 1.0);
    assert_eq!(f32::from_bits(s.current_hardware_io_buffer_duration_bits), 0.023220);
    assert_eq!(s.audio_session_category, kAudioSessionCategory_SoloAmbientSound);
}

#[test]
fn property_sizes() {
    assert_eq!(get_audio_session_property_size(kAudioSessionProperty_CurrentHardwareSampleRate), 8);
    assert_eq!(get_audio_session_property_size(kAudioSessionProperty_AudioCategory), 4);
    assert_eq!(get_audio_session_property_size(kAudioSessionProperty_OtherAudioIsPlaying), 4);
    assert_eq!(AudioSessionGetPropertySize(kAudioSessionProperty_CurrentHardwareOutputVolume), (0, 4));
}

#[test]
fn get_property_returns_le_bytes() {
    let s = State::default();
    let r = AudioSessionGetProperty(&s, kAudioSessionProperty_CurrentHardwareSampleRate, 8).unwrap();
    assert_eq!(r, 44100.0f64.to_le_bytes().to_vec());
    let r = AudioSessionGetProperty(&s, kAudioSessionProperty_CurrentHardwareOutputNumberChannels, 4)
        .unwrap();
    assert_eq!(r, vec![2, 0, 0, 0]);
    let r = AudioSessionGetProperty(&s, kAudioSessionProperty_OtherAudioIsPlaying, 4).unwrap();
    assert_eq!(r, vec![0, 0, 0, 0]);
    let r = AudioSessionGetProperty(&s, kAudioSessionProperty_CurrentHardwareIOBufferDuration, 4)
        .unwrap();
    assert_eq!(r, 0.023220f32.to_le_bytes().to_vec());
}

#[test]
fn get_property_with_wrong_size_fails() {
    let s = State::default();
    assert_eq!(
        AudioSessionGetProperty(&s, kAudioSessionProperty_CurrentHardwareSampleRate, 4),
        Err(kAudioSessionBadPropertySizeError)
    );
}

#[test]
fn set_sample_rate_reads_back_as_current_rate() {
    let mut s = State::default();
    let bytes = 22050.0f64.to_le_bytes();
    assert_eq!(
        set_property(&mut s, kAudioSessionProperty_PreferredHardwareSampleRate, 8, &bytes),
        0
    );
    assert_eq!(f64::from_bits(s.current_hardware_sample_rate_bits), 22050.0);
    let r = AudioSessionGetProperty(&s, kAudioSessionProperty_CurrentHardwareSampleRate, 8).unwrap();
    assert_eq!(r, bytes.to_vec());
}

#[test]
fn set_category_and_buffer_duration_read_back() {
    let mut s = State::default();
    let cat = fourcc(b"ambi").to_le_bytes();
    assert_eq!(set_property(&mut s, kAudioSessionProperty_AudioCategory, 4, &cat), 0);
    assert_eq!(
        AudioSessionGetProperty(&s, kAudioSessionProperty_AudioCategory, 4).unwrap(),
        cat.to_vec()
    );
    let dur = 0.005f32.to_le_bytes();
    assert_eq!(
        set_property(&mut s, kAudioSessionProperty_PreferredHardwareIOBufferDuration, 4, &dur),
        0
    );
    assert_eq!(
        AudioSessionGetProperty(&s, kAudioSessionProperty_CurrentHardwareIOBufferDuration, 4).unwrap(),
        dur.to_vec()
    );
}

#[test]
fn set_property_with_wrong_size_changes_nothing() {
    let mut s = State::default();
    let before = s.current_hardware_sample_rate_bits;
    assert_eq!(
        set_property(&mut s, kAudioSessionProperty_PreferredHardwareSampleRate, 4, &[1, 2, 3, 4]),
        kAudioSessionBadPropertySizeError
    );
    assert_eq!(s.current_hardware_sample_rate_bits, before);
    // The buffer is not read when the size is wrong: there need not be one.
    assert_eq!(
        AudioSessionSetProperty(kAudioSessionProperty_PreferredHardwareSampleRate, 4),
        SetStep::Done(kAudioSessionBadPropertySizeError)
    );
    assert_eq!(
        AudioSessionSetProperty(kAudioSessionProperty_AudioCategory, 4),
        SetStep::ReadValue(4)
    );
}

#[test]
fn initialize_once() {
    let mut s = State::default();
    assert_eq!(AudioSessionInitialize(&s), InitStep::OpenDevice);
    assert_eq!(on_device_opened(&s, 0), InitStep::Done(-1));
    assert_eq!(
        on_device_opened(&s, 0x1000),
        InitStep::CreateContext { device: 0x1000, sample_rate_bits: SAMPLE_RATE_44100_BITS }
    );
    assert_eq!(on_context_created(&mut s, 0x1000, 0), -1);
    assert!(!s.initialized);
    assert_eq!(on_context_created(&mut s, 0x1000, 0x2000), 0);
    assert!(s.initialized);
    assert_eq!(s.device, Some(0x1000));
    assert_eq!(s.context, Some(0x2000));
    // A second initialization does nothing.
    assert_eq!(AudioSessionInitialize(&s), InitStep::Done(0));
    assert_eq!(s.context, Some(0x2000));
}

#[test]
fn context_uses_the_preferred_sample_rate() {
    let mut s = State::default();
    let rate = 22050.0f64.to_bits().to_le_bytes();
    assert_eq!(set_property(&mut s, kAudioSessionProperty_PreferredHardwareSampleRate, 8, &rate), 0);
    assert_eq!(
        on_device_opened(&s, 0x1000),
        InitStep::CreateContext { device: 0x1000, sample_rate_bits: 22050.0f64.to_bits() }
    );
}

#[test]
fn set_active_drives_the_context() {
    let mut s = State::default();
    assert_eq!(AudioSessionSetActive(&s, true), (0, vec![]));
    on_context_created(&mut s, 0x1000, 0x2000);
    assert_eq!(
        AudioSessionSetActive(&s, true),
        (0, vec![AlcCall::MakeContextCurrent(0x2000), AlcCall::ProcessContext(0x2000)])
    );
    assert_eq!(
        AudioSessionSetActive(&s, false),
        (0, vec![AlcCall::SuspendContext(0x2000), AlcCall::MakeContextCurrent(0)])
    );
}

#[test]
fn property_listener_is_accepted() {
    assert_eq!(AudioSessionAddPropertyListener(kAudioSessionProperty_AudioCategory, 0x1234, 0), 0);
}
