use touchhle_core::cxxabi::{
    State, __cxa_atexit, __cxa_finalize, ___objc_personality_v0, URC_CONTINUE_UNWIND,
    URC_INSTALL_CONTEXT,
};

#[test]
fn finalize_runs_destructors_last_registered_first() {
    let mut s = State::default();
    assert_eq!(__cxa_atexit(&mut s, 0x100, 1, 0xd0), 0);
    assert_eq!(__cxa_atexit(&mut s, 0x200, 2, 0xd0), 0);
    assert_eq!(__cxa_atexit(&mut s, 0x300, 3, 0xe0), 0);
    assert_eq!(__cxa_atexit(&mut s, 0x400, 4, 0xd0), 0);
    assert_eq!(__cxa_finalize(&mut s, 0xd0), vec![(0x400, 4), (0x200, 2), (0x100, 1)]);
    // Finalizing again runs nothing; the other DSO is untouched.
    assert_eq!(__cxa_finalize(&mut s, 0xd0), vec![]);
    assert_eq!(__cxa_finalize(&mut s, 0xe0), vec![(0x300, 3)]);
}

#[test]
fn finalize_null_handle_runs_everything_last_registered_first() {
    let mut s = State::default();
    __cxa_atexit(&mut s, 0x100, 1, 0);
    __cxa_atexit(&mut s, 0x200, 2, 5);
    __cxa_atexit(&mut s, 0x300, 3, 0);
    __cxa_atexit(&mut s, 0x400, 4, 6);
    assert_eq!(
        __cxa_finalize(&mut s, 0),
        vec![(0x400, 4), (0x300, 3), (0x200, 2), (0x100, 1)]
    );
    assert!(s.registrations.is_empty());
    assert_eq!(__cxa_finalize(&mut s, 5), vec![]);
}

#[test]
fn finalize_keeps_other_registrations_in_order() {
    let mut s = State::default();
    __cxa_atexit(&mut s, 0x100, 1, 5);
    __cxa_atexit(&mut s, 0x200, 2, 6);
    __cxa_atexit(&mut s, 0x300, 3, 5);
    __cxa_atexit(&mut s, 0x400, 4, 7);
    assert_eq!(__cxa_finalize(&mut s, 5), vec![(0x300, 3), (0x100, 1)]);
    assert_eq!(s.registrations, vec![(6, 0x200, 2), (7, 0x400, 4)]);
}

#[test]
fn finalize_unknown_dso_runs_nothing() {
    let mut s = State::default();
    assert_eq!(__cxa_finalize(&mut s, 0x1234), vec![]);
}

#[test]
fn personality_routine() {
    assert_eq!(___objc_personality_v0(0, 0, 0), (URC_CONTINUE_UNWIND, true));
    assert_eq!(___objc_personality_v0(1, 0, 0), (URC_CONTINUE_UNWIND, true));
    assert_eq!(___objc_personality_v0(2, 0, 0), (URC_INSTALL_CONTEXT, true));
    assert_eq!(___objc_personality_v0(3, 0, 0), (URC_CONTINUE_UNWIND, false));
    assert_eq!(___objc_personality_v0(-1, 0, 0), (8, false));
    assert_eq!(URC_INSTALL_CONTEXT, 7);
}
