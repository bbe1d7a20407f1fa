use touchhle_core::cf_socket::{
    kCFAllocatorDefault, kCFStreamPropertyShouldCloseNativeSocket,
    kCFStreamPropertySocketNativeHandle, CFSocketCreate,
};
use touchhle_core::gles2::{description, driver_description};
use touchhle_core::log::sanitize_log_message;
use touchhle_core::ns_block::{
    _Block_copy, __NSConcreteAutoBlock, __NSConcreteGlobalBlock, __NSConcreteMallocBlock,
    __NSConcreteStackBlock,
};

#[test]
fn socket_creation_gives_null() {
    assert_eq!(CFSocketCreate(kCFAllocatorDefault, 2, 1, 6, 0, 0x100, 0x200), 0);
    assert_eq!(kCFStreamPropertyShouldCloseNativeSocket(), "kCFStreamPropertyShouldCloseNativeSocket");
    assert_eq!(kCFStreamPropertySocketNativeHandle(), "kCFStreamPropertySocketNativeHandle");
}

#[test]
fn concrete_block_classes() {
    assert_eq!(__NSConcreteGlobalBlock(), "__NSGlobalBlock__");
    assert_eq!(__NSConcreteStackBlock(), "__NSStackBlock__");
    assert_eq!(__NSConcreteMallocBlock(), "__NSMallocBlock__");
    assert_eq!(__NSConcreteAutoBlock(), "__NSAutoBlock__");
    assert_eq!(_Block_copy(0x1234), 0x1234);
}

#[test]
fn gles2_texts() {
    assert_eq!(description(), "Native OpenGL ES 2.0");
    assert_eq!(
        driver_description("OpenGL ES 2.0", "Mesa", "llvmpipe"),
        "OpenGL ES 2.0 / Mesa / llvmpipe"
    );
}

#[test]
fn log_messages_lose_nuls() {
    let s: String = sanitize_log_message("a\0b\0").into_iter().collect();
    assert_eq!(s, "a\u{fffd}b\u{fffd}");
    let s: String = sanitize_log_message("plain é").into_iter().collect();
    assert_eq!(s, "plain é");
}
