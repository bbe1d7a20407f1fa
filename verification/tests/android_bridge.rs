use touchhle_core::android_bridge::{
    clear_pending_launch, set_pending_launch, take_pending_launch_args, PendingLaunchSlot,
};

#[test]
fn take_after_set_gives_path_args() {
    let mut slot = PendingLaunchSlot::new();
    set_pending_launch(&mut slot, "/sdcard/app.ipa".to_string(), "App".to_string());
    let args = take_pending_launch_args(&mut slot);
    assert_eq!(args, Some(vec![String::new(), "/sdcard/app.ipa".to_string()]));
    assert_eq!(take_pending_launch_args(&mut slot), None);
}

#[test]
fn take_after_clear_gives_none() {
    let mut slot = PendingLaunchSlot::new();
    set_pending_launch(&mut slot, "a".to_string(), "b".to_string());
    clear_pending_launch(&mut slot);
    assert_eq!(take_pending_launch_args(&mut slot), None);
}

#[test]
fn later_set_replaces_earlier() {
    let mut slot = PendingLaunchSlot::new();
    set_pending_launch(&mut slot, "first".to_string(), "1".to_string());
    set_pending_launch(&mut slot, "second".to_string(), "2".to_string());
    assert_eq!(
        take_pending_launch_args(&mut slot),
        Some(vec![String::new(), "second".to_string()])
    );
}
