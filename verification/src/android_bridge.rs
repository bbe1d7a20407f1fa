//! The hand-off of a launch request from the Android front end: the Java side
//! records which app to launch, the runtime takes it once on start-up.
use vstd::prelude::*;

verus! {

/// A launch request recorded by the Java side.
pub struct PendingLaunch {
    pub path: String,
    pub display_name: String,
}

/// Storage for at most one pending launch request.
pub struct PendingLaunchSlot {
    pub pending: Option<PendingLaunch>,
}

impl PendingLaunchSlot {
    /// An empty slot.
    pub fn new() -> (slot: Self)
        ensures
            slot.pending is None,
    {
        PendingLaunchSlot { pending: None }
    }
}

/// Records a launch request, replacing any earlier one.
pub fn set_pending_launch(slot: &mut PendingLaunchSlot, path: String, display_name: String)
    ensures
        final(slot).pending matches Some(l) && l.path == path && l.display_name == display_name,
{
    slot.pending = Some(PendingLaunch { path, display_name });
}

/// Forgets any pending launch request.
pub fn clear_pending_launch(slot: &mut PendingLaunchSlot)
    ensures
        final(slot).pending is None,
{
    slot.pending = None;
}

/// The command-line arguments of a launch of `path`: an empty program name,
/// then the path.
pub open spec fn launch_args(path: Seq<char>) -> Seq<Seq<char>> {
    seq![Seq::<char>::empty(), path]
}

/// Takes the pending launch request, if there is one, as command-line
/// arguments. The slot is empty afterwards.
pub fn take_pending_launch_args(slot: &mut PendingLaunchSlot) -> (args: Option<Vec<String>>)
    ensures
        final(slot).pending is None,
        match old(slot).pending {
            Some(l) => args matches Some(a) && a@.map_values(|s: String| s@) == launch_args(l.path@),
            None => args is None,
        },
{
    match slot.pending.take() {
        Some(launch) => {
            let v: Vec<String> = vec![String::new(), launch.path];
            proof {
                assert(v@.map_values(|s: String| s@) =~= launch_args(launch.path@));
            }
            Some(v)
        },
        None => None,
    }
}

} // verus!
