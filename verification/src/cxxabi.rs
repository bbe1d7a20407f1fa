//! `cxxabi.h`: the registry of C++ destructors run at module teardown
//! (`__cxa_atexit` / `__cxa_finalize`), and the Objective-C exception
//! personality routine.
//!
//! Resources:
//! - Itanium C++ ABI specification, "DSO Object Destruction API"
//! - ARM EHABI specification
#![allow(non_snake_case)]
#![allow(non_upper_case_globals)]

use vstd::prelude::*;

verus! {

/// A registered destructor: the guest function `void (*)(void *)` and the
/// argument it is called with.
pub type Destructor = (u32, u32);

/// A registration made by `__cxa_atexit`: the DSO handle, the function and
/// its argument.
pub type Registration = (u32, u32, u32);

/// Storage for C++ destructors registered via `__cxa_atexit`.
pub struct State {
    /// Every registration not yet finalized, in registration order.
    pub registrations: Vec<Registration>,
}

impl View for State {
    type V = Seq<Registration>;

    open spec fn view(&self) -> Seq<Registration> {
        self.registrations@
    }
}

/// Whether finalizing handle `d` runs what was registered under `handle`:
/// a null `d` finalizes every DSO.
pub open spec fn finalized_by(handle: u32, d: u32) -> bool {
    d == 0 || handle == d
}

/// The destructors that finalizing `d` runs, in registration order.
pub open spec fn destructors_of(regs: Seq<Registration>, d: u32) -> Seq<Destructor>
    decreases regs.len(),
{
    if regs.len() == 0 {
        Seq::empty()
    } else {
        let rest = destructors_of(regs.drop_last(), d);
        let last = regs.last();
        if finalized_by(last.0, d) {
            rest.push((last.1, last.2))
        } else {
            rest
        }
    }
}

/// The registrations that finalizing `d` leaves in place, in registration
/// order.
pub open spec fn after_finalize(regs: Seq<Registration>, d: u32) -> Seq<Registration>
    decreases regs.len(),
{
    if regs.len() == 0 {
        Seq::empty()
    } else {
        let rest = after_finalize(regs.drop_last(), d);
        let last = regs.last();
        if finalized_by(last.0, d) {
            rest
        } else {
            rest.push(last)
        }
    }
}

/// The order in which `__cxa_finalize(d)` runs destructors: last registered
/// first.
pub open spec fn finalize_order(regs: Seq<Registration>, d: u32) -> Seq<Destructor> {
    destructors_of(regs, d).reverse()
}

impl Default for State {
    fn default() -> (s: Self)
        ensures
            s@ == Seq::<Registration>::empty(),
    {
        State { registrations: Vec::new() }
    }
}

/// `__cxa_atexit(func, p, d)`: registers `func(p)` to run when the DSO with
/// handle `d` is finalized. Always succeeds.
pub fn __cxa_atexit(state: &mut State, func: u32, p: u32, d: u32) -> (r: i32)
    ensures
        r == 0,
        final(state)@ == old(state)@.push((d, func, p)),
{
    state.registrations.push((d, func, p));
    0  // success

}

/// `s` in reverse order.
fn reversed(s: &Vec<Destructor>) -> (r: Vec<Destructor>)
    ensures
        r@ == s@.reverse(),
{
    let n = s.len();
    let mut r: Vec<Destructor> = Vec::new();
    let mut i: usize = n;
    while i > 0
        invariant
            i <= n,
            n == s@.len(),
            r@.len() == n - i,
            forall|j: int| 0 <= j < n - i ==> r@[j] == s@[n - 1 - j],
        decreases i,
    {
        i = i - 1;
        r.push(s[i]);
    }
    proof {
        assert(r@ =~= s@.reverse());
    }
    r
}

/// `__cxa_finalize(d)`: takes the destructors registered for the DSO with
/// handle `d` (for a null handle, every registered destructor) out of the
/// registry and returns them in the order to run them: reverse registration
/// order (LIFO).
pub fn __cxa_finalize(state: &mut State, d: u32) -> (to_run: Vec<Destructor>)
    ensures
        to_run@ == finalize_order(old(state)@, d),
        final(state)@ == after_finalize(old(state)@, d),
{
    let ghost regs = old(state)@;
    let n = state.registrations.len();
    let mut selected: Vec<Destructor> = Vec::new();
    let mut kept: Vec<Registration> = Vec::new();
    let mut i: usize = 0;
    while i < n
        invariant
            i <= n,
            n == regs.len(),
            state@ == regs,
            selected@ == destructors_of(regs.subrange(0, i as int), d),
            kept@ == after_finalize(regs.subrange(0, i as int), d),
        decreases n - i,
    {
        let r = state.registrations[i];
        proof {
            assert(regs.subrange(0, i + 1).drop_last() =~= regs.subrange(0, i as int));
            assert(regs.subrange(0, i + 1).last() == r);
        }
        if d == 0 || r.0 == d {
            selected.push((r.1, r.2));
        } else {
            kept.push(r);
        }
        i = i + 1;
    }
    proof {
        assert(regs.subrange(0, n as int) =~= regs);
    }
    state.registrations = kept;
    reversed(&selected)
}

/// The destructor registered last under a handle is the first one that
/// finalizing that handle runs, followed by those it ran before;
/// registering under one DSO leaves what finalizing another (non-null)
/// handle runs unchanged.
pub proof fn lemma_finalize_is_lifo(
    regs: Seq<Registration>,
    dso_handle: u32,
    func: u32,
    arg: u32,
    other_handle: u32,
)
    requires
        other_handle != dso_handle,
        other_handle != 0,
    ensures
        finalize_order(regs.push((dso_handle, func, arg)), dso_handle) == seq![(func, arg)]
            + finalize_order(regs, dso_handle),
        finalize_order(regs.push((dso_handle, func, arg)), other_handle) == finalize_order(
            regs,
            other_handle,
        ),
{
    let r = regs.push((dso_handle, func, arg));
    assert(r.drop_last() =~= regs);
    let s = destructors_of(regs, dso_handle);
    assert(s.push((func, arg)).reverse() =~= seq![(func, arg)] + s.reverse());
}

proof fn lemma_null_handle_selects_all(regs: Seq<Registration>)
    ensures
        destructors_of(regs, 0) == regs.map_values(|r: Registration| (r.1, r.2)),
        after_finalize(regs, 0) == Seq::<Registration>::empty(),
    decreases regs.len(),
{
    if regs.len() > 0 {
        lemma_null_handle_selects_all(regs.drop_last());
        assert(regs.map_values(|r: Registration| (r.1, r.2)) =~= regs.drop_last().map_values(
            |r: Registration| (r.1, r.2),
        ).push((regs.last().1, regs.last().2)));
    } else {
        assert(regs.map_values(|r: Registration| (r.1, r.2)) =~= Seq::<Destructor>::empty());
    }
}

/// Finalizing with a null handle runs every registered destructor, whatever
/// its handle, last registered first, and leaves nothing registered.
pub proof fn lemma_finalize_null_runs_everything(regs: Seq<Registration>)
    ensures
        finalize_order(regs, 0) == regs.map_values(|r: Registration| (r.1, r.2)).reverse(),
        after_finalize(regs, 0) == Seq::<Registration>::empty(),
{
    lemma_null_handle_selects_all(regs);
}

/// Whether a registration is not for DSO `d`.
pub open spec fn not_for(d: u32) -> spec_fn(Registration) -> bool {
    |r: Registration| r.0 != d
}

/// Finalizing a non-null handle `d` keeps exactly the registrations made
/// for other handles, in registration order.
pub proof fn lemma_finalize_keeps_other_dsos(regs: Seq<Registration>, d: u32)
    requires
        d != 0,
    ensures
        after_finalize(regs, d) == regs.filter(not_for(d)),
    decreases regs.len(),
{
    reveal(Seq::filter);
    if regs.len() > 0 {
        lemma_finalize_keeps_other_dsos(regs.drop_last(), d);
    }
}

/// Whether a registration is for DSO `d`.
pub open spec fn is_for(d: u32) -> spec_fn(Registration) -> bool {
    |r: Registration| r.0 == d
}

/// A registration's destructor and argument.
pub open spec fn destructor(r: Registration) -> Destructor {
    (r.1, r.2)
}

proof fn lemma_destructors_of_dso(regs: Seq<Registration>, d: u32)
    requires
        d != 0,
    ensures
        destructors_of(regs, d) == regs.filter(is_for(d)).map_values(|r: Registration| destructor(r)),
    decreases regs.len(),
{
    reveal(Seq::filter);
    if regs.len() > 0 {
        lemma_destructors_of_dso(regs.drop_last(), d);
        let f = regs.drop_last().filter(is_for(d));
        assert(f.push(regs.last()).map_values(|r: Registration| destructor(r)) =~= f.map_values(
            |r: Registration| destructor(r),
        ).push(destructor(regs.last())));
    } else {
        assert(regs.filter(is_for(d)).map_values(|r: Registration| destructor(r))
            =~= Seq::<Destructor>::empty());
    }
}

/// Finalizing a non-null handle `d` runs exactly the destructors registered
/// for `d`, last registered first.
pub proof fn lemma_finalize_runs_own_destructors(regs: Seq<Registration>, d: u32)
    requires
        d != 0,
    ensures
        finalize_order(regs, d) == regs.filter(is_for(d)).map_values(|r: Registration| destructor(r)).reverse(),
{
    lemma_destructors_of_dso(regs, d);
}

proof fn lemma_other_destructors_kept(regs: Seq<Registration>, d: u32, e: u32)
    requires
        d != 0,
        e != 0,
        d != e,
    ensures
        destructors_of(after_finalize(regs, d), e) == destructors_of(regs, e),
    decreases regs.len(),
{
    if regs.len() > 0 {
        lemma_other_destructors_kept(regs.drop_last(), d, e);
        let rest = after_finalize(regs.drop_last(), d);
        if !finalized_by(regs.last().0, d) {
            assert(rest.push(regs.last()).drop_last() =~= rest);
        }
    }
}

/// Finalizing one non-null handle changes nothing about what finalizing
/// another non-null handle runs afterwards.
pub proof fn lemma_finalize_leaves_other_dsos_alone(regs: Seq<Registration>, d: u32, e: u32)
    requires
        d != 0,
        e != 0,
        d != e,
    ensures
        finalize_order(after_finalize(regs, d), e) == finalize_order(regs, e),
{
    lemma_other_destructors_kept(regs, d, e);
}

/// Once a handle is finalized, finalizing it again runs nothing.
pub proof fn lemma_finalize_twice_runs_nothing(regs: Seq<Registration>, d: u32)
    ensures
        finalize_order(after_finalize(regs, d), d) == Seq::<Destructor>::empty(),
    decreases regs.len(),
{
    if regs.len() > 0 {
        lemma_finalize_twice_runs_nothing(regs.drop_last(), d);
        let rest = after_finalize(regs.drop_last(), d);
        if !finalized_by(regs.last().0, d) {
            assert(rest.push(regs.last()).drop_last() =~= rest);
        }
    }
    assert(destructors_of(after_finalize(regs, d), d) =~= Seq::<Destructor>::empty());
}

// ARM EHABI states
pub const US_VIRTUAL_UNWIND_FRAME: i32 = 0;
pub const US_UNWIND_FRAME_STARTING: i32 = 1;
pub const US_UNWIND_FRAME_RESUME: i32 = 2;

// Return values for personality routine
pub const URC_HANDLER_FOUND: i32 = 6;
pub const URC_INSTALL_CONTEXT: i32 = 7;
pub const URC_CONTINUE_UNWIND: i32 = 8;

/// The personality routine's answer for an unwind `state`.
pub open spec fn spec_personality(state: i32) -> i32 {
    if state == US_UNWIND_FRAME_RESUME {
        URC_INSTALL_CONTEXT
    } else {
        URC_CONTINUE_UNWIND
    }
}

/// `___objc_personality_v0(state, exception, context)`: Objective-C
/// exceptions are not caught, so both unwinding phases (and any unknown
/// state) continue unwinding, and resuming a frame installs its context.
/// The second component tells whether `state` is a known EHABI state (the
/// runtime warns about unknown ones).
pub fn ___objc_personality_v0(state: i32, exception: u32, context: u32) -> (r: (i32, bool))
    ensures
        r.0 == spec_personality(state),
        r.1 == (US_VIRTUAL_UNWIND_FRAME <= state <= US_UNWIND_FRAME_RESUME),
{
    if state == US_VIRTUAL_UNWIND_FRAME {
        // Phase 1: Search for handler. Objective-C exceptions are not
        // handled, so unwinding just continues.
        (URC_CONTINUE_UNWIND, true)
    } else if state == US_UNWIND_FRAME_STARTING {
        // Phase 2: Cleanup
        (URC_CONTINUE_UNWIND, true)
    } else if state == US_UNWIND_FRAME_RESUME {
        // Resume unwinding
        (URC_INSTALL_CONTEXT, true)
    } else {
        (URC_CONTINUE_UNWIND, false)
    }
}

} // verus!
