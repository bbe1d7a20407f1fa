//! Plain models of guest (emulated 32-bit ARM) values shared by the modules:
//! object references, Objective-C integer types and the reference-count
//! effects that storing a retained reference has.
use vstd::prelude::*;

verus! {

/// A reference to a guest Objective-C object (a 32-bit guest address).
pub type Id = u32;

/// The null object reference.
pub const NIL: Id = 0;

/// A guest selector (a 32-bit guest address of the selector's name).
pub type Sel = u32;

/// `NSInteger` on the 32-bit guest.
pub type NSInteger = i32;

/// `NSUInteger` on the 32-bit guest.
pub type NSUInteger = u32;

/// A change to a guest object's reference count that the runtime performs.
#[derive(Clone, Copy, Debug, PartialEq, Eq, Structural)]
pub enum RefOp {
    Retain(Id),
    Release(Id),
}

/// `[Release(x)]` unless `x` is nil.
pub open spec fn release_unless_nil(x: Id) -> Seq<RefOp> {
    if x != NIL { seq![RefOp::Release(x)] } else { seq![] }
}

/// `[Retain(x)]` unless `x` is nil.
pub open spec fn retain_unless_nil(x: Id) -> Seq<RefOp> {
    if x != NIL { seq![RefOp::Retain(x)] } else { seq![] }
}

/// Stores `new` in a slot that owns a reference: the old value (if any) is
/// released first, then the new value (if any) is retained.
pub fn replace_retained(slot: &mut Id, new: Id) -> (ops: Vec<RefOp>)
    ensures
        *final(slot) == new,
        ops@ == release_unless_nil(*old(slot)) + retain_unless_nil(new),
{
    let mut ops: Vec<RefOp> = Vec::new();
    if *slot != NIL {
        ops.push(RefOp::Release(*slot));
    }
    if new != NIL {
        ops.push(RefOp::Retain(new));
    }
    *slot = new;
    proof {
        assert(ops@ =~= release_unless_nil(*old(slot)) + retain_unless_nil(new));
    }
    ops
}

/// Stores `new` in a slot that owns a reference, retaining the new value
/// (if any) before releasing the old value (if any).
pub fn replace_retained_retain_first(slot: &mut Id, new: Id) -> (ops: Vec<RefOp>)
    ensures
        *final(slot) == new,
        ops@ == retain_unless_nil(new) + release_unless_nil(*old(slot)),
{
    let mut ops: Vec<RefOp> = Vec::new();
    if new != NIL {
        ops.push(RefOp::Retain(new));
    }
    if *slot != NIL {
        ops.push(RefOp::Release(*slot));
    }
    *slot = new;
    proof {
        assert(ops@ =~= retain_unless_nil(new) + release_unless_nil(*old(slot)));
    }
    ops
}

/// Releases of every non-nil reference in `ids`, in order.
pub open spec fn release_all(ids: Seq<Id>) -> Seq<RefOp>
    decreases ids.len(),
{
    if ids.len() == 0 {
        seq![]
    } else {
        release_all(ids.drop_last()) + release_unless_nil(ids.last())
    }
}

/// A value decoded from an archive if the archive holds one, else the
/// current value.
pub open spec fn decoded_or<T>(decoded: Option<T>, current: T) -> T {
    match decoded {
        Some(v) => v,
        None => current,
    }
}

/// A decoded object unless it is nil, else the current value.
pub open spec fn nonnil_or(decoded: Id, current: Id) -> Id {
    if decoded != NIL { decoded } else { current }
}

/// A retain of every reference in `ids`, in order.
pub open spec fn retain_each(ids: Seq<Id>) -> Seq<RefOp> {
    ids.map_values(|x: Id| RefOp::Retain(x))
}

/// A release of every reference in `ids`, in order.
pub open spec fn release_each(ids: Seq<Id>) -> Seq<RefOp> {
    ids.map_values(|x: Id| RefOp::Release(x))
}

/// Releases of the non-nil references in `ids`, in order.
pub fn releases_unless_nil(ids: &Vec<Id>) -> (ops: Vec<RefOp>)
    ensures
        ops@ == release_all(ids@),
{
    let mut ops: Vec<RefOp> = Vec::new();
    let mut i: usize = 0;
    while i < ids.len()
        invariant
            i <= ids.len(),
            ops@ == release_all(ids@.subrange(0, i as int)),
        decreases ids.len() - i,
    {
        proof {
            assert(ids@.subrange(0, i as int + 1).drop_last() =~= ids@.subrange(0, i as int));
        }
        if ids[i] != NIL {
            ops.push(RefOp::Release(ids[i]));
        }
        i = i + 1;
    }
    proof {
        assert(ids@.subrange(0, ids.len() as int) =~= ids@);
    }
    ops
}

/// Appends a release of every reference in `ids` to `ops`.
pub fn push_release_each(ops: &mut Vec<RefOp>, ids: &Vec<Id>)
    ensures
        final(ops)@ == old(ops)@ + release_each(ids@),
{
    let mut i: usize = 0;
    while i < ids.len()
        invariant
            i <= ids.len(),
            ops@ == old(ops)@ + release_each(ids@.subrange(0, i as int)),
        decreases ids.len() - i,
    {
        ops.push(RefOp::Release(ids[i]));
        i = i + 1;
        proof {
            assert(release_each(ids@.subrange(0, i as int)) =~= release_each(
                ids@.subrange(0, i - 1),
            ).push(RefOp::Release(ids@[i - 1])));
        }
    }
    proof {
        assert(ids@.subrange(0, ids.len() as int) =~= ids@);
    }
}

/// Appends each reference of `ids` to `items` and a retain of it to `ops`.
pub fn push_retained_each(items: &mut Vec<Id>, ops: &mut Vec<RefOp>, ids: &Vec<Id>)
    ensures
        final(items)@ == old(items)@ + ids@,
        final(ops)@ == old(ops)@ + retain_each(ids@),
{
    let mut i: usize = 0;
    while i < ids.len()
        invariant
            i <= ids.len(),
            items@ == old(items)@ + ids@.subrange(0, i as int),
            ops@ == old(ops)@ + retain_each(ids@.subrange(0, i as int)),
        decreases ids.len() - i,
    {
        ops.push(RefOp::Retain(ids[i]));
        items.push(ids[i]);
        i = i + 1;
        proof {
            assert(ids@.subrange(0, i as int) =~= ids@.subrange(0, i - 1).push(ids@[i - 1]));
            assert(retain_each(ids@.subrange(0, i as int)) =~= retain_each(
                ids@.subrange(0, i - 1),
            ).push(RefOp::Retain(ids@[i - 1])));
        }
    }
    proof {
        assert(ids@.subrange(0, ids.len() as int) =~= ids@);
    }
}

/// The references a list holds after it is replaced by `new` (None: no
/// array given).
pub open spec fn list_or_empty(new: Option<Vec<Id>>) -> Seq<Id> {
    match new {
        Some(v) => v@,
        None => Seq::<Id>::empty(),
    }
}

/// Replaces the references a list owns by those of `new`: every old
/// reference is released, then every new one is retained as it is stored.
pub fn replace_retained_list(items: &mut Vec<Id>, new: Option<Vec<Id>>) -> (ops: Vec<RefOp>)
    ensures
        final(items)@ == list_or_empty(new),
        ops@ == release_each(old(items)@) + retain_each(list_or_empty(new)),
{
    let mut ops: Vec<RefOp> = Vec::new();
    push_release_each(&mut ops, items);
    items.clear();
    if let Some(v) = new {
        push_retained_each(items, &mut ops, &v);
    }
    proof {
        assert(final(items)@ =~= list_or_empty(new));
        assert(ops@ =~= release_each(old(items)@) + retain_each(list_or_empty(new)));
    }
    ops
}

} // verus!
