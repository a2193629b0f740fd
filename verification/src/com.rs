//! The reference-counted foreign-object handle.
//!
//! A COM interface lives behind an opaque pointer and manages its own
//! lifetime through an external reference count: one increment for every
//! share, one decrement for every release, self-destruction when the count
//! reaches zero.  [`Com`] is the wrapper that takes part in that protocol.
//! The count itself belongs to the foreign object; [`ComObject`] models that
//! piece of foreign state as a plain counter, so the protocol's bookkeeping
//! can be stated and checked against it.

use vstd::prelude::*;

verus! {

/// Model of an externally reference-counted object: the one piece of its
/// state the wrapper's protocol touches, the reference count the foreign
/// runtime keeps.  A fresh object stands for the result of a factory call,
/// which already carries one implicit reference.
pub struct ComObject {
    /// The external reference count.
    pub refs: u64,
}

/// What one retain does to the foreign object: one more reference.
pub open spec fn spec_retain(o: ComObject) -> ComObject {
    ComObject { refs: (o.refs + 1) as u64 }
}

/// What one release does to the foreign object: one reference fewer.
pub open spec fn spec_release(o: ComObject) -> ComObject {
    ComObject { refs: (o.refs - 1) as u64 }
}

/// `k` retains in a row.
pub open spec fn spec_retain_n(o: ComObject, k: nat) -> ComObject
    decreases k,
{
    if k == 0 {
        o
    } else {
        spec_retain(spec_retain_n(o, (k - 1) as nat))
    }
}

/// `k` releases in a row.
pub open spec fn spec_release_n(o: ComObject, k: nat) -> ComObject
    decreases k,
{
    if k == 0 {
        o
    } else {
        spec_release_n(spec_release(o), (k - 1) as nat)
    }
}

impl ComObject {
    /// A fresh foreign object as a factory hands it out: its count already
    /// holds the one reference the caller receives.
    pub fn new() -> (o: ComObject)
        ensures
            o.refs == 1,
    {
        ComObject { refs: 1 }
    }

    /// The current external reference count.
    pub fn count(&self) -> (r: u64)
        ensures
            r == self.refs,
    {
        self.refs
    }
}

/// A non-null handle to an externally reference-counted object.
///
/// The wrapper never frees the object itself; it only retains and releases
/// through the object's own protocol.  A value of this type always holds a
/// non-null handle: construction from null is rejected at the boundary.
pub struct Com {
    raw: u64,
}

impl Com {
    /// The raw handle value.
    pub closed spec fn addr(&self) -> u64 {
        self.raw
    }

    /// Every live wrapper holds a non-null handle.
    #[verifier::type_invariant]
    pub closed spec fn wf(&self) -> bool {
        self.raw != 0
    }

    /// Returns a new instance with the passed handle, which must not be
    /// null.  The handle is assumed to carry one implicit reference already
    /// (the one the factory call produced), so nothing is retained here.
    pub fn with_ptr(raw: u64) -> (c: Com)
        requires
            raw != 0,
        ensures
            c.addr() == raw,
    {
        Com { raw }
    }

    /// Construction with the null check at the boundary: a null handle is
    /// rejected, never silently accepted.
    pub fn try_with_ptr(raw: u64) -> (c: Option<Com>)
        ensures
            c is Some <==> raw != 0,
            c matches Some(h) ==> h.addr() == raw,
    {
        if raw == 0 {
            None
        } else {
            Some(Com { raw })
        }
    }

    /// The raw handle value, for passing to further foreign calls.
    pub fn as_ptr(&self) -> (r: u64)
        ensures
            r == self.addr(),
            r != 0,
    {
        proof {
            use_type_invariant(self);
        }
        self.raw
    }

    /// Shares the handle: retains one more reference on the foreign object
    /// and returns a new wrapper over the same handle.
    pub fn retain(&self, obj: &mut ComObject) -> (c: Com)
        requires
            0 < old(obj).refs < u64::MAX,
        ensures
            *final(obj) == spec_retain(*old(obj)),
            final(obj).refs == old(obj).refs + 1,
            c.addr() == self.addr(),
    {
        obj.refs = obj.refs + 1;
        Com { raw: self.as_ptr() }
    }

    /// Gives the wrapper's one reference back: releases it on the foreign
    /// object and consumes the wrapper, so each wrapper releases exactly
    /// once.  When the count reaches zero the object destroys itself; that
    /// is its own affair, invisible to this layer.
    pub fn release(self, obj: &mut ComObject)
        requires
            old(obj).refs > 0,
        ensures
            *final(obj) == spec_release(*old(obj)),
            final(obj).refs == old(obj).refs - 1,
    {
        obj.refs = obj.refs - 1;
    }
}

/// Law: sharing a handle and then dropping the share leaves the foreign
/// object's reference count exactly as it was.
pub proof fn lemma_retain_release_balanced(o: ComObject)
    requires
        o.refs < u64::MAX,
    ensures
        spec_release(spec_retain(o)) == o,
{
}

/// Law: the count after `k` retains in a row is the old count plus `k`.
pub proof fn lemma_retain_n_count(o: ComObject, k: nat)
    requires
        o.refs + k <= u64::MAX,
    ensures
        spec_retain_n(o, k).refs == o.refs + k,
    decreases k,
{
    if k > 0 {
        lemma_retain_n_count(o, (k - 1) as nat);
    }
}

/// Law: the count after `k` releases in a row is the old count minus `k`.
pub proof fn lemma_release_n_count(o: ComObject, k: nat)
    requires
        k <= o.refs,
    ensures
        spec_release_n(o, k).refs == o.refs - k,
    decreases k,
{
    if k > 0 {
        lemma_release_n_count(spec_release(o), (k - 1) as nat);
    }
}

/// Law: one release per construction or share is a balanced protocol.  For
/// any number `k` of shares, `k` releases bring the foreign object's count
/// back to where it started, and the last owed release then takes back the
/// reference the construction carried.
pub proof fn lemma_protocol_balanced(o: ComObject, k: nat)
    requires
        0 < o.refs,
        o.refs + k <= u64::MAX,
    ensures
        spec_release_n(spec_retain_n(o, k), k) == o,
        spec_release_n(spec_retain_n(o, k), k + 1).refs == o.refs - 1,
{
    lemma_retain_n_count(o, k);
    lemma_release_n_count(spec_retain_n(o, k), k);
    lemma_release_n_count(spec_retain_n(o, k), k + 1);
    assert(spec_release_n(spec_retain_n(o, k), k) == o);
}

} // verus!
