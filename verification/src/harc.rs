//! Capability handles: a value together with the identifier under which the
//! environment tracks the resource behind it.
use vstd::prelude::*;
use vstd::std_specs::cmp::PartialEqSpec;
use vstd::std_specs::cmp::PartialEqSpecImpl;
use vstd::std_specs::cmp::PartialOrdSpec;
use vstd::std_specs::cmp::PartialOrdSpecImpl;
use crate::path::Uid;
use crate::rsc::Constant;
use crate::rsc::Handle;
use std::borrow::Borrow;
use std::cmp::Ordering;
use std::ops::Deref;
use std::ops::DerefMut;
use std::sync::Arc;

verus! {

/// A capability handle that several owners share.
pub type Darc<T> = Arc<DeallocHandle<T>>;

/// A snapshot that several owners share.
pub type Sarc<T> = Arc<Snapshot<T>>;

/// Handle to a resource of constant nature: the value, and the identifier
/// under which the environment counts the live references to the resource.
///
/// Two handles with the same identifier denote the same resource and count
/// as equal, whatever values they hold.
pub struct DeallocHandle<T> {
    uid: Uid,
    t: T,
}

impl<T> DeallocHandle<T> {
    /// The value that the handle holds.
    pub closed spec fn payload(&self) -> T {
        self.t
    }

    /// A handle to the resource that the environment tracks under `uid`,
    /// holding `t`.
    pub fn new(uid: Uid, t: T) -> (h: Self)
        ensures
            h.id() == uid,
            h.payload() == t,
    {
        DeallocHandle { uid, t }
    }

    /// The identifier under which the environment tracks the resource.
    pub fn kobzar_uid(&self) -> (u: Uid)
        ensures
            u == self.id(),
    {
        self.uid
    }
}

impl<T> Handle for DeallocHandle<T> {
    closed spec fn id(&self) -> Uid {
        self.uid
    }

    fn uid(&self) -> (u: Uid) {
        self.uid
    }
}

impl<T> Constant for DeallocHandle<T> {

}

impl<T> Deref for DeallocHandle<T> {
    type Target = T;

    fn deref(&self) -> (t: &T)
        ensures
            *t == self.payload(),
    {
        &self.t
    }
}

impl<T> DerefMut for DeallocHandle<T> {
    fn deref_mut(&mut self) -> (t: &mut T)
        ensures
            *t == old(self).payload(),
            final(self).payload() == *final(t),
            final(self).id() == old(self).id(),
    {
        &mut self.t
    }
}

impl<T> Borrow<T> for DeallocHandle<T> {
    fn borrow(&self) -> &T
        returns
            self.payload(),
    {
        &self.t
    }
}

impl<T: PartialEq> PartialEq for DeallocHandle<T> {
    /// Handles with the same identifier are equal; others are compared by
    /// value.
    fn eq(&self, other: &Self) -> (same: bool)
        ensures
            self.id() == other.id() ==> same,
    {
        if self.uid == other.uid {
            true
        } else {
            self.t == other.t
        }
    }
}

impl<T: PartialEq> PartialEqSpecImpl for DeallocHandle<T> {
    open spec fn obeys_eq_spec() -> bool {
        T::obeys_eq_spec()
    }

    open spec fn eq_spec(&self, other: &Self) -> bool {
        self.id() == other.id() || self.payload().eq_spec(&other.payload())
    }
}

impl<T: Eq> Eq for DeallocHandle<T> {

}

impl<T: PartialOrd> PartialOrd for DeallocHandle<T> {
    /// Handles with the same identifier are equal; others are ordered by
    /// value.
    fn partial_cmp(&self, other: &Self) -> (o: Option<Ordering>)
        ensures
            self.id() == other.id() ==> o == Some(Ordering::Equal),
    {
        if self.uid == other.uid {
            Some(Ordering::Equal)
        } else {
            self.t.partial_cmp(&other.t)
        }
    }
}

impl<T: PartialOrd> PartialOrdSpecImpl for DeallocHandle<T> {
    open spec fn obeys_partial_cmp_spec() -> bool {
        T::obeys_partial_cmp_spec()
    }

    open spec fn partial_cmp_spec(&self, other: &Self) -> Option<Ordering> {
        if self.id() == other.id() {
            Some(Ordering::Equal)
        } else {
            self.payload().partial_cmp_spec(&other.payload())
        }
    }
}

/// Two handles with the same identifier are equal, whatever they hold.
pub proof fn same_uid_same_handle<T: PartialEq>(a: DeallocHandle<T>, b: DeallocHandle<T>)
    requires
        a.id() == b.id(),
    ensures
        PartialEqSpec::eq_spec(&a, &b),
{
}

/// Handle to data that may change on the environment's side: the value as of
/// the time the handle was made or last updated.
///
/// Two snapshots with the same identifier denote the same resource and count
/// as equal, whatever values they hold.
pub struct Snapshot<T: Clone> {
    uid: Uid,
    t: T,
}

impl<T: Clone> Snapshot<T> {
    /// The value that the snapshot holds.
    pub closed spec fn payload(&self) -> T {
        self.t
    }

    /// This snapshot with `latest` in place of its value.
    pub closed spec fn with_payload(self, latest: T) -> Self {
        Snapshot { uid: self.uid, t: latest }
    }

    /// A snapshot of the resource that the environment tracks under `uid`,
    /// holding `t`.
    pub fn new(uid: Uid, t: T) -> (s: Self)
        ensures
            s.id() == uid,
            s.payload() == t,
    {
        Snapshot { uid, t }
    }

    /// Update information in the snapshot: `latest` is the value that the
    /// environment downloaded for it. The identifier stays.
    pub fn update(&mut self, latest: T)
        ensures
            *final(self) == old(self).with_payload(latest),
            final(self).id() == old(self).id(),
            final(self).payload() == latest,
    {
        self.t = latest;
    }

    /// A fresh snapshot of the same resource that holds `latest`, the value
    /// that the environment downloaded for it. This one stays as it is.
    pub fn download_latest(&self, latest: T) -> (fresh: Self)
        ensures
            fresh == self.with_payload(latest),
            fresh.id() == self.id(),
            fresh.payload() == latest,
    {
        Snapshot { uid: self.uid, t: latest }
    }
}

impl<T: Clone> Handle for Snapshot<T> {
    closed spec fn id(&self) -> Uid {
        self.uid
    }

    fn uid(&self) -> (u: Uid) {
        self.uid
    }
}

impl<T: Clone> Clone for Snapshot<T> {
    fn clone(&self) -> (s: Self)
        ensures
            s.id() == self.id(),
            cloned(self.payload(), s.payload()),
    {
        Snapshot { uid: self.uid, t: self.t.clone() }
    }
}

impl<T: Clone> Deref for Snapshot<T> {
    type Target = T;

    fn deref(&self) -> (t: &T)
        ensures
            *t == self.payload(),
    {
        &self.t
    }
}

impl<T: Clone> DerefMut for Snapshot<T> {
    fn deref_mut(&mut self) -> (t: &mut T)
        ensures
            *t == old(self).payload(),
            final(self).payload() == *final(t),
            final(self).id() == old(self).id(),
    {
        &mut self.t
    }
}

impl<T: Clone> Borrow<T> for Snapshot<T> {
    fn borrow(&self) -> &T
        returns
            self.payload(),
    {
        &self.t
    }
}

impl<T: PartialEq + Clone> PartialEq for Snapshot<T> {
    /// Snapshots with the same identifier are equal; others are compared by
    /// value.
    fn eq(&self, other: &Self) -> (same: bool)
        ensures
            self.id() == other.id() ==> same,
    {
        if self.uid == other.uid {
            true
        } else {
            self.t == other.t
        }
    }
}

impl<T: PartialEq + Clone> PartialEqSpecImpl for Snapshot<T> {
    open spec fn obeys_eq_spec() -> bool {
        T::obeys_eq_spec()
    }

    open spec fn eq_spec(&self, other: &Self) -> bool {
        self.id() == other.id() || self.payload().eq_spec(&other.payload())
    }
}

impl<T: Eq + Clone> Eq for Snapshot<T> {

}

impl<T: PartialOrd + Clone> PartialOrd for Snapshot<T> {
    /// Snapshots with the same identifier are equal; others are ordered by
    /// value.
    fn partial_cmp(&self, other: &Self) -> (o: Option<Ordering>)
        ensures
            self.id() == other.id() ==> o == Some(Ordering::Equal),
    {
        if self.uid == other.uid {
            Some(Ordering::Equal)
        } else {
            self.t.partial_cmp(&other.t)
        }
    }
}

impl<T: PartialOrd + Clone> PartialOrdSpecImpl for Snapshot<T> {
    open spec fn obeys_partial_cmp_spec() -> bool {
        T::obeys_partial_cmp_spec()
    }

    open spec fn partial_cmp_spec(&self, other: &Self) -> Option<Ordering> {
        if self.id() == other.id() {
            Some(Ordering::Equal)
        } else {
            self.payload().partial_cmp_spec(&other.payload())
        }
    }
}

/// Two snapshots with the same identifier are equal, whatever they hold.
pub proof fn same_uid_same_snapshot<T: PartialEq + Clone>(a: Snapshot<T>, b: Snapshot<T>)
    requires
        a.id() == b.id(),
    ensures
        PartialEqSpec::eq_spec(&a, &b),
{
}

/// Updating is idempotent while the environment is quiet: a second update
/// with the value that the first one brought changes nothing.
pub proof fn update_is_idempotent<T: Clone>(s: Snapshot<T>, latest: T)
    ensures
        s.with_payload(latest).with_payload(latest) == s.with_payload(latest),
        s.with_payload(latest).payload() == latest,
        s.with_payload(latest).id() == s.id(),
{
}

/// `Arc::into_inner`: the value behind the handle, when this was the last
/// handle to it, and nothing otherwise. Which of the two depends on the other
/// owners.
#[verifier::external_body]
fn last_owner<H>(handle: Arc<H>) -> (inner: Option<H>)
    ensures
        inner matches Some(h) ==> h == *handle,
{
    Arc::into_inner(handle)
}

/// What an owner that lets go is left with, where `inner` is what the shared
/// handle gave it: if it was the last owner, the identifier under which the
/// resource is to be released, together with the value, which lives until
/// the environment has been told.
pub fn released<H: Handle>(inner: Option<H>) -> (last: Option<(Uid, H)>)
    ensures
        last == match inner {
            Some(h) => Some((h.id(), h)),
            None => None,
        },
{
    match inner {
        Some(h) => {
            let uid = h.uid();
            Some((uid, h))
        },
        None => None,
    }
}

/// Lets go of a shared handle. The owner that lets go last gets the
/// identifier under which the environment is to release the resource, and
/// the value, to be dropped after the environment has been told; every other
/// owner gets nothing. So the resource is released once per group of owners.
pub fn release<H: Handle>(handle: Arc<H>) -> (last: Option<(Uid, H)>)
    ensures
        last matches Some((uid, h)) ==> h == *handle && uid == handle.id(),
{
    released(last_owner(handle))
}

} // verus!
