//! The two roles that the data behind a handle can play.
use vstd::prelude::*;
use crate::path::Uid;

verus! {

/// Something that the environment tracks under an identifier.
pub trait Handle {
    /// The identifier under which the environment tracks the resource.
    spec fn id(&self) -> Uid;

    /// The identifier under which the environment tracks the resource.
    fn uid(&self) -> (u: Uid)
        ensures
            u == self.id(),
    ;
}

/// Handle to data that never changes while the handle lives.
pub trait Constant: Handle {

}

/// What a value of a variable resource becomes when the environment reports
/// `latest` for it: `latest`, if that is of the same resource, and else what
/// it was.
pub open spec fn refreshed<V: Handle>(current: V, latest: V) -> V {
    if latest.id() == current.id() {
        latest
    } else {
        current
    }
}

/// Data that changes network-wide. A value is right as of the time it was
/// downloaded; nothing is pushed to its holder, who asks for the newest when
/// it is needed.
pub trait Variable: Clone + Handle {
    /// Brings this value up to date with `latest`, the environment's newest
    /// view of the resource. A view of another resource is ignored.
    fn update(&mut self, latest: Self)
        ensures
            *final(self) == refreshed(*old(self), latest),
    ;

    /// The value that [`Self::update`] would leave, without changing this
    /// one.
    fn download_latest(&self, latest: Self) -> (fresh: Self)
        ensures
            fresh == refreshed(*self, latest),
    ;
}

/// Updating is idempotent while the environment is quiet: a second update
/// with the view that the first one brought changes nothing. And an update
/// never changes which resource a value is of.
pub proof fn refresh_is_idempotent<V: Handle>(current: V, latest: V)
    ensures
        refreshed(refreshed(current, latest), latest) == refreshed(current, latest),
        refreshed(current, latest).id() == current.id(),
{
}

} // verus!
