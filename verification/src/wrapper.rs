//! Per-entity cache of the runtime-heap proxy handle that exposes the
//! entity to scripts.

use crate::runtime::Runtime;
use vstd::prelude::*;

verus! {

/// The slot holding an entity's proxy handle. Its invariant is identity
/// stability: once the slot is filled it never changes for the life of the
/// owning entity, so scripts always see the same proxy for the same entity.
#[derive(Clone, Copy, PartialEq, Eq, Structural)]
pub struct WrapperCache {
    pub handle: Option<u64>,
}

impl WrapperCache {
    /// An empty cache: the owning entity has no proxy yet.
    pub fn new() -> (c: WrapperCache)
        ensures
            c.handle is None,
    {
        WrapperCache { handle: None }
    }

    /// The cached proxy handle, or nothing when the entity was never
    /// wrapped.
    pub fn get(&self) -> (r: Option<u64>)
        ensures
            r == self.handle,
    {
        self.handle
    }

    /// Exposes the owning entity to scripts. The policy here is idempotent
    /// identity: the first call allocates the proxy on the runtime heap and
    /// caches its handle, every later call returns the cached handle and
    /// touches neither the cache nor the runtime.
    pub fn wrap(&mut self, rt: &mut Runtime) -> (h: u64)
        requires
            old(self).handle is None ==> old(rt).next_id < u64::MAX,
        ensures
            final(self).handle == Some(h),
            old(self).handle matches Some(h0) ==> h == h0 && *final(self) == *old(self)
                && *final(rt) == *old(rt),
            old(self).handle is None ==> h == old(rt).next_id
                && final(rt).next_id == old(rt).next_id + 1
                && final(rt).roots@ == old(rt).roots@,
    {
        match self.handle {
            Some(h0) => h0,
            None => {
                let h = rt.fresh_id();
                self.handle = Some(h);
                h
            },
        }
    }
}

} // verus!
