//! Shared ownership of the driver's process-wide startup handle: several
//! sessions may coexist, the driver is started when the first appears and
//! shut down exactly when the last is released.

use vstd::prelude::*;

verus! {

/// An explicit reference count over the driver's startup handle. The owner
/// performs the driver's startup exactly when `acquire` answers `true` and
/// its shutdown exactly when `release` answers `true`; the count then says
/// at every moment how many holders the handle has.
pub struct StartupRegistry {
    count: u64,
}

impl StartupRegistry {
    /// How many holders the handle currently has.
    pub closed spec fn spec_count(&self) -> u64 {
        self.count
    }

    /// A registry with no holders: the driver is not started.
    pub fn new() -> (r: StartupRegistry)
        ensures
            r.spec_count() == 0,
    {
        StartupRegistry { count: 0 }
    }

    /// How many holders the handle currently has.
    pub fn count(&self) -> (r: u64)
        ensures
            r == self.spec_count(),
    {
        self.count
    }

    /// Registers one more holder; answers whether it is the first, in which
    /// case the caller must start the driver.
    pub fn acquire(&mut self) -> (first: bool)
        requires
            old(self).spec_count() < u64::MAX,
        ensures
            final(self).spec_count() == old(self).spec_count() + 1,
            first == (old(self).spec_count() == 0),
    {
        let first = self.count == 0;
        self.count = self.count + 1;
        first
    }

    /// Releases one holder; answers whether it was the last, in which case
    /// the caller must shut the driver down.
    pub fn release(&mut self) -> (last: bool)
        requires
            1 <= old(self).spec_count(),
        ensures
            final(self).spec_count() == old(self).spec_count() - 1,
            last == (old(self).spec_count() == 1),
    {
        self.count = self.count - 1;
        self.count == 0
    }
}

} // verus!
