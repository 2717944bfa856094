use vstd::prelude::*;

verus! {

/// A storage cell with a lock flag used by multi-segment SDO transfers.
///
/// While a segmented transfer is in flight the SDO server sets `locked`;
/// every later segment checks that the flag still holds. The application
/// acquires the value through [`OdCell::get_mut`], which clears the flag, so
/// a transfer that raced with local mutation observes the lost lock and
/// aborts instead of mixing old and new bytes.
pub struct OdCell<T> {
    pub value: T,
    pub locked: bool,
}

impl<T> OdCell<T> {
    /// Wrap a value; the cell starts unlocked.
    pub fn new(value: T) -> (r: Self)
        ensures
            r.value == value,
            !r.locked,
    {
        Self { value, locked: false }
    }

    pub fn is_locked(&self) -> (r: bool)
        ensures
            r == self.locked,
    {
        self.locked
    }

    /// Read access; the lock state is untouched.
    pub fn get(&self) -> (r: &T)
        ensures
            r == &self.value,
    {
        &self.value
    }

    /// Exclusive access for the application; any transfer lock is lost.
    pub fn get_mut(&mut self) -> (r: &mut T)
        ensures
            *r == old(self).value,
            final(self).value == *final(r),
            !final(self).locked,
    {
        self.locked = false;
        &mut self.value
    }

    /// Exclusive access on behalf of a transfer that already holds the lock.
    pub(crate) fn get_mut_unchecked(&mut self) -> (r: &mut T)
        ensures
            *r == old(self).value,
            final(self).value == *final(r),
            final(self).locked == old(self).locked,
    {
        &mut self.value
    }

    pub(crate) fn lock(&mut self)
        ensures
            final(self).value == old(self).value,
            final(self).locked,
    {
        self.locked = true;
    }

    pub(crate) fn unlock(&mut self)
        ensures
            final(self).value == old(self).value,
            !final(self).locked,
    {
        self.locked = false;
    }
}

} // verus!
