//! Lock protocol, scoped unlock and the error taxonomy of flash operations.
use crate::flash::{
    erase_all_outcome, erase_page_outcome, status_outcome, write_outcome, Flash, WRITE_SIZE,
};
use vstd::prelude::*;

verus! {

/// Marker for a controller in the locked state.
pub struct Locked;

/// Marker for a controller in the unlocked state.
pub struct Unlocked;

/// The two logical lock states of a controller.
#[derive(Clone, Copy, PartialEq, Eq, Structural, Debug)]
pub enum FlashStates {
    Locked,
    Unlocked,
}

/// Flash operation error.
#[derive(Clone, Copy, PartialEq, Eq, Structural, Debug)]
pub enum FlashError {
    /// Flash program and erase controller failed to unlock.
    UnlockFailed,
    /// The busy flag did not clear within the poll budget.
    Timeout,
    /// Address to be programmed contains a value different from erased before programming.
    ProgrammingError,
    /// Programming a write-protected address of the Flash memory.
    WriteProtectionError,
    /// Programming and erase controller is busy.
    Busy,
}

/// The result of a flash operation.
pub type FlashResult = Result<(), FlashError>;

/// A controller with a lock bit that guards programming and erasing.
pub trait Locking: Sized {
    /// The lock bit as the hardware holds it.
    spec fn locked(&self) -> bool;

    /// `after` is this controller once the unlock sequence has been written to it.
    spec fn unlocked_to(&self, after: Self) -> bool;

    /// `after` is this controller once its lock bit has been set.
    spec fn locked_to(&self, after: Self) -> bool;

    /// Reads the lock bit.
    fn is_locked(&self) -> (r: bool)
        ensures
            r == self.locked(),
    ;

    /// Runs the unlock sequence if the controller is locked; does nothing if
    /// it is not.
    fn unlock(&mut self)
        ensures
            old(self).locked() ==> old(self).unlocked_to(*final(self)),
            !old(self).locked() ==> *final(self) == *old(self),
    ;

    /// Sets the lock bit.
    fn lock(&mut self)
        ensures
            final(self).locked(),
            old(self).locked_to(*final(self)),
    ;

    /// Unlocks the controller if it is locked and hands it out in a guard that
    /// remembers whether to lock it again on release.
    fn unlock_guard(self) -> (g: UnlockGuard<Self>)
        ensures
            g.controller().locked() ==> g.should_relock(),
            g.should_relock() == self.locked(),
            self.locked() ==> self.unlocked_to(g.controller()),
            !self.locked() ==> g.controller() == self,
    {
        let locked = self.is_locked();
        let mut flash = self;
        // writing the keys to an unlocked controller stalls it
        if locked {
            flash.unlock();
        }
        UnlockGuard { flash, should_lock: locked }
    }
}

/// A controller held unlocked for the duration of a scope. `release` returns
/// it to the lock state it had when the guard was taken.
pub struct UnlockGuard<F> {
    pub(crate) flash: F,
    pub(crate) should_lock: bool,
}

impl<F> UnlockGuard<F> {
    /// The controller was locked when the guard was taken.
    pub closed spec fn should_relock(&self) -> bool {
        self.should_lock
    }

    /// The controller the guard holds.
    pub closed spec fn controller(&self) -> F {
        self.flash
    }
}

impl<F: Locking> UnlockGuard<F> {
    /// A guard never holds a locked controller that it will not lock again.
    pub open spec fn inv(&self) -> bool {
        self.controller().locked() ==> self.should_relock()
    }

    /// `r` is what releasing this guard hands back: locked again if the guard
    /// unlocked it, untouched otherwise.
    pub open spec fn relocked_as(&self, r: F) -> bool {
        &&& self.should_relock() ==> r.locked() && self.controller().locked_to(r)
        &&& !self.should_relock() ==> r == self.controller()
    }

    /// Whether the controller will be locked after release.
    pub fn should_lock(&self) -> (r: bool)
        ensures
            r == self.should_relock(),
    {
        self.should_lock
    }

    /// Read access to the controller.
    pub fn flash(&self) -> (r: &F)
        ensures
            *r == self.controller(),
    {
        &self.flash
    }

    /// Ends the scope: locks the controller again if the guard unlocked it.
    pub fn release(self) -> (r: F)
        ensures
            self.relocked_as(r),
    {
        let mut flash = self.flash;
        if self.should_lock {
            flash.lock();
        }
        flash
    }
}

impl UnlockGuard<Flash> {
    /// Checks the flash status.
    pub fn status(&mut self) -> (r: FlashResult)
        ensures
            r == status_outcome(old(self).controller()@.status()),
            final(self).controller()@ == old(self).controller()@.after_status_read(),
            final(self).should_relock() == old(self).should_relock(),
    {
        self.flash.status()
    }

    /// Programs `data` from `address` on; `UnlockFailed` if the controller
    /// did not unlock.
    pub fn write(&mut self, address: usize, data: &[u8]) -> (r: FlashResult)
        requires
            old(self).controller().wf(),
            old(self).controller()@.in_array(address as int, data@.len() as int),
            address % WRITE_SIZE == 0,
            data@.len() % WRITE_SIZE as nat == 0,
        ensures
            final(self).controller().wf(),
            final(self).should_relock() == old(self).should_relock(),
            final(self).controller()@.cr.lock == old(self).controller()@.cr.lock,
            old(self).controller()@.cr.lock ==> r == Err::<(), FlashError>(FlashError::UnlockFailed)
                && final(self).controller()@ == old(self).controller()@,
            !old(self).controller()@.cr.lock ==> write_outcome(
                old(self).controller()@,
                address,
                data@,
                r,
                final(self).controller()@,
            ),
    {
        if self.flash.is_locked() {
            return Err(FlashError::UnlockFailed);
        }
        self.flash.write(address, data)
    }

    /// Erases the page with index `page`; `UnlockFailed` if the controller
    /// did not unlock.
    pub fn erase_page(&mut self, page: u8) -> (r: FlashResult)
        requires
            old(self).controller().wf(),
            (page as int) < old(self).controller()@.page_count(),
        ensures
            final(self).controller().wf(),
            final(self).should_relock() == old(self).should_relock(),
            final(self).controller()@.cr.lock == old(self).controller()@.cr.lock,
            old(self).controller()@.cr.lock ==> r == Err::<(), FlashError>(FlashError::UnlockFailed)
                && final(self).controller()@ == old(self).controller()@,
            !old(self).controller()@.cr.lock ==> erase_page_outcome(
                old(self).controller()@,
                page,
                r,
                final(self).controller()@,
            ),
    {
        if self.flash.is_locked() {
            return Err(FlashError::UnlockFailed);
        }
        self.flash.erase_page(page)
    }

    /// Erases every page; `UnlockFailed` if the controller did not unlock.
    pub fn erase_all_pages(&mut self) -> (r: FlashResult)
        requires
            old(self).controller().wf(),
        ensures
            final(self).controller().wf(),
            final(self).should_relock() == old(self).should_relock(),
            final(self).controller()@.cr.lock == old(self).controller()@.cr.lock,
            old(self).controller()@.cr.lock ==> r == Err::<(), FlashError>(FlashError::UnlockFailed)
                && final(self).controller()@ == old(self).controller()@,
            !old(self).controller()@.cr.lock ==> erase_all_outcome(old(self).controller()@, r, final(self).controller()@),
    {
        if self.flash.is_locked() {
            return Err(FlashError::UnlockFailed);
        }
        self.flash.erase_all_pages()
    }
}

/// A guard restores the lock state it found: taken on an unlocked controller
/// it leaves it unlocked, taken on a locked one it leaves it locked, whatever
/// the scope did in between that kept the guard's invariant, failed
/// operations included.
pub proof fn lemma_guard_restores_lock_state<F: Locking>(before: F, at_release: UnlockGuard<F>, after: F)
    requires
        at_release.should_relock() == before.locked(),
        at_release.inv(),
        at_release.relocked_as(after),
    ensures
        after.locked() == before.locked(),
{
}

} // verus!
