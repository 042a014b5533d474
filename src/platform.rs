use vstd::prelude::*;

verus! {

/// Interface for individual boards: maps syscall driver numbers to the
/// driver objects the board wires up.
pub trait Platform {
    type Driver;

    /// The driver bound to `driver_num`, if any.
    spec fn driver_spec(&self, driver_num: usize) -> Option<&Self::Driver>;

    /// Calls `f` with the driver bound to `driver_num`, or with `None` where
    /// no driver is bound to it, and returns what `f` returns.
    fn with_driver<F, R>(&self, driver_num: usize, f: F) -> (r: R) where
        F: FnOnce(Option<&Self::Driver>) -> R,
        requires
            f.requires((self.driver_spec(driver_num),)),
        ensures
            f.ensures((self.driver_spec(driver_num),), r),
    ;
}

/// Interface for individual microcontrollers.
pub trait Chip {
    type MPU;
    type SysTick;

    /// Whether some interrupt source of the chip is pending.
    spec fn pending_spec(&self) -> bool;

    /// Handles every pending interrupt; none is pending afterwards unless
    /// new hardware events arrive.
    fn service_pending_interrupts(&mut self)
        ensures
            !final(self).pending_spec(),
    ;

    fn has_pending_interrupts(&self) -> (r: bool)
        ensures
            r == self.pending_spec(),
    ;

    fn mpu(&self) -> &Self::MPU;

    fn systick(&self) -> &Self::SysTick;

    /// Called before the core waits in a low-power state.
    fn prepare_for_sleep(&self) {
    }
}

} // verus!
