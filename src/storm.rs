use vstd::prelude::*;

use crate::chip::{Sam4l, NUM_INTERRUPTS};
use crate::platform::{Chip, Platform};

verus! {

/// Syscall driver number of the console.
pub const CONSOLE_DRIVER: usize = 0;

/// Syscall driver number of the GPIO pins.
pub const GPIO_DRIVER: usize = 1;

/// Syscall driver number of the TMP006 temperature sensor.
pub const TMP006_DRIVER: usize = 2;

/// The Firestorm board: a SAM4L chip and the drivers it exposes to
/// processes, each of the board's driver type `D`.
pub struct Firestorm<D> {
    chip: Sam4l,
    console: D,
    gpio: D,
    tmp006: D,
}

impl<D> Firestorm<D> {
    pub closed spec fn chip_spec(&self) -> Sam4l {
        self.chip
    }

    /// The driver bound to `driver_num`: the console, the GPIO pins and the
    /// temperature sensor at 0, 1 and 2, nothing elsewhere.
    pub closed spec fn lookup(&self, driver_num: usize) -> Option<&D> {
        if driver_num == CONSOLE_DRIVER {
            Some(&self.console)
        } else if driver_num == GPIO_DRIVER {
            Some(&self.gpio)
        } else if driver_num == TMP006_DRIVER {
            Some(&self.tmp006)
        } else {
            None
        }
    }

    /// Handles every pending interrupt of the chip.
    pub fn service_pending_interrupts(&mut self)
        ensures
            !final(self).chip_spec().pending_spec(),
            final(self).chip_spec().lines().len() == old(self).chip_spec().lines().len(),
            final(self).lookup(CONSOLE_DRIVER) == old(self).lookup(CONSOLE_DRIVER),
            final(self).lookup(GPIO_DRIVER) == old(self).lookup(GPIO_DRIVER),
            final(self).lookup(TMP006_DRIVER) == old(self).lookup(TMP006_DRIVER),
    {
        self.chip.service_pending_interrupts()
    }

    /// Whether some interrupt of the chip is pending.
    pub fn has_pending_interrupts(&self) -> (r: bool)
        ensures
            r == self.chip_spec().pending_spec(),
    {
        self.chip.has_pending_interrupts()
    }

    /// A hardware event on the chip's interrupt line `line`.
    pub fn raise_interrupt(&mut self, line: usize)
        ensures
            line < old(self).chip_spec().lines().len() ==> final(self).chip_spec().lines()
                == old(self).chip_spec().lines().update(line as int, true),
            line >= old(self).chip_spec().lines().len() ==> final(self).chip_spec().lines()
                == old(self).chip_spec().lines(),
            forall|n: usize| #[trigger] final(self).lookup(n) == old(self).lookup(n),
    {
        self.chip.raise_interrupt(line)
    }

    /// Calls `f` with the driver bound to `driver_num` (see `lookup`) and
    /// returns what `f` returns.
    pub fn with_driver<F, R>(&self, driver_num: usize, f: F) -> (r: R) where
        F: FnOnce(Option<&D>) -> R,
        requires
            f.requires((self.lookup(driver_num),)),
        ensures
            f.ensures((self.lookup(driver_num),), r),
    {
        match driver_num {
            0 => f(Some(&self.console)),
            1 => f(Some(&self.gpio)),
            2 => f(Some(&self.tmp006)),
            _ => f(None),
        }
    }
}

impl<D> Platform for Firestorm<D> {
    type Driver = D;

    open spec fn driver_spec(&self, driver_num: usize) -> Option<&D> {
        self.lookup(driver_num)
    }

    fn with_driver<F, R>(&self, driver_num: usize, f: F) -> (r: R) where
        F: FnOnce(Option<&D>) -> R,
    {
        Firestorm::with_driver(self, driver_num, f)
    }
}

/// Brings up the board: a freshly reset SAM4L, with `console`, `gpio` and
/// `tmp006` bound to driver numbers 0, 1 and 2.
pub fn init<D>(console: D, gpio: D, tmp006: D) -> (r: Firestorm<D>)
    ensures
        r.lookup(CONSOLE_DRIVER) == Some(&console),
        r.lookup(GPIO_DRIVER) == Some(&gpio),
        r.lookup(TMP006_DRIVER) == Some(&tmp006),
        forall|n: usize| n > TMP006_DRIVER ==> #[trigger] r.lookup(n) is None,
        r.chip_spec().lines().len() == NUM_INTERRUPTS,
        !r.chip_spec().pending_spec(),
{
    Firestorm { chip: Sam4l::new(), console, gpio, tmp006 }
}

} // verus!
