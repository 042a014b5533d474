use vstd::prelude::*;

use crate::platform::Chip;

verus! {

/// Number of interrupt lines of the SAM4L's interrupt controller.
pub const NUM_INTERRUPTS: usize = 80;

/// Base address of the Cortex-M memory protection unit.
pub const MPU_BASE: usize = 0xE000ED90;

/// Base address of the Cortex-M system tick timer.
pub const SYSTICK_BASE: usize = 0xE000E010;

/// Handle on the memory protection unit.
pub struct Mpu {
    pub base: usize,
}

/// Handle on the system tick timer.
pub struct SysTick {
    pub base: usize,
}

/// The SAM4L microcontroller: its interrupt lines, each pending or not, and
/// its MPU and SysTick.
pub struct Sam4l {
    pending: Vec<bool>,
    mpu: Mpu,
    systick: SysTick,
}

impl Sam4l {
    /// Pending state of each interrupt line.
    pub closed spec fn lines(&self) -> Seq<bool> {
        self.pending@
    }

    /// The chip after reset: every line quiet.
    pub fn new() -> (r: Sam4l)
        ensures
            r.lines().len() == NUM_INTERRUPTS,
            forall|i: int| 0 <= i < NUM_INTERRUPTS ==> !(#[trigger] r.lines()[i]),
    {
        let mut pending: Vec<bool> = Vec::new();
        let mut i: usize = 0;
        while i < NUM_INTERRUPTS
            invariant
                i <= NUM_INTERRUPTS,
                pending@.len() == i,
                forall|j: int| 0 <= j < i ==> !(#[trigger] pending@[j]),
            decreases NUM_INTERRUPTS - i,
        {
            pending.push(false);
            i = i + 1;
        }
        Sam4l { pending, mpu: Mpu { base: MPU_BASE }, systick: SysTick { base: SYSTICK_BASE } }
    }

    /// A hardware event on interrupt line `line`; a line the chip does not
    /// have is ignored.
    pub fn raise_interrupt(&mut self, line: usize)
        ensures
            line < old(self).lines().len() ==> final(self).lines() == old(self).lines().update(line as int, true),
            line >= old(self).lines().len() ==> final(self).lines() == old(self).lines(),
    {
        if line < self.pending.len() {
            self.pending.set(line, true);
        }
    }
}

impl Chip for Sam4l {
    type MPU = Mpu;
    type SysTick = SysTick;

    open spec fn pending_spec(&self) -> bool {
        exists|i: int| 0 <= i < self.lines().len() && #[trigger] self.lines()[i]
    }

    fn service_pending_interrupts(&mut self)
        ensures
            final(self).lines().len() == old(self).lines().len(),
    {
        let mut i: usize = 0;
        while i < self.pending.len()
            invariant
                i <= self.pending@.len(),
                self.pending@.len() == old(self).lines().len(),
                forall|j: int| 0 <= j < i ==> !(#[trigger] self.pending@[j]),
            decreases self.pending@.len() - i,
        {
            self.pending.set(i, false);
            i = i + 1;
        }
    }

    fn has_pending_interrupts(&self) -> (r: bool) {
        let mut i: usize = 0;
        while i < self.pending.len()
            invariant
                i <= self.pending@.len(),
                forall|j: int| 0 <= j < i ==> !(#[trigger] self.pending@[j]),
            decreases self.pending@.len() - i,
        {
            if self.pending[i] {
                assert(self.lines()[i as int]);
                return true;
            }
            i = i + 1;
        }
        false
    }

    fn mpu(&self) -> &Mpu {
        &self.mpu
    }

    fn systick(&self) -> &SysTick {
        &self.systick
    }
}

} // verus!
