use vstd::prelude::*;

use crate::clock::ClockInterface;

verus! {

/// A peripheral whose registers are memory mapped and driven by a clock.
/// The handle owns its register block and reaches its clock.
pub trait MMIOInterface {
    type MMIORegisterType;
    type MMIOClockType: ClockInterface;

    /// Current contents of the register block.
    spec fn registers_spec(&self) -> Self::MMIORegisterType;

    /// Current state of the peripheral's clock.
    spec fn clock_spec(&self) -> Self::MMIOClockType;

    /// Whether the clock may stop while the registers read `regs`.
    spec fn clock_may_stop(regs: Self::MMIORegisterType) -> bool;

    /// The register block at the peripheral's hardware address, for reading
    /// and writing; the clock is left as it is.
    fn get_hardware_address(&mut self) -> (r: &mut Self::MMIORegisterType)
        ensures
            *r == old(self).registers_spec(),
            final(self).registers_spec() == *final(r),
            final(self).clock_spec() == old(self).clock_spec(),
    ;

    /// The register block, for reading.
    fn registers(&self) -> (r: &Self::MMIORegisterType)
        ensures
            *r == self.registers_spec(),
    ;

    /// The peripheral's clock; the registers are left as they are.
    fn get_clock(&mut self) -> (r: &mut Self::MMIOClockType)
        ensures
            *r == old(self).clock_spec(),
            final(self).clock_spec() == *final(r),
            final(self).registers_spec() == old(self).registers_spec(),
    ;

    /// Whether it is safe to stop the clock with the registers reading
    /// `regs` (no transfer in flight, no armed interrupt to lose).
    fn can_disable_clock(&self, regs: &Self::MMIORegisterType) -> (r: bool)
        ensures
            r == Self::clock_may_stop(*regs),
    ;
}

/// What acquiring a register view does to the peripheral: the registers are
/// untouched and the clock runs; a clock that already ran is left alone.
pub open spec fn acquired<H: MMIOInterface>(before: H, now: H) -> bool {
    &&& now.registers_spec() == before.registers_spec()
    &&& now.clock_spec().is_on()
    &&& before.clock_spec().is_on() ==> now.clock_spec() == before.clock_spec()
}

/// What releasing a register view does to the peripheral: the registers are
/// untouched; the clock is stopped when the registers allow it, and left as
/// it is otherwise.
pub open spec fn released<H: MMIOInterface>(before: H, after: H) -> bool {
    &&& after.registers_spec() == before.registers_spec()
    &&& if H::clock_may_stop(before.registers_spec()) {
        !after.clock_spec().is_on()
    } else {
        after.clock_spec() == before.clock_spec()
    }
}

/// A scoped view of a peripheral's registers. While it lives the clock runs;
/// `release` ends it and stops the clock if the registers then allow it.
pub struct MMIOManager<'a, H: MMIOInterface> {
    pub periphal_hardware: &'a mut H,
}

impl<'a, H: MMIOInterface> MMIOManager<'a, H> {
    /// Starts a view of `hw`'s registers, switching its clock on if it was
    /// off.
    pub fn new(hw: &'a mut H) -> (m: MMIOManager<'a, H>)
        ensures
            acquired(*old(hw), *m.periphal_hardware),
            *final(m.periphal_hardware) == *final(hw),
    {
        let clock = hw.get_clock();
        if !clock.is_enabled() {
            clock.enable();
        }
        MMIOManager { periphal_hardware: hw }
    }

    /// The register block, for reading and writing through the view.
    pub fn registers(&mut self) -> (r: &mut H::MMIORegisterType)
        ensures
            *r == (*old(self).periphal_hardware).registers_spec(),
            (*final(self).periphal_hardware).registers_spec() == *final(r),
            (*final(self).periphal_hardware).clock_spec() == (*old(self).periphal_hardware).clock_spec(),
            *final(final(self).periphal_hardware) == *final(old(self).periphal_hardware),
    {
        self.periphal_hardware.get_hardware_address()
    }

    /// Ends the view: stops the clock if the registers, as they now read,
    /// allow it.
    pub fn release(self)
        ensures
            released(*old(self.periphal_hardware), *final(self.periphal_hardware)),
    {
        let hw = self.periphal_hardware;
        if hw.can_disable_clock(hw.registers()) {
            hw.get_clock().disable();
        }
    }
}

/// A clock that was off before a view is acquired is off again after the
/// view is released, provided the registers allowed it to stop; the work
/// done through the view touches only the registers.
pub proof fn lemma_clock_round_trip<H: MMIOInterface>(before: H, during: H, worked: H, after: H)
    requires
        !before.clock_spec().is_on(),
        acquired(before, during),
        worked.clock_spec() == during.clock_spec(),
        H::clock_may_stop(worked.registers_spec()),
        released(worked, after),
    ensures
        after.clock_spec().is_on() == before.clock_spec().is_on(),
{
}

/// When the registers forbid stopping the clock at release, the clock still
/// runs after the view is released, whatever its state before the view.
pub proof fn lemma_conservative_power_down<H: MMIOInterface>(before: H, during: H, worked: H, after: H)
    requires
        acquired(before, during),
        worked.clock_spec() == during.clock_spec(),
        !H::clock_may_stop(worked.registers_spec()),
        released(worked, after),
    ensures
        after.clock_spec().is_on(),
{
}

} // verus!
