use vstd::prelude::*;

verus! {

/// Operations that every peripheral clock supports. A clock is shared by all the
/// peripherals wired to it; enabling or disabling it again is harmless.
pub trait ClockInterface {
    /// Whether the clock currently runs.
    spec fn is_on(&self) -> bool;

    fn is_enabled(&self) -> (r: bool)
        ensures
            r == self.is_on(),
    ;

    fn enable(&mut self)
        ensures
            final(self).is_on(),
    ;

    fn disable(&mut self)
        ensures
            !final(self).is_on(),
    ;
}

/// A single hardware clock, identified by its number in the power manager and
/// holding its on/off state.
#[derive(Clone, Copy, PartialEq, Eq, Structural)]
pub struct PeripheralClock {
    pub id: usize,
    pub enabled: bool,
}

impl PeripheralClock {
    /// Clock `id` in the given state.
    pub fn new(id: usize, enabled: bool) -> (r: PeripheralClock)
        ensures
            r == (PeripheralClock { id, enabled }),
    {
        PeripheralClock { id, enabled }
    }

    /// The clock after `enable`: same identity, switched on.
    pub open spec fn enabled_spec(self) -> PeripheralClock {
        PeripheralClock { enabled: true, ..self }
    }

    /// The clock after `disable`: same identity, switched off.
    pub open spec fn disabled_spec(self) -> PeripheralClock {
        PeripheralClock { enabled: false, ..self }
    }
}

impl ClockInterface for PeripheralClock {
    open spec fn is_on(&self) -> bool {
        self.enabled
    }

    fn is_enabled(&self) -> (r: bool) {
        self.enabled
    }

    fn enable(&mut self)
        ensures
            *final(self) == old(self).enabled_spec(),
    {
        self.enabled = true;
    }

    fn disable(&mut self)
        ensures
            *final(self) == old(self).disabled_spec(),
    {
        self.enabled = false;
    }
}

/// Enabling a clock twice leaves it as enabling it once does, and the same
/// holds for disabling it.
pub proof fn lemma_clock_idempotent(c: PeripheralClock)
    ensures
        c.enabled_spec().enabled_spec() == c.enabled_spec(),
        c.disabled_spec().disabled_spec() == c.disabled_spec(),
{
}

} // verus!
