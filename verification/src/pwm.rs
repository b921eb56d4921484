//! The contract of a pulse-width-modulated output.

use vstd::prelude::*;

verus! {

/// One pulse-width-modulated output.
///
/// The three spec functions are the model of an output: a switch, the duty it
/// is set to, and the largest duty it takes. The methods say how each of them
/// moves the model, and what it leaves alone.
pub trait PwmPin {
    /// The type of a duty value.
    type Duty;

    /// Whether the output is switched on.
    spec fn enabled(&self) -> bool;

    /// The duty the output is set to.
    spec fn duty(&self) -> Self::Duty;

    /// The largest duty the output can be set to.
    spec fn max_duty(&self) -> Self::Duty;

    /// Switches the output off.
    fn disable(&mut self)
        ensures
            !final(self).enabled(),
            final(self).duty() == old(self).duty(),
            final(self).max_duty() == old(self).max_duty(),
    ;

    /// Switches the output on.
    fn enable(&mut self)
        ensures
            final(self).enabled(),
            final(self).duty() == old(self).duty(),
            final(self).max_duty() == old(self).max_duty(),
    ;

    /// Reads the duty the output is set to.
    fn get_duty(&self) -> (duty: Self::Duty)
        ensures
            duty == self.duty(),
    ;

    /// Reads the largest duty the output can be set to.
    fn get_max_duty(&self) -> (duty: Self::Duty)
        ensures
            duty == self.max_duty(),
    ;

    /// Sets the duty of the output.
    fn set_duty(&mut self, duty: Self::Duty)
        ensures
            final(self).duty() == duty,
            final(self).enabled() == old(self).enabled(),
            final(self).max_duty() == old(self).max_duty(),
    ;
}

} // verus!
