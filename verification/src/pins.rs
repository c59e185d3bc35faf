//! Output-pin traits that the host hardware layer implements. The library
//! drives lamps through these. An impl's only obligation is the abstract
//! pin level: driving the pin high leaves it high, driving it low leaves it
//! low, so callers can promise what level each pin ends at.

use vstd::prelude::*;

verus! {

/// A discrete digital output.
pub trait GpioPin {
    /// The abstract level of the output: true when driven high.
    spec fn high(&self) -> bool;

    fn set_high(&mut self)
        ensures
            final(self).high(),
    ;

    fn set_low(&mut self)
        ensures
            !final(self).high(),
    ;
}

/// A pulse-width-modulated output.
pub trait PwmPin {
    fn set_duty(&mut self, duty: u16);

    fn set_enabled(&mut self, enabled: bool);
}

} // verus!
