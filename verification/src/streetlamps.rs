//! Streetlamp flicker controller: each tick, every lamp output is computed
//! from the master enable, the lamp's mode and one fresh random draw.

use vstd::prelude::*;

use crate::pins::GpioPin;

verus! {

/// Number of physical lamp outputs wired at startup.
pub const NUM_LAMPS: usize = 6;

/// Per-lamp behavior. `Flickering` lights the lamp with the given percent
/// probability, sampled anew every tick.
#[derive(Clone, Copy, PartialEq, Eq, Structural, Debug)]
pub enum StreetlampMode {
    Off,
    On,
    Flickering { chance: u32 },
}

/// The range invariant of one lamp mode: a flicker chance is a percentage.
pub open spec fn mode_wf(m: StreetlampMode) -> bool {
    match m {
        StreetlampMode::Flickering { chance } => chance <= 100,
        _ => true,
    }
}

/// Whether a lamp is lit on one tick: never when the master enable is off;
/// otherwise by its mode, a flickering lamp being lit exactly when the
/// uniform draw, reduced to [0,100), falls below its chance.
pub open spec fn spec_lamp_active(enabled: bool, mode: StreetlampMode, draw: u32) -> bool {
    enabled && match mode {
        StreetlampMode::Off => false,
        StreetlampMode::On => true,
        StreetlampMode::Flickering { chance } => draw % 100 < chance,
    }
}

/// Computes one lamp's output for one tick from the master enable, the
/// lamp's mode and one random draw.
pub fn lamp_output(enabled: bool, mode: &StreetlampMode, draw: u32) -> (active: bool)
    ensures
        active == spec_lamp_active(enabled, *mode, draw),
{
    if !enabled {
        return false;
    }
    match mode {
        StreetlampMode::Off => false,
        StreetlampMode::On => true,
        StreetlampMode::Flickering { chance } => draw % 100 < *chance,
    }
}

/// One tick of the streetlamp controller, as a pure computation: the output
/// of every lamp, from the shared configuration's enable and modes and one
/// random draw per lamp.
pub fn streetlamps_tick(enabled: bool, modes: &Vec<StreetlampMode>, draws: &Vec<u32>) -> (out: Vec<
    bool,
>)
    requires
        draws.len() == modes.len(),
    ensures
        out.len() == modes.len(),
        forall|i: int|
            0 <= i < modes.len() ==> out[i] == spec_lamp_active(enabled, modes[i], draws[i]),
{
    let mut out: Vec<bool> = Vec::new();
    let mut i: usize = 0;
    while i < modes.len()
        invariant
            i <= modes.len(),
            draws.len() == modes.len(),
            out.len() == i,
            forall|j: int| 0 <= j < i ==> out[j] == spec_lamp_active(enabled, modes[j], draws[j]),
        decreases modes.len() - i,
    {
        out.push(lamp_output(enabled, &modes[i], draws[i]));
        i = i + 1;
    }
    out
}

/// Drives one lamp pin from a computed output: the pin ends at the level
/// the output asks for.
pub fn apply_lamp<T: GpioPin>(pin: &mut T, active: bool)
    ensures
        final(pin).high() == active,
{
    if active {
        pin.set_high();
    } else {
        pin.set_low();
    }
}

/// The streetlamp controller: owns the lamp output pins and drives them
/// from the shared configuration, one fresh random draw per lamp per tick.
/// The host supplies the timer wait, the configuration snapshot and the
/// draws.
pub struct StreetlampsRunner<T: GpioPin> {
    pub lamp_pins: Vec<T>,
}

impl<T: GpioPin> StreetlampsRunner<T> {
    pub fn new(lamp_pins: Vec<T>) -> (r: Self)
        ensures
            r.lamp_pins.len() == lamp_pins.len(),
    {
        StreetlampsRunner { lamp_pins }
    }

    /// One 100 ms tick: computes and applies every lamp's output; returns
    /// the outputs it drove.
    pub fn tick(&mut self, enabled: bool, modes: &Vec<StreetlampMode>, draws: &Vec<u32>) -> (out:
        Vec<bool>)
        requires
            old(self).lamp_pins.len() == modes.len(),
            draws.len() == modes.len(),
        ensures
            final(self).lamp_pins.len() == old(self).lamp_pins.len(),
            out.len() == modes.len(),
            forall|i: int|
                0 <= i < modes.len() ==> out[i] == spec_lamp_active(enabled, modes[i], draws[i]),
            forall|i: int| 0 <= i < modes.len() ==> final(self).lamp_pins@[i].high() == out[i],
    {
        let out = streetlamps_tick(enabled, modes, draws);
        let mut i: usize = 0;
        while i < out.len()
            invariant
                self.lamp_pins.len() == modes.len(),
                out.len() == modes.len(),
                forall|j: int| 0 <= j < i ==> self.lamp_pins@[j].high() == out@[j],
            decreases out.len() - i,
        {
            apply_lamp(&mut self.lamp_pins[i], out[i]);
            i = i + 1;
        }
        out
    }
}

/// With the master enable off, every lamp is inactive, whatever its mode and
/// whatever the random draw.
pub proof fn lemma_disabled_lamp_inactive(mode: StreetlampMode, draw: u32)
    ensures
        !spec_lamp_active(false, mode, draw),
{
}

/// An enabled flickering lamp with chance 100 is lit on every sampled tick;
/// with chance 0 it is never lit.
pub proof fn lemma_flicker_extremes(draw: u32)
    ensures
        spec_lamp_active(true, StreetlampMode::Flickering { chance: 100u32 }, draw),
        !spec_lamp_active(true, StreetlampMode::Flickering { chance: 0u32 }, draw),
{
}

} // verus!
