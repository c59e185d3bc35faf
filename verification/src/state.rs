//! The single shared configuration record: the only state the four control
//! loops coordinate through. The host keeps one instance behind an exclusive
//! lock and hands clones or short-lived references to the loops.

use vstd::prelude::*;

use crate::streetlamps::{mode_wf, StreetlampMode, NUM_LAMPS};
use crate::underpass_lights::{lighting_wf, LightingState};

verus! {

/// The shared configuration: the master lamp cutoff, a reserved intensity
/// scalar (carried and persisted for storage compatibility, not consumed by
/// any rendering logic), one mode per physical lamp, and the LED strip's
/// rendering mode.
pub struct SharedState {
    pub streetlamps_enabled: bool,
    pub streetlamps_brightness: u8,
    pub streetlamps_modes: Vec<StreetlampMode>,
    pub underpass_lights_state: LightingState,
}

/// The mathematical value of a configuration: the same fields, with the
/// lamp modes as a sequence.
#[verifier::ext_equal]
pub struct ConfigView {
    pub streetlamps_enabled: bool,
    pub streetlamps_brightness: u8,
    pub streetlamps_modes: Seq<StreetlampMode>,
    pub underpass_lights_state: LightingState,
}

impl View for SharedState {
    type V = ConfigView;

    open spec fn view(&self) -> ConfigView {
        ConfigView {
            streetlamps_enabled: self.streetlamps_enabled,
            streetlamps_brightness: self.streetlamps_brightness,
            streetlamps_modes: self.streetlamps_modes@,
            underpass_lights_state: self.underpass_lights_state,
        }
    }
}

/// The configuration's invariant: one mode per wired lamp, each with a
/// percentage chance, and well-formed lighting parameters.
pub open spec fn config_wf(c: ConfigView) -> bool {
    &&& c.streetlamps_modes.len() == NUM_LAMPS
    &&& forall|i: int| 0 <= i < c.streetlamps_modes.len() ==> mode_wf(#[trigger] c.streetlamps_modes[i])
    &&& lighting_wf(c.underpass_lights_state)
}

/// The compiled-in default configuration: lamps enabled and on at full
/// reserved brightness, the strip simulating traffic in warm light.
pub open spec fn spec_default_config() -> ConfigView {
    ConfigView {
        streetlamps_enabled: true,
        streetlamps_brightness: 255u8,
        streetlamps_modes: Seq::new(NUM_LAMPS as nat, |i: int| StreetlampMode::On),
        underpass_lights_state: LightingState::Cars {
            default_color: crate::color::Rgb8 { r: 40u8, g: 20u8, b: 2u8 },
            min_interval: 50u16,
            max_interval: 100u16,
            speed_limit_kph: 40u32,
        },
    }
}

/// Element-wise comparison of two lamp-mode lists.
fn modes_eq(a: &Vec<StreetlampMode>, b: &Vec<StreetlampMode>) -> (r: bool)
    ensures
        r == (a@ == b@),
{
    if a.len() != b.len() {
        proof {
            assert(a@ != b@);
        }
        return false;
    }
    let mut i: usize = 0;
    while i < a.len()
        invariant
            i <= a.len(),
            a.len() == b.len(),
            forall|j: int| 0 <= j < i ==> a@[j] == b@[j],
        decreases a.len() - i,
    {
        if a[i] != b[i] {
            proof {
                assert(a@ != b@);
            }
            return false;
        }
        i = i + 1;
    }
    proof {
        assert(a@ =~= b@);
    }
    true
}

impl PartialEq for SharedState {
    /// Structural equality over the whole configuration: the persistence
    /// loop's change detector; deterministic and total.
    fn eq(&self, other: &Self) -> (r: bool) {
        let r = self.streetlamps_enabled == other.streetlamps_enabled
            && self.streetlamps_brightness == other.streetlamps_brightness && modes_eq(
            &self.streetlamps_modes,
            &other.streetlamps_modes,
        ) && self.underpass_lights_state == other.underpass_lights_state;
        proof {
            if r {
                assert(self@ =~= other@);
            }
        }
        r
    }
}

impl vstd::std_specs::cmp::PartialEqSpecImpl for SharedState {
    open spec fn obeys_eq_spec() -> bool {
        true
    }

    open spec fn eq_spec(&self, other: &Self) -> bool {
        self@ == other@
    }
}

impl Clone for SharedState {
    /// A snapshot with the same value; loops clone the configuration out
    /// rather than holding the lock across long work.
    fn clone(&self) -> (r: Self)
        ensures
            r@ == self@,
    {
        let mut modes: Vec<StreetlampMode> = Vec::new();
        let mut i: usize = 0;
        while i < self.streetlamps_modes.len()
            invariant
                i <= self.streetlamps_modes.len(),
                modes.len() == i,
                forall|j: int| 0 <= j < i ==> modes@[j] == self.streetlamps_modes@[j],
            decreases self.streetlamps_modes.len() - i,
        {
            modes.push(self.streetlamps_modes[i]);
            i = i + 1;
        }
        proof {
            assert(modes@ =~= self.streetlamps_modes@);
        }
        let r = SharedState {
            streetlamps_enabled: self.streetlamps_enabled,
            streetlamps_brightness: self.streetlamps_brightness,
            streetlamps_modes: modes,
            underpass_lights_state: self.underpass_lights_state,
        };
        proof {
            assert(r@ =~= self@);
        }
        r
    }
}

impl Default for SharedState {
    /// The configuration used when no persisted record can be restored.
    fn default() -> (r: Self)
        ensures
            r@ == spec_default_config(),
            config_wf(r@),
    {
        let mut modes: Vec<StreetlampMode> = Vec::new();
        let mut i: usize = 0;
        while i < NUM_LAMPS
            invariant
                i <= NUM_LAMPS,
                modes.len() == i,
                forall|j: int| 0 <= j < i ==> modes@[j] == StreetlampMode::On,
            decreases NUM_LAMPS - i,
        {
            modes.push(StreetlampMode::On);
            i = i + 1;
        }
        proof {
            assert(modes@ =~= spec_default_config().streetlamps_modes);
        }
        let r = SharedState {
            streetlamps_enabled: true,
            streetlamps_brightness: 255,
            streetlamps_modes: modes,
            underpass_lights_state: LightingState::Cars {
                default_color: crate::color::Rgb8 { r: 40, g: 20, b: 2 },
                min_interval: 50,
                max_interval: 100,
                speed_limit_kph: 40,
            },
        };
        proof {
            assert(r@ =~= spec_default_config());
        }
        r
    }
}

/// The lamp mode a small enumerated code selects: 0 off, 1 on, 2 flickering
/// at a fixed 90 percent chance; anything else falls back to off.
pub open spec fn spec_mode_from_code(code: u8) -> StreetlampMode {
    if code == 1 {
        StreetlampMode::On
    } else if code == 2 {
        StreetlampMode::Flickering { chance: 90u32 }
    } else {
        StreetlampMode::Off
    }
}

/// Decodes one lamp-mode code.
pub fn mode_from_code(code: u8) -> (m: StreetlampMode)
    ensures
        m == spec_mode_from_code(code),
{
    match code {
        1 => StreetlampMode::On,
        2 => StreetlampMode::Flickering { chance: 90 },
        _ => StreetlampMode::Off,
    }
}

impl SharedState {
    /// Checks the configuration invariant at run time, for callers handed
    /// an unchecked record.
    pub fn is_valid(&self) -> (r: bool)
        ensures
            r == config_wf(self@),
    {
        if self.streetlamps_modes.len() != NUM_LAMPS {
            return false;
        }
        let mut i: usize = 0;
        while i < self.streetlamps_modes.len()
            invariant
                i <= self.streetlamps_modes.len(),
                forall|j: int| 0 <= j < i ==> mode_wf(#[trigger] self.streetlamps_modes@[j]),
            decreases self.streetlamps_modes.len() - i,
        {
            match self.streetlamps_modes[i] {
                StreetlampMode::Flickering { chance } => {
                    if chance > 100 {
                        return false;
                    }
                },
                _ => {},
            }
            i = i + 1;
        }
        crate::underpass_lights::lighting_valid(&self.underpass_lights_state)
    }

    /// Replaces the whole configuration with a new record, provided the
    /// record satisfies the configuration invariant; an invalid record is
    /// rejected and nothing changes.
    pub fn replace(&mut self, new_state: SharedState) -> (ok: bool)
        ensures
            ok == config_wf(new_state@),
            final(self)@ == if ok {
                new_state@
            } else {
                old(self)@
            },
    {
        if new_state.is_valid() {
            *self = new_state;
            true
        } else {
            false
        }
    }

    /// Flips the master lamp cutoff and returns the new value; nothing else
    /// changes.
    pub fn toggle_streetlamps(&mut self) -> (on: bool)
        ensures
            final(self)@ == (ConfigView {
                streetlamps_enabled: !old(self)@.streetlamps_enabled,
                ..old(self)@
            }),
            on == final(self)@.streetlamps_enabled,
    {
        self.streetlamps_enabled = !self.streetlamps_enabled;
        self.streetlamps_enabled
    }

    /// Sets one lamp's mode by index from an enumerated code; an
    /// out-of-range index is a silent no-op.
    pub fn set_lamp_mode(&mut self, id: usize, code: u8)
        ensures
            final(self)@ == if id < old(self)@.streetlamps_modes.len() {
                (ConfigView {
                    streetlamps_modes: old(self)@.streetlamps_modes.update(
                        id as int,
                        spec_mode_from_code(code),
                    ),
                    ..old(self)@
                })
            } else {
                old(self)@
            },
            config_wf(old(self)@) ==> config_wf(final(self)@),
    {
        if id < self.streetlamps_modes.len() {
            let m = mode_from_code(code);
            self.streetlamps_modes.set(id, m);
        }
    }
}

/// Configuration equality is reflexive.
pub proof fn lemma_config_eq_reflexive(a: SharedState)
    ensures
        a@ == a@,
{
}

/// Configuration equality is symmetric.
pub proof fn lemma_config_eq_symmetric(a: SharedState, b: SharedState)
    ensures
        (a@ == b@) == (b@ == a@),
{
    if a@ == b@ {
        assert(b@ =~= a@);
    }
}

/// Two configurations are equal exactly when every field agrees: equality
/// detects any single-field difference.
pub proof fn lemma_config_eq_characterization(a: SharedState, b: SharedState)
    ensures
        (a@ == b@) <==> {
            &&& a@.streetlamps_enabled == b@.streetlamps_enabled
            &&& a@.streetlamps_brightness == b@.streetlamps_brightness
            &&& a@.streetlamps_modes == b@.streetlamps_modes
            &&& a@.underpass_lights_state == b@.underpass_lights_state
        },
{
    if a@.streetlamps_enabled == b@.streetlamps_enabled && a@.streetlamps_brightness
        == b@.streetlamps_brightness && a@.streetlamps_modes == b@.streetlamps_modes
        && a@.underpass_lights_state == b@.underpass_lights_state {
        assert(a@ =~= b@);
    }
}

/// Changing one lamp's mode while all else stays equal compares unequal.
pub proof fn lemma_config_eq_detects_mode_change(a: SharedState, b: SharedState, i: int)
    requires
        0 <= i < a@.streetlamps_modes.len(),
        a@.streetlamps_modes.len() == b@.streetlamps_modes.len(),
        a@.streetlamps_modes[i] != b@.streetlamps_modes[i],
    ensures
        a@ != b@,
{
}

} // verus!
