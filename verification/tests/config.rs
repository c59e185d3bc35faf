use diorama_lights::color::Rgb8;
use diorama_lights::state::SharedState;
use diorama_lights::streetlamps::StreetlampMode;
use diorama_lights::underpass_lights::LightingState;

fn rgb(r: u8, g: u8, b: u8) -> Rgb8 {
    Rgb8 { r, g, b }
}

#[test]
fn default_config_values() {
    let c = SharedState::default();
    assert!(c.streetlamps_enabled);
    assert_eq!(c.streetlamps_brightness, 255);
    assert_eq!(c.streetlamps_modes.len(), 6);
    assert!(c.streetlamps_modes.iter().all(|m| matches!(m, StreetlampMode::On)));
    assert_eq!(
        c.underpass_lights_state,
        LightingState::Cars {
            default_color: rgb(40, 20, 2),
            min_interval: 50,
            max_interval: 100,
            speed_limit_kph: 40,
        }
    );
}

#[test]
fn equality_is_reflexive_and_symmetric() {
    let a = SharedState::default();
    let b = a.clone();
    assert!(a == a);
    assert!(a == b);
    assert!(b == a);
}

#[test]
fn equality_detects_any_single_field_difference() {
    let a = SharedState::default();

    let mut b = a.clone();
    b.streetlamps_enabled = false;
    assert!(a != b);

    let mut b = a.clone();
    b.streetlamps_brightness = 254;
    assert!(a != b);

    let mut b = a.clone();
    b.streetlamps_modes[3] = StreetlampMode::Flickering { chance: 90 };
    assert!(a != b);

    let mut b = a.clone();
    b.underpass_lights_state = LightingState::RainbowCycle;
    assert!(a != b);

    // A changed color inside the lighting variant is a difference too.
    let mut b = a.clone();
    b.underpass_lights_state = LightingState::Cars {
        default_color: rgb(40, 20, 3),
        min_interval: 50,
        max_interval: 100,
        speed_limit_kph: 40,
    };
    assert!(a != b);
}

#[test]
fn toggle_flips_only_the_master_enable() {
    let mut c = SharedState::default();
    let before = c.clone();
    let on = c.toggle_streetlamps();
    assert!(!on);
    assert!(!c.streetlamps_enabled);
    assert_eq!(c.streetlamps_brightness, before.streetlamps_brightness);
    assert_eq!(c.streetlamps_modes, before.streetlamps_modes);
    assert_eq!(c.underpass_lights_state, before.underpass_lights_state);
    let on = c.toggle_streetlamps();
    assert!(on);
    assert!(c == before);
}

#[test]
fn set_lamp_mode_decodes_the_code() {
    let mut c = SharedState::default();
    c.set_lamp_mode(0, 0);
    c.set_lamp_mode(1, 1);
    c.set_lamp_mode(2, 2);
    c.set_lamp_mode(3, 99);
    assert_eq!(c.streetlamps_modes[0], StreetlampMode::Off);
    assert_eq!(c.streetlamps_modes[1], StreetlampMode::On);
    assert_eq!(c.streetlamps_modes[2], StreetlampMode::Flickering { chance: 90 });
    assert_eq!(c.streetlamps_modes[3], StreetlampMode::Off);
    assert_eq!(c.streetlamps_modes[4], StreetlampMode::On);
    assert_eq!(c.streetlamps_modes[5], StreetlampMode::On);
}

#[test]
fn set_lamp_mode_out_of_range_is_a_silent_no_op() {
    let mut c = SharedState::default();
    let before = c.clone();
    c.set_lamp_mode(6, 2);
    c.set_lamp_mode(usize::MAX, 0);
    assert!(c == before);
}

#[test]
fn validity_check_matches_the_invariant() {
    assert!(SharedState::default().is_valid());

    // A flicker chance above 100 percent breaks the invariant.
    let mut c = SharedState::default();
    c.streetlamps_modes[0] = StreetlampMode::Flickering { chance: 101 };
    assert!(!c.is_valid());

    // So does a lamp list of the wrong length.
    let mut c = SharedState::default();
    c.streetlamps_modes.pop();
    assert!(!c.is_valid());

    // And an empty interval range in the cars parameters.
    let mut c = SharedState::default();
    c.underpass_lights_state = LightingState::Cars {
        default_color: rgb(1, 1, 1),
        min_interval: 9,
        max_interval: 3,
        speed_limit_kph: 40,
    };
    assert!(!c.is_valid());
    assert!(!diorama_lights::underpass_lights::lighting_valid(&c.underpass_lights_state));
}

#[test]
fn replace_takes_a_valid_record_and_rejects_an_invalid_one() {
    let mut c = SharedState::default();

    let mut next = c.clone();
    next.streetlamps_enabled = false;
    next.underpass_lights_state = LightingState::RainbowCycle;
    assert!(c.replace(next.clone()));
    assert!(c == next);

    let before = c.clone();
    let mut bad = c.clone();
    bad.streetlamps_modes[2] = StreetlampMode::Flickering { chance: 200 };
    assert!(!c.replace(bad));
    assert!(c == before);
}
