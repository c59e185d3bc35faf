use diorama_lights::color::Rgb8;
use diorama_lights::underpass_lights::{
    CarState, LightingState, SpawnDraws, UnderpassLightsRunner, MAX_CARS, NUM_LEDS,
};

fn rgb(r: u8, g: u8, b: u8) -> Rgb8 {
    Rgb8 { r, g, b }
}

fn draws() -> SpawnDraws {
    SpawnDraws { extra: 3, lane: 1, interval: 7 }
}

fn cars_state() -> LightingState {
    LightingState::Cars {
        default_color: rgb(40, 20, 2),
        min_interval: 50,
        max_interval: 100,
        speed_limit_kph: 40,
    }
}

#[test]
fn fresh_runner_is_dark_and_empty() {
    let r = UnderpassLightsRunner::new();
    assert_eq!(r.cycle, 0);
    assert_eq!(r.next_car_spawn_cycle, 10);
    assert_eq!(r.last_state, LightingState::Off);
    assert_eq!(r.data.len(), NUM_LEDS);
    assert!(r.data.iter().all(|&c| c == rgb(0, 0, 0)));
    assert_eq!(r.cars.len(), MAX_CARS);
    assert!(r.cars.iter().all(|c| c.is_none()));
}

#[test]
fn off_after_off_is_not_dirty() {
    let mut r = UnderpassLightsRunner::new();
    let dirty = r.tick(&LightingState::Off, &draws());
    assert!(!dirty);
    assert_eq!(r.cycle, 1);
}

#[test]
fn mode_change_is_dirty_and_fills_the_frame() {
    let mut r = UnderpassLightsRunner::new();
    let single = LightingState::SingleColour(rgb(9, 8, 7));
    let dirty = r.tick(&single, &draws());
    assert!(dirty);
    assert!(r.data.iter().all(|&c| c == rgb(9, 8, 7)));
    // Unchanged mode on the next tick: no retransmission.
    let dirty = r.tick(&single, &draws());
    assert!(!dirty);
    // Back to off: dark frame, dirty again.
    let dirty = r.tick(&LightingState::Off, &draws());
    assert!(dirty);
    assert!(r.data.iter().all(|&c| c == rgb(0, 0, 0)));
}

#[test]
fn rainbow_is_always_dirty_and_shifts_with_the_cycle() {
    let mut r = UnderpassLightsRunner::new();
    assert!(r.tick(&LightingState::RainbowCycle, &draws()));
    let first = r.data.clone();
    assert!(r.tick(&LightingState::RainbowCycle, &draws()));
    let second = r.data.clone();
    assert_ne!(first, second);
    // Pixel formula: the hue wheel at (16 * led + cycle) % 256.
    let expected0 = diorama_lights::underpass_lights::wheel(0);
    assert_eq!(first[0], expected0);
    let expected_led3_tick2 = diorama_lights::underpass_lights::wheel(((3u32 * 16 + 1) % 256) as u8);
    assert_eq!(second[3], expected_led3_tick2);
}

#[test]
fn no_car_before_tick_ten_and_a_spawn_by_tick_twenty() {
    let mut r = UnderpassLightsRunner::new();
    let state = cars_state();
    let mut spawned_at = None;
    for tick in 0..21u16 {
        assert_eq!(r.cycle, tick);
        r.tick(&state, &draws());
        let any = r.cars.iter().any(|c| c.is_some());
        if tick <= 10 {
            assert!(!any, "no car may exist while the window is closed (tick {})", tick);
        }
        if any && spawned_at.is_none() {
            spawned_at = Some(tick);
        }
    }
    // The window opens after the scheduled tick 10, so the spawn attempt is
    // evaluated, and succeeds, by tick 20.
    assert_eq!(spawned_at, Some(11));
}

#[test]
fn spawned_car_matches_the_draws() {
    let mut r = UnderpassLightsRunner::new();
    r.cycle = 11;
    let state = cars_state();
    r.tick(&state, &SpawnDraws { extra: 14, lane: 5, interval: 103 });
    let car = r.cars[0].expect("first free slot is filled");
    assert_eq!(car.position, -30000);
    // 14 % 11 = 3 extra; 434 * 43 / 100 = 186 track units per tick.
    assert_eq!(car.speed, 186);
    assert_eq!(car.lane, 1);
    // 103 % (100 - 50 + 1) = 1; next spawn at 11 + 50 + 1.
    assert_eq!(r.next_car_spawn_cycle, 62);
}

#[test]
fn saturated_slots_drop_the_spawn_and_keep_the_schedule() {
    let mut r = UnderpassLightsRunner::new();
    for i in 0..MAX_CARS {
        r.cars[i] = Some(CarState { position: 0, speed: 4, lane: 0 });
    }
    r.cycle = 11;
    r.tick(&cars_state(), &draws());
    assert_eq!(r.next_car_spawn_cycle, 10);
    assert!(r.cars.iter().all(|c| c.is_some()));
}

#[test]
fn car_position_strictly_increases_each_tick() {
    let mut r = UnderpassLightsRunner::new();
    r.cars[2] = Some(CarState { position: -30000, speed: 186, lane: 0 });
    let state = cars_state();
    let mut last = -30000;
    for _ in 0..5 {
        r.tick(&state, &draws());
        let car = r.cars[2].expect("car stays on the track");
        assert!(car.position > last);
        assert_eq!(car.position, last + 186);
        last = car.position;
    }
}

#[test]
fn car_is_removed_exactly_when_past_the_track_end() {
    let state = cars_state();
    // Advances to exactly the boundary (66300): stays.
    let mut r = UnderpassLightsRunner::new();
    r.cars[0] = Some(CarState { position: 66100, speed: 200, lane: 0 });
    r.tick(&state, &draws());
    assert_eq!(r.cars[0], Some(CarState { position: 66300, speed: 200, lane: 0 }));
    // One more tick advances past the boundary: removed.
    r.tick(&state, &draws());
    assert!(r.cars[0].is_none());
}

#[test]
fn car_light_blends_onto_the_default_color() {
    let mut r = UnderpassLightsRunner::new();
    // After the kinematic step the car's front sits exactly on the first
    // LED's track position (2000) in lane 0.
    r.cars[0] = Some(CarState { position: 1900, speed: 100, lane: 0 });
    r.tick(&cars_state(), &draws());
    // Front at distance 0: both ramps peak there, 80 white-ish (80, 80, 26).
    // Back at 0, so the LED is ahead of the back point at distance 2000:
    // red at the fast falloff, 80 * (30000 - 8000) / 30000 = 58.
    assert_eq!(r.data[0], rgb(40 + 80 + 58, 20 + 80, 2 + 26));
    // Second LED of the lane at 7500 lies ahead of the front point at
    // distance 5500: full-ramp white, 80 * (30000 - 5500) / 30000 = 65;
    // the back point's falloff is already zero there.
    assert_eq!(r.data[1], rgb(40 + 65, 20 + 65, 2 + 21));
    // The other lane is untouched by this car.
    assert_eq!(r.data[8], rgb(40, 20, 2));
}

#[test]
fn front_paints_ahead_and_back_paints_behind() {
    let mut r = UnderpassLightsRunner::new();
    // After the kinematic step the front sits at 12000, the back at 10000.
    r.cars[0] = Some(CarState { position: 11900, speed: 100, lane: 0 });
    r.tick(&cars_state(), &draws());
    // The first LED (2000) lies 10000 behind the front point, past the
    // quarter-distance where the white falloff dies out, so only the back
    // point's red reaches it: full ramp, 80 * (30000 - 8000) / 30000 = 58.
    assert_eq!(r.data[0], rgb(40 + 58, 20, 2));
    // The sixth LED (26800) lies 14800 ahead of the front point: full-ramp
    // white, 80 * (30000 - 14800) / 30000 = 40; the back point's falloff is
    // zero at 16800.
    assert_eq!(r.data[5], rgb(40 + 40, 20 + 40, 2 + 13));
}

#[test]
fn overlapping_cars_saturate_instead_of_wrapping() {
    let mut r = UnderpassLightsRunner::new();
    for i in 0..4 {
        r.cars[i] = Some(CarState { position: 1900, speed: 100, lane: 0 });
    }
    r.tick(
        &LightingState::Cars {
            default_color: rgb(200, 200, 200),
            min_interval: 50,
            max_interval: 100,
            speed_limit_kph: 40,
        },
        &draws(),
    );
    assert_eq!(r.data[0], rgb(255, 255, 255));
}

#[test]
fn stale_cars_rest_while_the_mode_is_static() {
    let mut r = UnderpassLightsRunner::new();
    r.cars[0] = Some(CarState { position: 5000, speed: 100, lane: 0 });
    r.tick(&LightingState::Off, &draws());
    r.tick(&LightingState::RainbowCycle, &draws());
    assert_eq!(r.cars[0], Some(CarState { position: 5000, speed: 100, lane: 0 }));
}

#[test]
fn tick_counter_wraps_around() {
    let mut r = UnderpassLightsRunner::new();
    r.cycle = 65535;
    r.tick(&LightingState::Off, &draws());
    assert_eq!(r.cycle, 0);
}

#[test]
fn spawn_window_is_cut_short_at_the_counter_wrap() {
    // The acceptance window is `next < cycle < next + 10` under wrapping
    // arithmetic: when the scheduled tick sits within 10 of the counter
    // wrap, the upper bound wraps to a small value and the window never
    // opens. A known edge of the scheduling arithmetic.
    let mut r = UnderpassLightsRunner::new();
    r.next_car_spawn_cycle = 65530;
    r.cycle = 65535;
    r.tick(&cars_state(), &draws());
    assert!(r.cars.iter().all(|c| c.is_none()));
    assert_eq!(r.next_car_spawn_cycle, 65530);
}
