//! Underpass traffic-simulated LED controller: a fixed-tick loop that renders
//! the configured lighting mode onto a strip of 2 lanes x 8 LEDs, including a
//! car spawn scheduler, a kinematic step, and an additive light-blending
//! model with saturating channels.

use vstd::prelude::*;

use crate::color::{add_rgb_saturating, spec_add_rgb, Rgb8};

verus! {

/// LEDs in one lane's contiguous block.
pub const NUM_LEDS_PER_LANE: usize = 8;

/// Parallel lanes; each owns a private block of LED indices.
pub const NUM_LANES: usize = 2;

/// Total strip length.
pub const NUM_LEDS: usize = 16;

/// Capacity of the car slot array; spawn attempts are dropped when full.
pub const MAX_CARS: usize = 10;

/// Maximum distance (scaled track units) at which a car still lights an LED.
pub const MAX_CAR_DISTANCE: i32 = 30000;

/// Track distance between a car's front and back reference points.
pub const CAR_LENGTH: i32 = 2000;

/// Ticks after the scheduled spawn tick during which a spawn is still taken.
pub const SPAWN_WINDOW: u16 = 10;

/// Largest speed limit (km/h) the simulation accepts: the speed conversion
/// `434 * (limit + 10)` must fit in 32 bits.
pub const SPEED_LIMIT_KPH_MAX: u32 = 9896228;

/// Largest per-tick displacement a spawned car can have, reached at the
/// largest accepted speed limit plus the maximum random extra.
pub const MAX_CAR_SPEED: i32 = 42949672;

/// Fixed track position of each LED within a lane (both lanes share track
/// positions; the physical strip runs one lane out and the other back).
pub open spec fn spec_led_position(i: int) -> int {
    if i == 0 {
        2000
    } else if i == 1 {
        7500
    } else if i == 2 {
        11500
    } else if i == 3 {
        17000
    } else if i == 4 {
        21300
    } else if i == 5 {
        26800
    } else if i == 6 {
        30800
    } else {
        36300
    }
}

/// Track position of the LED at index `i` within its lane.
pub fn led_position(i: usize) -> (p: u16)
    requires
        i < NUM_LEDS_PER_LANE,
    ensures
        p == spec_led_position(i as int),
{
    if i == 0 {
        2000
    } else if i == 1 {
        7500
    } else if i == 2 {
        11500
    } else if i == 3 {
        17000
    } else if i == 4 {
        21300
    } else if i == 5 {
        26800
    } else if i == 6 {
        30800
    } else {
        36300
    }
}

/// A car is gone once it has advanced past the last LED's track position by
/// more than the maximum influence distance.
pub open spec fn spec_track_end() -> int {
    spec_led_position(NUM_LEDS_PER_LANE - 1) + MAX_CAR_DISTANCE
}

/// The one active rendering mode for the whole strip.
#[derive(Clone, Copy, PartialEq, Eq, Structural, Debug)]
pub enum LightingState {
    Off,
    SingleColour(Rgb8),
    RainbowCycle,
    Cars { default_color: Rgb8, min_interval: u16, max_interval: u16, speed_limit_kph: u32 },
}

/// The invariant the `Cars` parameters must satisfy: a nonempty interval
/// range and a positive speed limit, with the machine bounds that keep the
/// spawn arithmetic inside 16 and 32 bits.
pub open spec fn lighting_wf(s: LightingState) -> bool {
    match s {
        LightingState::Cars { default_color, min_interval, max_interval, speed_limit_kph } => {
            &&& min_interval <= max_interval
            &&& max_interval - min_interval < 65535
            &&& 0 < speed_limit_kph <= SPEED_LIMIT_KPH_MAX
        },
        _ => true,
    }
}

/// Checks the `Cars` parameter invariant at run time, for callers handed an
/// unchecked lighting state.
pub fn lighting_valid(s: &LightingState) -> (r: bool)
    ensures
        r == lighting_wf(*s),
{
    match s {
        LightingState::Cars { default_color, min_interval, max_interval, speed_limit_kph } => {
            *min_interval <= *max_interval && *max_interval - *min_interval < 65535
                && 0 < *speed_limit_kph && *speed_limit_kph <= SPEED_LIMIT_KPH_MAX
        },
        _ => true,
    }
}

/// One active car: a signed scaled-track coordinate, a signed per-tick
/// displacement, and the lane whose LEDs it lights.
#[derive(Clone, Copy, PartialEq, Eq, Structural, Debug)]
pub struct CarState {
    pub position: i32,
    pub speed: i32,
    pub lane: u8,
}

/// Clamps `val` into `[lo, hi]`.
pub open spec fn spec_clamp(val: int, lo: int, hi: int) -> int {
    if val < lo {
        lo
    } else if val > hi {
        hi
    } else {
        val
    }
}

/// Clamps `val` into `[lo, hi]`.
pub fn clamp(val: i32, lo: i32, hi: i32) -> (r: i32)
    ensures
        r == spec_clamp(val as int, lo as int, hi as int),
{
    if val < lo {
        lo
    } else if val > hi {
        hi
    } else {
        val
    }
}

/// The hue wheel: position 0 to 255 maps to a color, ramping linearly
/// between two of red, green and blue over each 85-wide band, cycling
/// red -> green -> blue -> red.
pub open spec fn spec_wheel(pos: u8) -> Rgb8 {
    let p = 255 - pos;
    if p < 85 {
        Rgb8 { r: (255 - p * 3) as u8, g: 0u8, b: (p * 3) as u8 }
    } else if p < 170 {
        Rgb8 { r: 0u8, g: ((p - 85) * 3) as u8, b: (255 - (p - 85) * 3) as u8 }
    } else {
        Rgb8 { r: ((p - 170) * 3) as u8, g: (255 - (p - 170) * 3) as u8, b: 0u8 }
    }
}

/// Input a value 0 to 255 to get a color value; the colors transition
/// r - g - b and back to r.
pub fn wheel(wheel_pos: u8) -> (c: Rgb8)
    ensures
        c == spec_wheel(wheel_pos),
{
    let p: u8 = 255 - wheel_pos;
    if p < 85 {
        return Rgb8 { r: 255 - p * 3, g: 0, b: p * 3 };
    }
    if p < 170 {
        let q: u8 = p - 85;
        return Rgb8 { r: 0, g: q * 3, b: 255 - q * 3 };
    }
    let q: u8 = p - 170;
    Rgb8 { r: q * 3, g: 255 - q * 3, b: 0 }
}

/// The wheel is cyclic: inputs 0 and 255 give the same color, so the ramp
/// closes back on itself across the ends of the input range.
pub proof fn lemma_wheel_cyclic()
    ensures
        spec_wheel(0) == spec_wheel(255),
{
}

/// Within the first 85-wide band (inputs 171..=255, descending positions
/// 0..85), the red channel falls monotonically and the blue channel rises
/// monotonically as the band position grows.
pub proof fn lemma_wheel_band1_monotonic(a: u8, b: u8)
    requires
        171 <= a <= b <= 255,
    ensures
        spec_wheel(b).r >= spec_wheel(a).r,
        spec_wheel(b).b <= spec_wheel(a).b,
        spec_wheel(a).g == 0,
{
}

/// Within the second band (inputs 86..=170), the green channel rises and the
/// blue channel falls monotonically as the band position grows.
pub proof fn lemma_wheel_band2_monotonic(a: u8, b: u8)
    requires
        86 <= a <= b <= 170,
    ensures
        spec_wheel(b).g <= spec_wheel(a).g,
        spec_wheel(b).b >= spec_wheel(a).b,
        spec_wheel(a).r == 0,
{
}

/// Within the third band (inputs 0..=85), the red channel rises and the
/// green channel falls monotonically as the band position grows.
pub proof fn lemma_wheel_band3_monotonic(a: u8, b: u8)
    requires
        a <= b <= 85,
    ensures
        spec_wheel(b).r <= spec_wheel(a).r,
        spec_wheel(b).g >= spec_wheel(a).g,
        spec_wheel(a).b == 0,
{
}

/// A car in flight: on the track no further than the despawn boundary, with
/// a positive bounded per-tick displacement, in one of the two lanes.
pub open spec fn car_wf(c: CarState) -> bool {
    &&& -MAX_CAR_DISTANCE <= c.position <= spec_track_end()
    &&& 0 < c.speed <= MAX_CAR_SPEED
    &&& c.lane < NUM_LANES
}

/// The slot array has its fixed capacity and every occupied slot holds a
/// well-formed car.
pub open spec fn slots_wf(cars: Seq<Option<CarState>>) -> bool {
    &&& cars.len() == MAX_CARS
    &&& forall|i: int| 0 <= i < cars.len() ==> (cars[i] is Some ==> car_wf(cars[i]->Some_0))
}

/// The kinematic step: a car's speed is added to its position.
pub open spec fn spec_advance(c: CarState) -> CarState {
    CarState { position: (c.position + c.speed) as i32, speed: c.speed, lane: c.lane }
}

/// Every occupied slot advanced by one kinematic step.
pub open spec fn spec_advanced(cars: Seq<Option<CarState>>) -> Seq<Option<CarState>> {
    Seq::new(
        cars.len(),
        |i: int|
            match cars[i] {
                Some(c) => Some(spec_advance(c)),
                None => None,
            },
    )
}

/// Every occupied slot whose car has advanced past the despawn boundary is
/// cleared; the rest are kept.
pub open spec fn spec_despawned(cars: Seq<Option<CarState>>) -> Seq<Option<CarState>> {
    Seq::new(
        cars.len(),
        |i: int|
            match cars[i] {
                Some(c) => if c.position > spec_track_end() {
                    None
                } else {
                    Some(c)
                },
                None => None,
            },
    )
}

/// Primary intensity of a reference point at clamped distance `dist`: a
/// fixed peak of 80 at distance zero, decaying linearly to zero at the
/// maximum influence distance.
pub open spec fn spec_glow(dist: int) -> int {
    80 * spec_clamp(MAX_CAR_DISTANCE - dist, 0, MAX_CAR_DISTANCE as int) / (MAX_CAR_DISTANCE as int)
}

/// Secondary intensity: decays four times faster, reaching zero at one
/// quarter of the maximum influence distance.
pub open spec fn spec_glow_falloff(dist: int) -> int {
    80 * spec_clamp(MAX_CAR_DISTANCE - dist * 4, 0, MAX_CAR_DISTANCE as int) / (MAX_CAR_DISTANCE as int)
}

/// Light the front reference point paints onto the LED at track position
/// `led_pos`: white-ish, at the full ramp on LEDs ahead of the point and at
/// the faster falloff ramp on LEDs behind it, the mirror image of the back
/// point, matching real headlight/taillight convention; nothing beyond the
/// maximum influence distance.
pub open spec fn spec_front_light(front: int, led_pos: int) -> Rgb8 {
    if led_pos - MAX_CAR_DISTANCE < front < led_pos + MAX_CAR_DISTANCE {
        let dist = vstd::math::min(vstd::math::abs(front - led_pos) as int, MAX_CAR_DISTANCE as int);
        if front < led_pos {
            Rgb8 {
                r: spec_glow(dist) as u8,
                g: spec_glow(dist) as u8,
                b: (spec_glow(dist) / 3) as u8,
            }
        } else {
            Rgb8 {
                r: spec_glow_falloff(dist) as u8,
                g: spec_glow_falloff(dist) as u8,
                b: (spec_glow_falloff(dist) / 3) as u8,
            }
        }
    } else {
        Rgb8 { r: 0u8, g: 0u8, b: 0u8 }
    }
}

/// Light the back reference point paints onto the LED at track position
/// `led_pos`: red, at full ramp behind the point and at the faster falloff
/// ramp ahead of it.
pub open spec fn spec_back_light(back: int, led_pos: int) -> Rgb8 {
    if led_pos - MAX_CAR_DISTANCE < back < led_pos + MAX_CAR_DISTANCE {
        let dist = vstd::math::min(vstd::math::abs(back - led_pos) as int, MAX_CAR_DISTANCE as int);
        if back < led_pos {
            Rgb8 { r: spec_glow_falloff(dist) as u8, g: 0u8, b: 0u8 }
        } else {
            Rgb8 { r: spec_glow(dist) as u8, g: 0u8, b: 0u8 }
        }
    } else {
        Rgb8 { r: 0u8, g: 0u8, b: 0u8 }
    }
}

/// All the light one car paints onto the LED with strip index `led`: the
/// front point 's and the back point's contributions, saturating-added, and
/// only within the car's own lane. The back point trails the front by the
/// car length.
pub open spec fn spec_car_light(c: CarState, led: int) -> Rgb8 {
    let lane_start = c.lane as int * NUM_LEDS_PER_LANE;
    if lane_start <= led < lane_start + NUM_LEDS_PER_LANE {
        let led_pos = spec_led_position(led - lane_start);
        spec_add_rgb(
            spec_front_light(c.position as int, led_pos),
            spec_back_light(c.position - CAR_LENGTH, led_pos),
        )
    } else {
        Rgb8 { r: 0u8, g: 0u8, b: 0u8 }
    }
}

/// The light one slot paints onto an LED: an empty slot paints nothing.
pub open spec fn spec_slot_light(slot: Option<CarState>, led: int) -> Rgb8 {
    match slot {
        Some(c) => spec_car_light(c, led),
        None => Rgb8 { r: 0u8, g: 0u8, b: 0u8 },
    }
}

/// All cars' light on one LED, accumulated slot by slot with saturating
/// per-channel addition.
pub open spec fn spec_cars_light(cars: Seq<Option<CarState>>, led: int) -> Rgb8
    decreases cars.len(),
{
    if cars.len() == 0 {
        Rgb8 { r: 0u8, g: 0u8, b: 0u8 }
    } else {
        spec_add_rgb(spec_cars_light(cars.drop_last(), led), spec_slot_light(cars.last(), led))
    }
}

/// Sum (uncapped) of the red channel of every slot's light on one LED.
pub open spec fn spec_sum_r(cars: Seq<Option<CarState>>, led: int) -> int
    decreases cars.len(),
{
    if cars.len() == 0 {
        0
    } else {
        spec_sum_r(cars.drop_last(), led) + spec_slot_light(cars.last(), led).r
    }
}

/// Sum (uncapped) of the green channel of every slot's light on one LED.
pub open spec fn spec_sum_g(cars: Seq<Option<CarState>>, led: int) -> int
    decreases cars.len(),
{
    if cars.len() == 0 {
        0
    } else {
        spec_sum_g(cars.drop_last(), led) + spec_slot_light(cars.last(), led).g
    }
}

/// Sum (uncapped) of the blue channel of every slot's light on one LED.
pub open spec fn spec_sum_b(cars: Seq<Option<CarState>>, led: int) -> int
    decreases cars.len(),
{
    if cars.len() == 0 {
        0
    } else {
        spec_sum_b(cars.drop_last(), led) + spec_slot_light(cars.last(), led).b
    }
}

/// A channel sum capped at the maximum intensity.
pub open spec fn cap255(x: int) -> int {
    if x > 255 {
        255
    } else {
        x
    }
}

/// Accumulating any number of overlapping car contributions with saturating
/// addition yields exactly the capped channel sum: the channel clamps at the
/// maximum representable intensity instead of wrapping, however many cars
/// share the LED.
pub proof fn lemma_cars_light_is_capped_sum(cars: Seq<Option<CarState>>, led: int)
    ensures
        spec_cars_light(cars, led).r == cap255(spec_sum_r(cars, led)),
        spec_cars_light(cars, led).g == cap255(spec_sum_g(cars, led)),
        spec_cars_light(cars, led).b == cap255(spec_sum_b(cars, led)),
        0 <= spec_sum_r(cars, led),
        0 <= spec_sum_g(cars, led),
        0 <= spec_sum_b(cars, led),
    decreases cars.len(),
{
    if cars.len() > 0 {
        lemma_cars_light_is_capped_sum(cars.drop_last(), led);
    }
}

/// A rendered pixel never exceeds the maximum channel value, no matter how
/// many cars' contributions overlap on the LED.
pub proof fn lemma_rendered_pixel_bounded(base: Rgb8, cars: Seq<Option<CarState>>, led: int)
    ensures
        spec_add_rgb(base, spec_cars_light(cars, led)).r <= 255,
        spec_add_rgb(base, spec_cars_light(cars, led)).g <= 255,
        spec_add_rgb(base, spec_cars_light(cars, led)).b <= 255,
{
}

/// A car with positive speed strictly advances on every kinematic step.
pub proof fn lemma_car_position_increases(c: CarState)
    requires
        car_wf(c),
    ensures
        spec_advance(c).position > c.position,
{
}

/// An occupied slot is cleared by the step exactly when its advanced
/// position has passed the last LED's track position by more than the
/// maximum influence distance; otherwise the advanced car stays.
pub proof fn lemma_despawn_exactly_past_end(cars: Seq<Option<CarState>>, i: int)
    requires
        slots_wf(cars),
        0 <= i < cars.len(),
        cars[i] is Some,
    ensures
        spec_despawned(spec_advanced(cars))[i] == if spec_advance(cars[i]->Some_0).position
            > spec_track_end() {
            None::<CarState>
        } else {
            Some(spec_advance(cars[i]->Some_0))
        },
{
}

/// Light the front reference point at `front` paints onto the LED at track
/// position `led_pos`.
fn front_light(front: i32, led_pos: i32) -> (c: Rgb8)
    requires
        -200000 <= front <= 100000000,
        0 <= led_pos <= 36300,
    ensures
        c == spec_front_light(front as int, led_pos as int),
{
    if front > led_pos - MAX_CAR_DISTANCE && front < led_pos + MAX_CAR_DISTANCE {
        let diff = front - led_pos;
        let dabs = if diff < 0 {
            0 - diff
        } else {
            diff
        };
        let dist = if dabs < MAX_CAR_DISTANCE {
            dabs
        } else {
            MAX_CAR_DISTANCE
        };
        let power = (80 * clamp(MAX_CAR_DISTANCE - dist, 0, MAX_CAR_DISTANCE) / MAX_CAR_DISTANCE)
            as u8;
        let falloff = (80 * clamp(MAX_CAR_DISTANCE - dist * 4, 0, MAX_CAR_DISTANCE)
            / MAX_CAR_DISTANCE) as u8;
        if front < led_pos {
            Rgb8::new(power, power, power / 3)
        } else {
            Rgb8::new(falloff, falloff, falloff / 3)
        }
    } else {
        Rgb8::new(0, 0, 0)
    }
}

/// Light the back reference point at `back` paints onto the LED at track
/// position `led_pos`.
fn back_light(back: i32, led_pos: i32) -> (c: Rgb8)
    requires
        -200000 <= back <= 100000000,
        0 <= led_pos <= 36300,
    ensures
        c == spec_back_light(back as int, led_pos as int),
{
    if back > led_pos - MAX_CAR_DISTANCE && back < led_pos + MAX_CAR_DISTANCE {
        let diff = back - led_pos;
        let dabs = if diff < 0 {
            0 - diff
        } else {
            diff
        };
        let dist = if dabs < MAX_CAR_DISTANCE {
            dabs
        } else {
            MAX_CAR_DISTANCE
        };
        let power = (80 * clamp(MAX_CAR_DISTANCE - dist, 0, MAX_CAR_DISTANCE) / MAX_CAR_DISTANCE)
            as u8;
        let falloff = (80 * clamp(MAX_CAR_DISTANCE - dist * 4, 0, MAX_CAR_DISTANCE)
            / MAX_CAR_DISTANCE) as u8;
        if back < led_pos {
            Rgb8::new(falloff, 0, 0)
        } else {
            Rgb8::new(power, 0, 0)
        }
    } else {
        Rgb8::new(0, 0, 0)
    }
}

/// Accumulates one car's light onto the working frame: both reference
/// points, onto every LED of the car's own lane.
fn render_car(car_light: &mut Vec<Rgb8>, car: CarState)
    requires
        old(car_light).len() == NUM_LEDS,
        -100000 <= car.position <= 100000000 - CAR_LENGTH,
        car.lane < NUM_LANES,
    ensures
        final(car_light).len() == NUM_LEDS,
        forall|led: int|
            0 <= led < NUM_LEDS ==> final(car_light)@[led] == spec_add_rgb(
                old(car_light)@[led],
                spec_car_light(car, led),
            ),
{
    let ghost entry = car_light@;
    let lane_start: usize = (car.lane as usize) * NUM_LEDS_PER_LANE;
    let mut i: usize = 0;
    while i < NUM_LEDS_PER_LANE
        invariant
            i <= NUM_LEDS_PER_LANE,
            car_light.len() == NUM_LEDS,
            entry.len() == NUM_LEDS,
            -100000 <= car.position <= 100000000 - CAR_LENGTH,
            car.lane < NUM_LANES,
            lane_start == car.lane as int * NUM_LEDS_PER_LANE,
            forall|led: int|
                lane_start <= led < lane_start + i ==> car_light@[led] == spec_add_rgb(
                    entry[led],
                    spec_car_light(car, led),
                ),
            forall|led: int|
                0 <= led < NUM_LEDS && !(lane_start <= led < lane_start + i) ==> car_light@[led]
                    == entry[led],
        decreases NUM_LEDS_PER_LANE - i,
    {
        let led_pos = led_position(i) as i32;
        let led_idx = lane_start + i;
        let f = front_light(car.position, led_pos);
        let b = back_light(car.position - CAR_LENGTH, led_pos);
        let mut px = car_light[led_idx];
        add_rgb_saturating(&mut px, f);
        add_rgb_saturating(&mut px, b);
        proof {
            crate::color::lemma_sat_add_assoc(
                entry[led_idx as int],
                spec_front_light(car.position as int, led_pos as int),
                spec_back_light(car.position - CAR_LENGTH, led_pos as int),
            );
        }
        car_light.set(led_idx, px);
        i = i + 1;
    }
    proof {
        assert forall|led: int| 0 <= led < NUM_LEDS implies car_light@[led] == spec_add_rgb(
            entry[led],
            spec_car_light(car, led),
        ) by {
            if !(lane_start <= led < lane_start + NUM_LEDS_PER_LANE) {
                crate::color::lemma_sat_add_black(entry[led]);
            }
        }
    }
}

/// The three uniform draws one tick's spawn attempt may consume: the speed
/// extra, the lane pick, and the next spawn offset.
#[derive(Clone, Copy, PartialEq, Eq, Structural, Debug)]
pub struct SpawnDraws {
    pub extra: u32,
    pub lane: u32,
    pub interval: u32,
}

/// The spawn window: open from just after the scheduled tick until the
/// tolerance window closes, under wrapping tick arithmetic.
pub open spec fn spec_window_open(cycle: u16, next: u16) -> bool {
    cycle > next && cycle < vstd::wrapping::u16_specs::wrapping_add(next, SPAWN_WINDOW)
}

/// The smallest free slot index at or after `i`, or the array length when
/// every later slot is occupied.
pub open spec fn spec_first_free_from(cars: Seq<Option<CarState>>, i: int) -> int
    decreases cars.len() - i,
{
    if i < 0 || i >= cars.len() {
        cars.len() as int
    } else if cars[i] is None {
        i
    } else {
        spec_first_free_from(cars, i + 1)
    }
}

/// The smallest free slot index, or the array length when the array is full.
pub open spec fn spec_first_free(cars: Seq<Option<CarState>>) -> int {
    spec_first_free_from(cars, 0)
}

/// The car a successful spawn places: at the track's negative entry
/// boundary, with the speed limit plus a uniform extra of 0-10 km/h
/// converted to a per-tick displacement, in a uniformly drawn lane.
pub open spec fn spec_new_car(speed_limit_kph: u32, d: SpawnDraws) -> CarState {
    CarState {
        position: (-MAX_CAR_DISTANCE) as i32,
        speed: (434 * (speed_limit_kph + d.extra % 11) / 100) as i32,
        lane: (d.lane % 2) as u8,
    }
}

/// The tick a successful spawn schedules next: the current tick plus a
/// uniform offset from the configured interval range, wrapping.
pub open spec fn spec_next_spawn(cycle: u16, min_interval: u16, max_interval: u16, d: SpawnDraws) -> u16 {
    let interval = (min_interval + d.interval % ((max_interval - min_interval + 1) as u32)) as u16;
    vstd::wrapping::u16_specs::wrapping_add(cycle, interval)
}

/// The spawn step: while the window is open and a slot is free, the first
/// free slot is filled and the next spawn is scheduled; otherwise the slots
/// and the schedule are untouched (oversaturation drops the attempt but
/// keeps the window open).
pub open spec fn spec_spawn_slots(
    cars: Seq<Option<CarState>>,
    cycle: u16,
    next: u16,
    speed_limit_kph: u32,
    d: SpawnDraws,
) -> Seq<Option<CarState>> {
    if spec_window_open(cycle, next) && spec_first_free(cars) < cars.len() {
        cars.update(spec_first_free(cars), Some(spec_new_car(speed_limit_kph, d)))
    } else {
        cars
    }
}

/// The schedule after the spawn step: advanced only on a successful spawn.
pub open spec fn spec_spawn_next(
    cars: Seq<Option<CarState>>,
    cycle: u16,
    next: u16,
    min_interval: u16,
    max_interval: u16,
    d: SpawnDraws,
) -> u16 {
    if spec_window_open(cycle, next) && spec_first_free(cars) < cars.len() {
        spec_next_spawn(cycle, min_interval, max_interval, d)
    } else {
        next
    }
}

/// The first free slot, with the characterization the search loop shows.
fn find_first_free(cars: &Vec<Option<CarState>>) -> (r: usize)
    ensures
        r == spec_first_free(cars@),
        r <= cars.len(),
{
    let mut i: usize = 0;
    while i < cars.len()
        invariant
            i <= cars.len(),
            spec_first_free(cars@) == spec_first_free_from(cars@, i as int),
        decreases cars.len() - i,
    {
        if cars[i].is_none() {
            return i;
        }
        i = i + 1;
    }
    i
}

/// Sets every LED of the working frame to one color.
fn fill_frame(data: &mut Vec<Rgb8>, c: Rgb8)
    requires
        old(data).len() == NUM_LEDS,
    ensures
        final(data).len() == NUM_LEDS,
        forall|i: int| 0 <= i < NUM_LEDS ==> final(data)@[i] == c,
{
    let mut i: usize = 0;
    while i < NUM_LEDS
        invariant
            i <= NUM_LEDS,
            data.len() == NUM_LEDS,
            forall|j: int| 0 <= j < i ==> data@[j] == c,
        decreases NUM_LEDS - i,
    {
        data.set(i, c);
        i = i + 1;
    }
}

/// The color the rainbow mode gives the LED at strip index `i` on tick
/// `cycle`: a hue-wheel position shifted along the strip and with time.
pub open spec fn spec_rainbow_pixel(i: int, cycle: u16) -> Rgb8 {
    spec_wheel(((i * 16 + cycle) % 256) as u8)
}

/// Renders the continuously shifting rainbow for one tick.
fn render_rainbow(data: &mut Vec<Rgb8>, cycle: u16)
    requires
        old(data).len() == NUM_LEDS,
    ensures
        final(data).len() == NUM_LEDS,
        forall|i: int| 0 <= i < NUM_LEDS ==> final(data)@[i] == spec_rainbow_pixel(i, cycle),
{
    let mut i: usize = 0;
    while i < NUM_LEDS
        invariant
            i <= NUM_LEDS,
            data.len() == NUM_LEDS,
            forall|j: int| 0 <= j < i ==> data@[j] == spec_rainbow_pixel(j, cycle),
        decreases NUM_LEDS - i,
    {
        let base: u16 = (i * 256) as u16 / (NUM_LEDS as u16);
        let pos16: u16 = base.wrapping_add(cycle);
        let pos: u8 = (pos16 & 255) as u8;
        proof {
            vstd::arithmetic::div_mod::lemma_div_multiples_vanish(16 * i as int, 16);
            assert(base == 16 * i as int);
            assert(pos16 & 255 == pos16 % 256) by (bit_vector);
            if base + cycle > u16::MAX {
                vstd::arithmetic::div_mod::lemma_mod_multiples_vanish(
                    256,
                    base + cycle - 65536,
                    256,
                );
            }
            assert(pos == ((i * 16 + cycle) % 256) as u8);
        }
        data.set(i, wheel(pos));
        i = i + 1;
    }
}

/// Advances, renders and despawns every active car: each occupied slot's car
/// moves by its speed, paints both its reference points onto the working
/// frame, and leaves its slot once past the despawn boundary.
fn cars_step(cars: &mut Vec<Option<CarState>>, car_light: &mut Vec<Rgb8>)
    requires
        slots_wf(old(cars)@),
        old(car_light).len() == NUM_LEDS,
        forall|led: int|
            0 <= led < NUM_LEDS ==> old(car_light)@[led] == (Rgb8 { r: 0u8, g: 0u8, b: 0u8 }),
    ensures
        final(cars)@ == spec_despawned(spec_advanced(old(cars)@)),
        slots_wf(final(cars)@),
        final(car_light).len() == NUM_LEDS,
        forall|led: int|
            0 <= led < NUM_LEDS ==> final(car_light)@[led] == spec_cars_light(
                spec_advanced(old(cars)@),
                led,
            ),
{
    let ghost orig = cars@;
    let ghost adv = spec_advanced(orig);
    let ghost stepped = spec_despawned(adv);
    let mut j: usize = 0;
    proof {
        assert(adv.take(0) =~= Seq::<Option<CarState>>::empty());
    }
    while j < MAX_CARS
        invariant
            j <= MAX_CARS,
            slots_wf(orig),
            adv == spec_advanced(orig),
            stepped == spec_despawned(adv),
            cars.len() == MAX_CARS,
            car_light.len() == NUM_LEDS,
            forall|k: int| j <= k < MAX_CARS ==> cars@[k] == orig[k],
            forall|k: int| 0 <= k < j ==> cars@[k] == stepped[k],
            forall|led: int|
                0 <= led < NUM_LEDS ==> car_light@[led] == spec_cars_light(
                    adv.take(j as int),
                    led,
                ),
        decreases MAX_CARS - j,
    {
        let slot = cars[j];
        match slot {
            Some(car) => {
                let moved = CarState {
                    position: car.position + car.speed,
                    speed: car.speed,
                    lane: car.lane,
                };
                let ghost before = car_light@;
                render_car(car_light, moved);
                if moved.position > led_position(NUM_LEDS_PER_LANE - 1) as i32 + MAX_CAR_DISTANCE {
                    cars.set(j, None);
                } else {
                    cars.set(j, Some(moved));
                }
                proof {
                    assert(adv[j as int] == Some(moved));
                    assert(adv.take(j + 1).drop_last() =~= adv.take(j as int));
                    assert(adv.take(j + 1).last() == adv[j as int]);
                }
            },
            None => {
                proof {
                    assert(adv[j as int] is None);
                    assert(adv.take(j + 1).drop_last() =~= adv.take(j as int));
                    assert(adv.take(j + 1).last() == adv[j as int]);
                    assert forall|led: int| 0 <= led < NUM_LEDS implies car_light@[led]
                        == spec_cars_light(adv.take(j + 1), led) by {
                        crate::color::lemma_sat_add_black(
                            spec_cars_light(adv.take(j as int), led),
                        );
                    }
                }
            },
        }
        j = j + 1;
    }
    proof {
        assert(adv.take(MAX_CARS as int) =~= adv);
        assert(cars@ =~= stepped);
    }
}

/// The per-tick state of the underpass light controller: the rendered frame,
/// the wrapping tick counter, the car slot array, the last seen lighting
/// mode, and the tick at which the next car spawn is scheduled.
pub struct UnderpassLightsRunner {
    pub data: Vec<Rgb8>,
    pub cycle: u16,
    pub cars: Vec<Option<CarState>>,
    pub last_state: LightingState,
    pub next_car_spawn_cycle: u16,
}

impl UnderpassLightsRunner {
    /// The controller's invariant: a full-length frame and a slot array of
    /// fixed capacity holding only well-formed cars.
    pub open spec fn wf(self) -> bool {
        &&& self.data.len() == NUM_LEDS
        &&& slots_wf(self.cars@)
    }

    /// A freshly (re)started controller: a dark frame, the tick counter at
    /// zero, no cars, the last seen mode `Off`, and the first spawn
    /// scheduled at tick 10.
    pub fn new() -> (r: Self)
        ensures
            r.wf(),
            r.cycle == 0,
            r.last_state == LightingState::Off,
            r.next_car_spawn_cycle == 10,
            forall|i: int| 0 <= i < NUM_LEDS ==> r.data@[i] == (Rgb8 { r: 0u8, g: 0u8, b: 0u8 }),
            forall|i: int| 0 <= i < MAX_CARS ==> r.cars@[i] is None,
    {
        let mut data: Vec<Rgb8> = Vec::new();
        let mut i: usize = 0;
        while i < NUM_LEDS
            invariant
                i <= NUM_LEDS,
                data.len() == i,
                forall|j: int| 0 <= j < i ==> data@[j] == (Rgb8 { r: 0u8, g: 0u8, b: 0u8 }),
            decreases NUM_LEDS - i,
        {
            data.push(Rgb8 { r: 0, g: 0, b: 0 });
            i = i + 1;
        }
        let mut cars: Vec<Option<CarState>> = Vec::new();
        let mut k: usize = 0;
        while k < MAX_CARS
            invariant
                k <= MAX_CARS,
                cars.len() == k,
                forall|j: int| 0 <= j < k ==> cars@[j] is None,
            decreases MAX_CARS - k,
        {
            cars.push(None);
            k = k + 1;
        }
        UnderpassLightsRunner {
            data,
            cycle: 0,
            cars,
            last_state: LightingState::Off,
            next_car_spawn_cycle: 10,
        }
    }

    /// One 10 ms tick: branches on the configured lighting mode, renders the
    /// frame, steps the traffic simulation under `Cars`, records the mode as
    /// last seen and advances the wrapping tick counter. Returns whether the
    /// frame changed and must be retransmitted to the strip. The three
    /// random draws are consumed only by a successful spawn attempt.
    pub fn tick(&mut self, lights: &LightingState, draws: &SpawnDraws) -> (dirty: bool)
        requires
            old(self).wf(),
            lighting_wf(*lights),
        ensures
            final(self).wf(),
            final(self).cycle == vstd::wrapping::u16_specs::wrapping_add(old(self).cycle, 1),
            final(self).last_state == *lights,
            ({
                match *lights {
                    LightingState::Off => {
                        &&& final(self).cars@ == old(self).cars@
                        &&& final(self).next_car_spawn_cycle == old(self).next_car_spawn_cycle
                        &&& dirty == (old(self).last_state != LightingState::Off)
                        &&& if dirty {
                            forall|i: int|
                                0 <= i < NUM_LEDS ==> final(self).data@[i] == (Rgb8 {
                                    r: 0u8,
                                    g: 0u8,
                                    b: 0u8,
                                })
                        } else {
                            final(self).data@ == old(self).data@
                        }
                    },
                    LightingState::SingleColour(colour) => {
                        &&& final(self).cars@ == old(self).cars@
                        &&& final(self).next_car_spawn_cycle == old(self).next_car_spawn_cycle
                        &&& dirty == (old(self).last_state != LightingState::SingleColour(colour))
                        &&& if dirty {
                            forall|i: int| 0 <= i < NUM_LEDS ==> final(self).data@[i] == colour
                        } else {
                            final(self).data@ == old(self).data@
                        }
                    },
                    LightingState::RainbowCycle => {
                        &&& final(self).cars@ == old(self).cars@
                        &&& final(self).next_car_spawn_cycle == old(self).next_car_spawn_cycle
                        &&& dirty == true
                        &&& forall|i: int|
                            0 <= i < NUM_LEDS ==> final(self).data@[i] == spec_rainbow_pixel(
                                i,
                                old(self).cycle,
                            )
                    },
                    LightingState::Cars {
                        default_color,
                        min_interval,
                        max_interval,
                        speed_limit_kph,
                    } => {
                        let adv = spec_advanced(old(self).cars@);
                        let stepped = spec_despawned(adv);
                        &&& dirty == true
                        &&& forall|i: int|
                            0 <= i < NUM_LEDS ==> final(self).data@[i] == spec_add_rgb(
                                default_color,
                                spec_cars_light(adv, i),
                            )
                        &&& final(self).cars@ == spec_spawn_slots(
                            stepped,
                            old(self).cycle,
                            old(self).next_car_spawn_cycle,
                            speed_limit_kph,
                            *draws,
                        )
                        &&& final(self).next_car_spawn_cycle == spec_spawn_next(
                            stepped,
                            old(self).cycle,
                            old(self).next_car_spawn_cycle,
                            min_interval,
                            max_interval,
                            *draws,
                        )
                    },
                }
            }),
    {
        let dirty: bool;
        match *lights {
            LightingState::Off => {
                if self.last_state != LightingState::Off {
                    fill_frame(&mut self.data, Rgb8 { r: 0, g: 0, b: 0 });
                    dirty = true;
                } else {
                    dirty = false;
                }
            },
            LightingState::SingleColour(colour) => {
                if self.last_state != LightingState::SingleColour(colour) {
                    fill_frame(&mut self.data, colour);
                    dirty = true;
                } else {
                    dirty = false;
                }
            },
            LightingState::RainbowCycle => {
                render_rainbow(&mut self.data, self.cycle);
                dirty = true;
            },
            LightingState::Cars { default_color, min_interval, max_interval, speed_limit_kph } => {
                let ghost adv = spec_advanced(self.cars@);
                let ghost stepped = spec_despawned(adv);
                let ghost cyc0 = self.cycle;
                let ghost next0 = self.next_car_spawn_cycle;
                let ghost last0 = self.last_state;
                let mut car_light: Vec<Rgb8> = Vec::new();
                let mut n: usize = 0;
                while n < NUM_LEDS
                    invariant
                        n <= NUM_LEDS,
                        car_light.len() == n,
                        forall|j: int|
                            0 <= j < n ==> car_light@[j] == (Rgb8 { r: 0u8, g: 0u8, b: 0u8 }),
                    decreases NUM_LEDS - n,
                {
                    car_light.push(Rgb8 { r: 0, g: 0, b: 0 });
                    n = n + 1;
                }
                cars_step(&mut self.cars, &mut car_light);
                let mut i: usize = 0;
                while i < NUM_LEDS
                    invariant
                        i <= NUM_LEDS,
                        self.data.len() == NUM_LEDS,
                        car_light.len() == NUM_LEDS,
                        self.cars@ == stepped,
                        slots_wf(self.cars@),
                        self.cycle == cyc0,
                        self.next_car_spawn_cycle == next0,
                        self.last_state == last0,
                        forall|led: int|
                            0 <= led < NUM_LEDS ==> car_light@[led] == spec_cars_light(adv, led),
                        forall|j: int|
                            0 <= j < i ==> self.data@[j] == spec_add_rgb(
                                default_color,
                                spec_cars_light(adv, j),
                            ),
                    decreases NUM_LEDS - i,
                {
                    let mut px = default_color;
                    add_rgb_saturating(&mut px, car_light[i]);
                    self.data.set(i, px);
                    i = i + 1;
                }
                dirty = true;
                if self.cycle > self.next_car_spawn_cycle && self.cycle
                    < self.next_car_spawn_cycle.wrapping_add(SPAWN_WINDOW) {
                    let free = find_first_free(&self.cars);
                    if free < MAX_CARS {
                        let extra_kph = draws.extra % 11;
                        let car_kph = speed_limit_kph + extra_kph;
                        let mm_per_tick = (434 * car_kph) / 100;
                        let speed = mm_per_tick as i32;
                        self.cars.set(
                            free,
                            Some(
                                CarState {
                                    position: -MAX_CAR_DISTANCE,
                                    speed,
                                    lane: (draws.lane % 2) as u8,
                                },
                            ),
                        );
                        let interval = min_interval + (draws.interval % ((max_interval
                            - min_interval + 1) as u32)) as u16;
                        self.next_car_spawn_cycle = self.cycle.wrapping_add(interval);
                    }
                }
            },
        }
        self.last_state = *lights;
        self.cycle = self.cycle.wrapping_add(1);
        dirty
    }
}

} // verus!
