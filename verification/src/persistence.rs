//! Byte-level persistence of the shared configuration: a fixed-layout
//! little-endian encoding that always fits the byte store's slot, a strict
//! decoder that rejects anything but a canonical record, and the
//! change-detecting persistence loop's state machine. The byte store itself
//! (flash, a file) is an external collaborator: the host hands bytes in and
//! out. The layout is this library's own: a record persisted in any other
//! format fails to decode and the restore falls back to the defaults.

use vstd::prelude::*;

use crate::state::{config_wf, spec_default_config, ConfigView, SharedState};
use crate::streetlamps::StreetlampMode;
use crate::underpass_lights::{LightingState, SPEED_LIMIT_KPH_MAX};
use crate::color::Rgb8;

verus! {

/// Length of an encoded configuration record.
pub const ENCODED_LEN: usize = 44;

/// The documented hard ceiling on an encoded record: a bit below the slot
/// the byte store reserves, so the record can never be silently truncated.
pub const STORE_BUFFER_CEILING: usize = 100;

/// Why a record could not be written or read back.
#[derive(Clone, Copy, PartialEq, Eq, Structural, Debug)]
pub enum SerializationError {
    BufferTooSmall,
    InvalidData,
}

/// A 16-bit value as two little-endian bytes.
pub open spec fn spec_u16_le(x: u16) -> Seq<u8> {
    seq![(x % 256) as u8, (x / 256) as u8]
}

/// A 32-bit value as four little-endian bytes.
pub open spec fn spec_u32_le(x: u32) -> Seq<u8> {
    seq![(x % 256) as u8, (x / 256 % 256) as u8, (x / 65536 % 256) as u8, (x / 16777216) as u8]
}

/// The 16-bit value two little-endian bytes hold.
pub open spec fn spec_u16_from_le(b0: u8, b1: u8) -> u16 {
    (b0 + 256 * b1) as u16
}

/// The 32-bit value four little-endian bytes hold.
pub open spec fn spec_u32_from_le(b0: u8, b1: u8, b2: u8, b3: u8) -> u32 {
    (b0 + 256 * b1 + 65536 * b2 + 16777216 * b3) as u32
}

/// Reading back two little-endian bytes gives the encoded value.
pub proof fn lemma_u16_le_round_trip(x: u16)
    ensures
        spec_u16_from_le(spec_u16_le(x)[0], spec_u16_le(x)[1]) == x,
{
    vstd::arithmetic::div_mod::lemma_fundamental_div_mod(x as int, 256);
}

/// Reading back four little-endian bytes gives the encoded value.
pub proof fn lemma_u32_le_round_trip(x: u32)
    ensures
        spec_u32_from_le(
            spec_u32_le(x)[0],
            spec_u32_le(x)[1],
            spec_u32_le(x)[2],
            spec_u32_le(x)[3],
        ) == x,
{
    vstd::arithmetic::div_mod::lemma_fundamental_div_mod(x as int, 256);
    vstd::arithmetic::div_mod::lemma_fundamental_div_mod(x as int / 256, 256);
    vstd::arithmetic::div_mod::lemma_fundamental_div_mod(x as int / 65536, 256);
    vstd::arithmetic::div_mod::lemma_div_denominator(x as int, 256, 256);
    vstd::arithmetic::div_mod::lemma_div_denominator(x as int, 65536, 256);
}

/// One lamp mode as a tag byte and a 32-bit chance (zero for the untagged
/// variants).
pub open spec fn spec_mode_bytes(m: StreetlampMode) -> Seq<u8> {
    match m {
        StreetlampMode::Off => seq![0u8] + spec_u32_le(0),
        StreetlampMode::On => seq![1u8] + spec_u32_le(0),
        StreetlampMode::Flickering { chance } => seq![2u8] + spec_u32_le(chance),
    }
}

/// The lighting state as a tag byte, a color, two 16-bit interval bounds and
/// a 32-bit speed limit; fields a variant does not carry are zero.
pub open spec fn spec_lighting_bytes(s: LightingState) -> Seq<u8> {
    match s {
        LightingState::Off => seq![0u8, 0u8, 0u8, 0u8] + spec_u16_le(0) + spec_u16_le(0)
            + spec_u32_le(0),
        LightingState::SingleColour(c) => seq![1u8, c.r, c.g, c.b] + spec_u16_le(0) + spec_u16_le(0)
            + spec_u32_le(0),
        LightingState::RainbowCycle => seq![2u8, 0u8, 0u8, 0u8] + spec_u16_le(0) + spec_u16_le(0)
            + spec_u32_le(0),
        LightingState::Cars { default_color, min_interval, max_interval, speed_limit_kph } => seq![
            3u8,
            default_color.r,
            default_color.g,
            default_color.b,
        ] + spec_u16_le(min_interval) + spec_u16_le(max_interval) + spec_u32_le(speed_limit_kph),
    }
}

/// The canonical encoding of a configuration: the enable flag, the reserved
/// brightness, the six lamp modes, then the lighting state.
pub open spec fn spec_encode(c: ConfigView) -> Seq<u8> {
    seq![if c.streetlamps_enabled { 1u8 } else { 0u8 }, c.streetlamps_brightness]
        + spec_mode_bytes(c.streetlamps_modes[0]) + spec_mode_bytes(c.streetlamps_modes[1])
        + spec_mode_bytes(c.streetlamps_modes[2]) + spec_mode_bytes(c.streetlamps_modes[3])
        + spec_mode_bytes(c.streetlamps_modes[4]) + spec_mode_bytes(c.streetlamps_modes[5])
        + spec_lighting_bytes(c.underpass_lights_state)
}

/// An encoded record always has the fixed length, below the store ceiling.
pub proof fn lemma_encode_len(c: ConfigView)
    ensures
        spec_encode(c).len() == ENCODED_LEN,
        spec_encode(c).len() <= STORE_BUFFER_CEILING,
{
}

/// The lamp mode five bytes at `base` hold, if they are canonical: a valid
/// tag, a zero chance for the untagged variants, a percentage for a
/// flickering lamp.
pub open spec fn spec_decode_mode(bytes: Seq<u8>, base: int) -> Option<StreetlampMode> {
    let tag = bytes[base];
    let chance = spec_u32_from_le(bytes[base + 1], bytes[base + 2], bytes[base + 3], bytes[base
        + 4]);
    if tag == 0 && chance == 0 {
        Some(StreetlampMode::Off)
    } else if tag == 1 && chance == 0 {
        Some(StreetlampMode::On)
    } else if tag == 2 && chance <= 100 {
        Some(StreetlampMode::Flickering { chance })
    } else {
        None
    }
}

/// The lighting state the record's tail holds, if it is canonical and
/// well-formed.
pub open spec fn spec_decode_lighting(bytes: Seq<u8>) -> Option<LightingState> {
    let tag = bytes[32];
    let col = Rgb8 { r: bytes[33], g: bytes[34], b: bytes[35] };
    let min_interval = spec_u16_from_le(bytes[36], bytes[37]);
    let max_interval = spec_u16_from_le(bytes[38], bytes[39]);
    let speed = spec_u32_from_le(bytes[40], bytes[41], bytes[42], bytes[43]);
    if tag == 0 && col == (Rgb8 { r: 0u8, g: 0u8, b: 0u8 }) && min_interval == 0 && max_interval
        == 0 && speed == 0 {
        Some(LightingState::Off)
    } else if tag == 1 && min_interval == 0 && max_interval == 0 && speed == 0 {
        Some(LightingState::SingleColour(col))
    } else if tag == 2 && col == (Rgb8 { r: 0u8, g: 0u8, b: 0u8 }) && min_interval == 0
        && max_interval == 0 && speed == 0 {
        Some(LightingState::RainbowCycle)
    } else if tag == 3 && min_interval <= max_interval && max_interval - min_interval < 65535 && 0
        < speed <= SPEED_LIMIT_KPH_MAX {
        Some(
            LightingState::Cars {
                default_color: col,
                min_interval,
                max_interval,
                speed_limit_kph: speed,
            },
        )
    } else {
        None
    }
}

/// The configuration a byte record holds: rejects a short record, a
/// non-canonical field, or one that breaks the configuration invariant.
pub open spec fn spec_decode(bytes: Seq<u8>) -> Option<ConfigView> {
    if bytes.len() < ENCODED_LEN {
        None
    } else if bytes[0] != 0 && bytes[0] != 1 {
        None
    } else if spec_decode_mode(bytes, 2) is None || spec_decode_mode(bytes, 7) is None
        || spec_decode_mode(bytes, 12) is None || spec_decode_mode(bytes, 17) is None
        || spec_decode_mode(bytes, 22) is None || spec_decode_mode(bytes, 27) is None {
        None
    } else if spec_decode_lighting(bytes) is None {
        None
    } else {
        Some(
            ConfigView {
                streetlamps_enabled: bytes[0] == 1,
                streetlamps_brightness: bytes[1],
                streetlamps_modes: seq![
                    spec_decode_mode(bytes, 2)->Some_0,
                    spec_decode_mode(bytes, 7)->Some_0,
                    spec_decode_mode(bytes, 12)->Some_0,
                    spec_decode_mode(bytes, 17)->Some_0,
                    spec_decode_mode(bytes, 22)->Some_0,
                    spec_decode_mode(bytes, 27)->Some_0,
                ],
                underpass_lights_state: spec_decode_lighting(bytes)->Some_0,
            },
        )
    }
}

/// A decoded configuration satisfies the configuration invariant.
pub proof fn lemma_decode_wf(bytes: Seq<u8>)
    requires
        spec_decode(bytes) is Some,
    ensures
        config_wf(spec_decode(bytes)->Some_0),
{
    let c = spec_decode(bytes)->Some_0;
    assert forall|i: int| 0 <= i < c.streetlamps_modes.len() implies crate::streetlamps::mode_wf(
        #[trigger] c.streetlamps_modes[i],
    ) by {
        assert(c.streetlamps_modes[i] == spec_decode_mode(bytes, 2 + 5 * i)->Some_0);
    }
}

/// Where each lamp mode's five bytes sit in the encoding.
#[verifier::rlimit(100)]
proof fn lemma_encode_mode_segment(c: ConfigView, i: int)
    requires
        0 <= i < 6,
    ensures
        forall|k: int|
            0 <= k < 5 ==> spec_encode(c)[2 + 5 * i + k] == spec_mode_bytes(
                c.streetlamps_modes[i],
            )[k],
{
    let m0 = spec_mode_bytes(c.streetlamps_modes[0]);
    let m1 = spec_mode_bytes(c.streetlamps_modes[1]);
    let m2 = spec_mode_bytes(c.streetlamps_modes[2]);
    let m3 = spec_mode_bytes(c.streetlamps_modes[3]);
    let m4 = spec_mode_bytes(c.streetlamps_modes[4]);
    let m5 = spec_mode_bytes(c.streetlamps_modes[5]);
    let lb = spec_lighting_bytes(c.underpass_lights_state);
    assert(m0.len() == 5 && m1.len() == 5 && m2.len() == 5 && m3.len() == 5 && m4.len() == 5
        && m5.len() == 5 && lb.len() == 12);
    assert forall|k: int| 0 <= k < 5 implies spec_encode(c)[2 + 5 * i + k] == spec_mode_bytes(
        c.streetlamps_modes[i],
    )[k] by {
        if i == 0 {
            assert(spec_encode(c)[2 + k] == m0[k]);
        } else if i == 1 {
            assert(spec_encode(c)[7 + k] == m1[k]);
        } else if i == 2 {
            assert(spec_encode(c)[12 + k] == m2[k]);
        } else if i == 3 {
            assert(spec_encode(c)[17 + k] == m3[k]);
        } else if i == 4 {
            assert(spec_encode(c)[22 + k] == m4[k]);
        } else {
            assert(spec_encode(c)[27 + k] == m5[k]);
        }
    }
}

/// Where the lighting state's twelve bytes sit in the encoding.
#[verifier::rlimit(100)]
proof fn lemma_encode_lighting_segment(c: ConfigView)
    ensures
        forall|k: int|
            0 <= k < 12 ==> spec_encode(c)[32 + k] == spec_lighting_bytes(
                c.underpass_lights_state,
            )[k],
{
    let m0 = spec_mode_bytes(c.streetlamps_modes[0]);
    let m1 = spec_mode_bytes(c.streetlamps_modes[1]);
    let m2 = spec_mode_bytes(c.streetlamps_modes[2]);
    let m3 = spec_mode_bytes(c.streetlamps_modes[3]);
    let m4 = spec_mode_bytes(c.streetlamps_modes[4]);
    let m5 = spec_mode_bytes(c.streetlamps_modes[5]);
    let lb = spec_lighting_bytes(c.underpass_lights_state);
    assert(m0.len() == 5 && m1.len() == 5 && m2.len() == 5 && m3.len() == 5 && m4.len() == 5
        && m5.len() == 5 && lb.len() == 12);
    assert forall|k: int| 0 <= k < 12 implies spec_encode(c)[32 + k] == lb[k] by {}
}

/// Five canonical mode bytes decode back to the mode they encode.
proof fn lemma_mode_bytes_decode(bytes: Seq<u8>, base: int, m: StreetlampMode)
    requires
        crate::streetlamps::mode_wf(m),
        0 <= base,
        base + 5 <= bytes.len(),
        forall|k: int| 0 <= k < 5 ==> bytes[base + k] == spec_mode_bytes(m)[k],
    ensures
        spec_decode_mode(bytes, base) == Some(m),
{
    let seg = spec_mode_bytes(m);
    assert(bytes[base + 0] == seg[0]);
    assert(bytes[base + 1] == seg[1]);
    assert(bytes[base + 2] == seg[2]);
    assert(bytes[base + 3] == seg[3]);
    assert(bytes[base + 4] == seg[4]);
    match m {
        StreetlampMode::Off => {
            lemma_u32_le_round_trip(0);
            assert(seg[0] == 0u8);
            assert(seg[1] == spec_u32_le(0)[0] && seg[2] == spec_u32_le(0)[1] && seg[3]
                == spec_u32_le(0)[2] && seg[4] == spec_u32_le(0)[3]);
        },
        StreetlampMode::On => {
            lemma_u32_le_round_trip(0);
            assert(seg[0] == 1u8);
            assert(seg[1] == spec_u32_le(0)[0] && seg[2] == spec_u32_le(0)[1] && seg[3]
                == spec_u32_le(0)[2] && seg[4] == spec_u32_le(0)[3]);
        },
        StreetlampMode::Flickering { chance } => {
            lemma_u32_le_round_trip(chance);
            assert(seg[0] == 2u8);
            assert(seg[1] == spec_u32_le(chance)[0] && seg[2] == spec_u32_le(chance)[1] && seg[3]
                == spec_u32_le(chance)[2] && seg[4] == spec_u32_le(chance)[3]);
        },
    }
}

/// Twelve canonical lighting bytes decode back to the state they encode.
proof fn lemma_lighting_bytes_decode(bytes: Seq<u8>, s: LightingState)
    requires
        crate::underpass_lights::lighting_wf(s),
        bytes.len() >= ENCODED_LEN,
        forall|k: int| 0 <= k < 12 ==> bytes[32 + k] == spec_lighting_bytes(s)[k],
    ensures
        spec_decode_lighting(bytes) == Some(s),
{
    let seg = spec_lighting_bytes(s);
    assert forall|k: int| 0 <= k < 12 implies bytes[32 + k] == seg[k] by {}
    assert(bytes[32int] == seg[0] && bytes[33int] == seg[1] && bytes[34int] == seg[2]
        && bytes[35int] == seg[3] && bytes[36int] == seg[4] && bytes[37int] == seg[5]
        && bytes[38int] == seg[6] && bytes[39int] == seg[7] && bytes[40int] == seg[8]
        && bytes[41int] == seg[9] && bytes[42int] == seg[10] && bytes[43int] == seg[11]);
    match s {
        LightingState::Cars { default_color, min_interval, max_interval, speed_limit_kph } => {
            lemma_u16_le_round_trip(min_interval);
            lemma_u16_le_round_trip(max_interval);
            lemma_u32_le_round_trip(speed_limit_kph);
            assert(seg[4] == spec_u16_le(min_interval)[0] && seg[5] == spec_u16_le(min_interval)[1]);
            assert(seg[6] == spec_u16_le(max_interval)[0] && seg[7] == spec_u16_le(max_interval)[1]);
            assert(seg[8] == spec_u32_le(speed_limit_kph)[0] && seg[9] == spec_u32_le(
                speed_limit_kph,
            )[1] && seg[10] == spec_u32_le(speed_limit_kph)[2] && seg[11] == spec_u32_le(
                speed_limit_kph,
            )[3]);
        },
        _ => {
            lemma_u16_le_round_trip(0);
            lemma_u32_le_round_trip(0);
            assert(seg[4] == spec_u16_le(0)[0] && seg[5] == spec_u16_le(0)[1]);
            assert(seg[6] == spec_u16_le(0)[0] && seg[7] == spec_u16_le(0)[1]);
            assert(seg[8] == spec_u32_le(0)[0] && seg[9] == spec_u32_le(0)[1] && seg[10]
                == spec_u32_le(0)[2] && seg[11] == spec_u32_le(0)[3]);
        },
    }
}

/// Decoding a canonical encoding gives back the encoded configuration: the
/// round trip is exact for every configuration the data model allows.
#[verifier::rlimit(100)]
pub proof fn lemma_round_trip(c: ConfigView)
    requires
        config_wf(c),
    ensures
        spec_decode(spec_encode(c)) == Some(c),
{
    let bytes = spec_encode(c);
    lemma_encode_len(c);
    assert(spec_mode_bytes(c.streetlamps_modes[0]).len() == 5 && spec_mode_bytes(
        c.streetlamps_modes[1],
    ).len() == 5 && spec_mode_bytes(c.streetlamps_modes[2]).len() == 5 && spec_mode_bytes(
        c.streetlamps_modes[3],
    ).len() == 5 && spec_mode_bytes(c.streetlamps_modes[4]).len() == 5 && spec_mode_bytes(
        c.streetlamps_modes[5],
    ).len() == 5 && spec_lighting_bytes(c.underpass_lights_state).len() == 12);
    assert(bytes[0] == if c.streetlamps_enabled { 1u8 } else { 0u8 });
    assert(bytes[1] == c.streetlamps_brightness);
    assert forall|i: int| 0 <= i < 6 implies spec_decode_mode(bytes, 2 + 5 * i) == Some(
        c.streetlamps_modes[i],
    ) by {
        lemma_encode_mode_segment(c, i);
        lemma_mode_bytes_decode(bytes, 2 + 5 * i, c.streetlamps_modes[i]);
    }
    lemma_encode_lighting_segment(c);
    lemma_lighting_bytes_decode(bytes, c.underpass_lights_state);
    assert(spec_decode(bytes) is Some);
    assert(spec_decode(bytes)->Some_0.streetlamps_modes =~= c.streetlamps_modes);
    assert(spec_decode(bytes)->Some_0 =~= c);
}

/// Appends a 16-bit value as two little-endian bytes.
fn write_u16_le(out: &mut Vec<u8>, x: u16)
    ensures
        final(out)@ == old(out)@ + spec_u16_le(x),
{
    out.push((x % 256) as u8);
    out.push((x / 256) as u8);
    proof {
        assert(out@ =~= old(out)@ + spec_u16_le(x));
    }
}

/// Appends a 32-bit value as four little-endian bytes.
fn write_u32_le(out: &mut Vec<u8>, x: u32)
    ensures
        final(out)@ == old(out)@ + spec_u32_le(x),
{
    out.push((x % 256) as u8);
    out.push((x / 256 % 256) as u8);
    out.push((x / 65536 % 256) as u8);
    out.push((x / 16777216) as u8);
    proof {
        assert(out@ =~= old(out)@ + spec_u32_le(x));
    }
}

/// Appends one lamp mode's five bytes.
fn write_mode(out: &mut Vec<u8>, m: &StreetlampMode)
    ensures
        final(out)@ == old(out)@ + spec_mode_bytes(*m),
{
    match m {
        StreetlampMode::Off => {
            out.push(0);
            write_u32_le(out, 0);
        },
        StreetlampMode::On => {
            out.push(1);
            write_u32_le(out, 0);
        },
        StreetlampMode::Flickering { chance } => {
            out.push(2);
            write_u32_le(out, *chance);
        },
    }
    proof {
        assert(out@ =~= old(out)@ + spec_mode_bytes(*m));
    }
}

/// Appends the lighting state's twelve bytes.
fn write_lighting(out: &mut Vec<u8>, s: &LightingState)
    ensures
        final(out)@ == old(out)@ + spec_lighting_bytes(*s),
{
    match s {
        LightingState::Off => {
            out.push(0);
            out.push(0);
            out.push(0);
            out.push(0);
            write_u16_le(out, 0);
            write_u16_le(out, 0);
            write_u32_le(out, 0);
        },
        LightingState::SingleColour(c) => {
            out.push(1);
            out.push(c.r);
            out.push(c.g);
            out.push(c.b);
            write_u16_le(out, 0);
            write_u16_le(out, 0);
            write_u32_le(out, 0);
        },
        LightingState::RainbowCycle => {
            out.push(2);
            out.push(0);
            out.push(0);
            out.push(0);
            write_u16_le(out, 0);
            write_u16_le(out, 0);
            write_u32_le(out, 0);
        },
        LightingState::Cars { default_color, min_interval, max_interval, speed_limit_kph } => {
            out.push(3);
            out.push(default_color.r);
            out.push(default_color.g);
            out.push(default_color.b);
            write_u16_le(out, *min_interval);
            write_u16_le(out, *max_interval);
            write_u32_le(out, *speed_limit_kph);
        },
    }
    proof {
        assert(out@ =~= old(out)@ + spec_lighting_bytes(*s));
    }
}

/// The 16-bit value at `base` in the record.
fn read_u16_le(buffer: &[u8], base: usize) -> (x: u16)
    requires
        base + 2 <= buffer.len(),
    ensures
        x == spec_u16_from_le(buffer@[base as int], buffer@[base + 1]),
{
    buffer[base] as u16 + 256 * (buffer[base + 1] as u16)
}

/// The 32-bit value at `base` in the record.
fn read_u32_le(buffer: &[u8], base: usize) -> (x: u32)
    requires
        base + 4 <= buffer.len(),
    ensures
        x == spec_u32_from_le(
            buffer@[base as int],
            buffer@[base + 1],
            buffer@[base + 2],
            buffer@[base + 3],
        ),
{
    buffer[base] as u32 + 256 * (buffer[base + 1] as u32) + 65536 * (buffer[base + 2] as u32)
        + 16777216 * (buffer[base + 3] as u32)
}

/// The lamp mode at `base` in the record, if its five bytes are canonical.
fn read_mode(buffer: &[u8], base: usize) -> (m: Option<StreetlampMode>)
    requires
        base + 5 <= buffer.len(),
    ensures
        m == spec_decode_mode(buffer@, base as int),
{
    let tag = buffer[base];
    let chance = read_u32_le(buffer, base + 1);
    if tag == 0 && chance == 0 {
        Some(StreetlampMode::Off)
    } else if tag == 1 && chance == 0 {
        Some(StreetlampMode::On)
    } else if tag == 2 && chance <= 100 {
        Some(StreetlampMode::Flickering { chance })
    } else {
        None
    }
}

/// The lighting state in the record's tail, if it is canonical.
fn read_lighting(buffer: &[u8]) -> (s: Option<LightingState>)
    requires
        buffer.len() >= ENCODED_LEN,
    ensures
        s == spec_decode_lighting(buffer@),
{
    let tag = buffer[32];
    let col = Rgb8 { r: buffer[33], g: buffer[34], b: buffer[35] };
    let min_interval = read_u16_le(buffer, 36);
    let max_interval = read_u16_le(buffer, 38);
    let speed = read_u32_le(buffer, 40);
    let zero_tail = min_interval == 0 && max_interval == 0 && speed == 0;
    let black = col.r == 0 && col.g == 0 && col.b == 0;
    if tag == 0 && black && zero_tail {
        Some(LightingState::Off)
    } else if tag == 1 && zero_tail {
        Some(LightingState::SingleColour(col))
    } else if tag == 2 && black && zero_tail {
        Some(LightingState::RainbowCycle)
    } else if tag == 3 && min_interval <= max_interval && max_interval - min_interval < 65535
        && 0 < speed && speed <= SPEED_LIMIT_KPH_MAX {
        Some(
            LightingState::Cars {
                default_color: col,
                min_interval,
                max_interval,
                speed_limit_kph: speed,
            },
        )
    } else {
        None
    }
}

impl SharedState {
    /// The canonical encoding of this configuration, ready for the byte
    /// store.
    pub fn to_bytes(&self) -> (out: Vec<u8>)
        requires
            config_wf(self@),
        ensures
            out@ == spec_encode(self@),
            out.len() == ENCODED_LEN,
    {
        let mut out: Vec<u8> = Vec::new();
        out.push(if self.streetlamps_enabled { 1 } else { 0 });
        out.push(self.streetlamps_brightness);
        proof {
            assert(out@ =~= seq![
                if self@.streetlamps_enabled { 1u8 } else { 0u8 },
                self@.streetlamps_brightness,
            ]);
        }
        write_mode(&mut out, &self.streetlamps_modes[0]);
        write_mode(&mut out, &self.streetlamps_modes[1]);
        write_mode(&mut out, &self.streetlamps_modes[2]);
        write_mode(&mut out, &self.streetlamps_modes[3]);
        write_mode(&mut out, &self.streetlamps_modes[4]);
        write_mode(&mut out, &self.streetlamps_modes[5]);
        write_lighting(&mut out, &self.underpass_lights_state);
        proof {
            lemma_encode_len(self@);
        }
        out
    }

    /// Serializes this configuration into the start of `buffer`, as the
    /// byte store expects; fails exactly when the buffer cannot hold the
    /// record, leaving it untouched.
    pub fn serialize_into(&self, buffer: &mut Vec<u8>) -> (r: Result<usize, SerializationError>)
        requires
            config_wf(self@),
        ensures
            match r {
                Ok(n) => {
                    &&& n == ENCODED_LEN
                    &&& old(buffer).len() >= ENCODED_LEN
                    &&& final(buffer).len() == old(buffer).len()
                    &&& final(buffer)@ == spec_encode(self@) + old(buffer)@.skip(ENCODED_LEN as int)
                },
                Err(e) => {
                    &&& e == SerializationError::BufferTooSmall
                    &&& old(buffer).len() < ENCODED_LEN
                    &&& final(buffer)@ == old(buffer)@
                },
            },
    {
        if buffer.len() < ENCODED_LEN {
            return Err(SerializationError::BufferTooSmall);
        }
        let ghost orig = buffer@;
        let enc = self.to_bytes();
        let mut i: usize = 0;
        while i < ENCODED_LEN
            invariant
                i <= ENCODED_LEN,
                enc.len() == ENCODED_LEN,
                buffer.len() == orig.len(),
                orig.len() >= ENCODED_LEN,
                forall|j: int| 0 <= j < i ==> buffer@[j] == enc@[j],
                forall|j: int| i <= j < orig.len() ==> buffer@[j] == orig[j],
            decreases ENCODED_LEN - i,
        {
            buffer.set(i, enc[i]);
            i = i + 1;
        }
        proof {
            assert(buffer@ =~= spec_encode(self@) + orig.skip(ENCODED_LEN as int));
        }
        Ok(ENCODED_LEN)
    }

    /// Decodes a configuration from the start of `buffer`; fails exactly
    /// when the record is short, non-canonical or breaks the configuration
    /// invariant, as a malformed persisted record must fall back to the
    /// defaults.
    pub fn deserialize_from(buffer: &[u8]) -> (r: Result<SharedState, SerializationError>)
        ensures
            match r {
                Ok(c) => {
                    &&& spec_decode(buffer@) == Some(c@)
                    &&& config_wf(c@)
                },
                Err(e) => {
                    &&& e == SerializationError::InvalidData
                    &&& spec_decode(buffer@) is None
                },
            },
    {
        if buffer.len() < ENCODED_LEN {
            return Err(SerializationError::InvalidData);
        }
        let enabled_byte = buffer[0];
        if enabled_byte != 0 && enabled_byte != 1 {
            return Err(SerializationError::InvalidData);
        }
        let m0 = match read_mode(buffer, 2) {
            Some(m) => m,
            None => {
                return Err(SerializationError::InvalidData);
            },
        };
        let m1 = match read_mode(buffer, 7) {
            Some(m) => m,
            None => {
                return Err(SerializationError::InvalidData);
            },
        };
        let m2 = match read_mode(buffer, 12) {
            Some(m) => m,
            None => {
                return Err(SerializationError::InvalidData);
            },
        };
        let m3 = match read_mode(buffer, 17) {
            Some(m) => m,
            None => {
                return Err(SerializationError::InvalidData);
            },
        };
        let m4 = match read_mode(buffer, 22) {
            Some(m) => m,
            None => {
                return Err(SerializationError::InvalidData);
            },
        };
        let m5 = match read_mode(buffer, 27) {
            Some(m) => m,
            None => {
                return Err(SerializationError::InvalidData);
            },
        };
        let lighting = match read_lighting(buffer) {
            Some(l) => l,
            None => {
                return Err(SerializationError::InvalidData);
            },
        };
        let mut modes: Vec<StreetlampMode> = Vec::new();
        modes.push(m0);
        modes.push(m1);
        modes.push(m2);
        modes.push(m3);
        modes.push(m4);
        modes.push(m5);
        let c = SharedState {
            streetlamps_enabled: enabled_byte == 1,
            streetlamps_brightness: buffer[1],
            streetlamps_modes: modes,
            underpass_lights_state: lighting,
        };
        proof {
            assert(c@.streetlamps_modes =~= spec_decode(buffer@)->Some_0.streetlamps_modes);
            assert(c@ =~= spec_decode(buffer@)->Some_0);
            lemma_decode_wf(buffer@);
        }
        Ok(c)
    }
}

/// The number of bytes this configuration occupies in the byte store: always
/// the fixed record length, below the documented ceiling, so the persisted
/// record can never outgrow its slot.
pub fn check_size(c: &SharedState) -> (n: usize)
    requires
        config_wf(c@),
    ensures
        n == spec_encode(c@).len(),
        n <= STORE_BUFFER_CEILING,
{
    let enc = c.to_bytes();
    enc.len()
}

/// The configuration the process starts with: the persisted record when one
/// was fetched and decodes, else the compiled-in defaults (a missing or
/// malformed record is treated identically to no prior data).
pub fn restore_config(fetched: Option<&Vec<u8>>) -> (c: SharedState)
    ensures
        config_wf(c@),
        match fetched {
            Some(b) => match spec_decode(b@) {
                Some(v) => c@ == v,
                None => c@ == spec_default_config(),
            },
            None => c@ == spec_default_config(),
        },
{
    match fetched {
        Some(b) => match SharedState::deserialize_from(b.as_slice()) {
            Ok(c) => c,
            Err(_) => SharedState::default(),
        },
        None => SharedState::default(),
    }
}

/// The persistence loop's cross-tick state: the snapshot it last observed.
pub struct PersistenceLoop {
    pub last_seen: SharedState,
}

impl PersistenceLoop {
    /// Starts the loop observing the given configuration.
    pub fn new(initial: &SharedState) -> (r: Self)
        ensures
            r.last_seen@ == initial@,
    {
        PersistenceLoop { last_seen: initial.clone() }
    }

    /// One 3 s tick over a snapshot of the shared configuration: when it is
    /// unchanged, nothing is stored; when it changed, the encoded record to
    /// write is handed out and the snapshot is updated at once, whether or
    /// not the store will succeed, so a write failure is retried only on
    /// the next genuine change.
    pub fn tick(&mut self, current: &SharedState) -> (to_store: Option<Vec<u8>>)
        requires
            config_wf(current@),
        ensures
            match to_store {
                None => {
                    &&& current@ == old(self).last_seen@
                    &&& final(self).last_seen@ == old(self).last_seen@
                },
                Some(bytes) => {
                    &&& current@ != old(self).last_seen@
                    &&& bytes@ == spec_encode(current@)
                    &&& final(self).last_seen@ == current@
                },
            },
    {
        if *current == self.last_seen {
            None
        } else {
            self.last_seen = current.clone();
            Some(current.to_bytes())
        }
    }
}

} // verus!
