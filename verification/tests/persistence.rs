use diorama_lights::color::Rgb8;
use diorama_lights::persistence::{
    check_size, restore_config, PersistenceLoop, SerializationError, ENCODED_LEN,
    STORE_BUFFER_CEILING,
};
use diorama_lights::state::SharedState;
use diorama_lights::streetlamps::StreetlampMode;
use diorama_lights::underpass_lights::LightingState;

fn rgb(r: u8, g: u8, b: u8) -> Rgb8 {
    Rgb8 { r, g, b }
}

fn sample_configs() -> Vec<SharedState> {
    let mut out = Vec::new();
    out.push(SharedState::default());
    let mut c = SharedState::default();
    c.streetlamps_enabled = false;
    c.streetlamps_brightness = 0;
    c.streetlamps_modes[0] = StreetlampMode::Off;
    c.streetlamps_modes[5] = StreetlampMode::Flickering { chance: 90 };
    c.underpass_lights_state = LightingState::Off;
    out.push(c);
    let mut c = SharedState::default();
    c.underpass_lights_state = LightingState::SingleColour(rgb(1, 2, 3));
    out.push(c);
    let mut c = SharedState::default();
    c.underpass_lights_state = LightingState::RainbowCycle;
    c.streetlamps_modes[2] = StreetlampMode::Flickering { chance: 0 };
    c.streetlamps_modes[3] = StreetlampMode::Flickering { chance: 100 };
    out.push(c);
    let mut c = SharedState::default();
    c.underpass_lights_state = LightingState::Cars {
        default_color: rgb(255, 255, 255),
        min_interval: 0,
        max_interval: 65534,
        speed_limit_kph: 1,
    };
    out.push(c);
    out
}

#[test]
fn round_trip_reproduces_an_equal_configuration() {
    for c in sample_configs() {
        let bytes = c.to_bytes();
        let back = SharedState::deserialize_from(&bytes).expect("canonical record decodes");
        assert!(back == c);
    }
}

#[test]
fn serialized_size_never_exceeds_the_ceiling() {
    for c in sample_configs() {
        let n = check_size(&c);
        assert_eq!(n, ENCODED_LEN);
        assert!(n <= STORE_BUFFER_CEILING);
        assert_eq!(c.to_bytes().len(), ENCODED_LEN);
    }
}

#[test]
fn serialize_into_writes_the_record_prefix() {
    let c = SharedState::default();
    let mut buffer = vec![0xAAu8; 128];
    let n = c.serialize_into(&mut buffer).expect("buffer is large enough");
    assert_eq!(n, ENCODED_LEN);
    assert_eq!(&buffer[..ENCODED_LEN], &c.to_bytes()[..]);
    assert!(buffer[ENCODED_LEN..].iter().all(|&b| b == 0xAA));
}

#[test]
fn serialize_into_a_short_buffer_fails_untouched() {
    let c = SharedState::default();
    let mut buffer = vec![7u8; ENCODED_LEN - 1];
    match c.serialize_into(&mut buffer) {
        Err(e) => assert_eq!(e, SerializationError::BufferTooSmall),
        Ok(_) => panic!("a short buffer must be refused"),
    }
    assert!(buffer.iter().all(|&b| b == 7));
}

#[test]
fn malformed_records_are_rejected() {
    // Too short.
    match SharedState::deserialize_from(&[0u8; 10]) {
        Err(e) => assert_eq!(e, SerializationError::InvalidData),
        Ok(_) => panic!("a short record must be rejected"),
    }
    // A bad enable byte.
    let mut bytes = SharedState::default().to_bytes();
    bytes[0] = 9;
    assert!(SharedState::deserialize_from(&bytes).is_err());
    // A bad mode tag.
    let mut bytes = SharedState::default().to_bytes();
    bytes[2] = 77;
    assert!(SharedState::deserialize_from(&bytes).is_err());
    // A flicker chance above 100 percent.
    let mut bytes = SharedState::default().to_bytes();
    bytes[2] = 2;
    bytes[3] = 101;
    assert!(SharedState::deserialize_from(&bytes).is_err());
    // A cars record with an empty interval range.
    let mut bytes = SharedState::default().to_bytes();
    bytes[36] = 200;
    bytes[38] = 100;
    assert!(SharedState::deserialize_from(&bytes).is_err());
}

#[test]
fn restore_uses_defaults_without_a_record() {
    let restored = restore_config(None);
    assert!(restored == SharedState::default());
    let garbage = vec![1u8, 2, 3];
    let restored = restore_config(Some(&garbage));
    assert!(restored == SharedState::default());
}

#[test]
fn persistence_tick_stores_only_on_change() {
    let initial = SharedState::default();
    let mut pl = PersistenceLoop::new(&initial);
    // Unchanged: nothing to store.
    assert!(pl.tick(&initial).is_none());
    // Changed: the encoded record comes out once, then the snapshot tracks it.
    let mut changed = initial.clone();
    changed.streetlamps_enabled = false;
    let bytes = pl.tick(&changed).expect("change detected");
    assert_eq!(bytes, changed.to_bytes());
    assert!(pl.tick(&changed).is_none());
}

#[test]
fn written_record_restores_identically_after_a_restart() {
    // The byte store: one well-known key, last write wins.
    let mut store: Option<Vec<u8>> = None;

    let mut cfg = SharedState::default();
    cfg.streetlamps_modes[1] = StreetlampMode::Flickering { chance: 90 };
    cfg.underpass_lights_state = LightingState::SingleColour(rgb(10, 0, 30));

    let mut pl = PersistenceLoop::new(&SharedState::default());
    if let Some(bytes) = pl.tick(&cfg) {
        store = Some(bytes);
    }
    assert!(store.is_some());

    // Process restart: a fresh startup read against the same store.
    let restored = restore_config(store.as_ref());
    assert!(restored == cfg);
}
