use moodlight::{Color, DecodeError, HsColorMode, HsvFrame, Mode, OnState, State, StateRecord};

fn sample() -> State {
    State {
        color: Color { h: 4500, s: 7500 },
        brightness: 42,
        rainbow_speed: 9900,
        mode: Mode::Rainbow,
        state: OnState::On,
        hue_remainder: 1234,
        transition: false,
    }
}

#[test]
fn color_mode_tag_is_hs() {
    assert_eq!(HsColorMode::serialize(), "hs");
    assert_eq!(HsColorMode::deserialize("hs"), Ok(HsColorMode));
    assert_eq!(HsColorMode::deserialize("rgb"), Err(DecodeError::UnknownColorMode));
    assert_eq!(HsColorMode::deserialize(""), Err(DecodeError::UnknownColorMode));
}

#[test]
fn record_round_trip() {
    for s in [sample(), State::default()] {
        let rec = s.to_record();
        assert_eq!(rec.color_mode, "hs");
        assert_eq!(State::from_record(&rec), Ok(s));
    }
}

#[test]
fn record_with_other_color_mode_is_rejected() {
    let mut rec = sample().to_record();
    rec.color_mode = String::from("rgb");
    assert_eq!(State::from_record(&rec), Err(DecodeError::UnknownColorMode));
}

#[test]
fn record_out_of_range_is_rejected() {
    let mut rec = sample().to_record();
    rec.color.h = 36000;
    assert_eq!(State::from_record(&rec), Err(DecodeError::ColorOutOfRange));
    let mut rec = sample().to_record();
    rec.color.s = 10001;
    assert_eq!(State::from_record(&rec), Err(DecodeError::ColorOutOfRange));
    let mut rec = sample().to_record();
    rec.rainbow_speed = 10001;
    assert_eq!(State::from_record(&rec), Err(DecodeError::RainbowSpeedOutOfRange));
}

#[test]
fn restore_falls_back_to_default() {
    assert_eq!(State::restore(None), State::default());
    let mut bad = sample().to_record();
    bad.color_mode = String::from("xy");
    assert_eq!(State::restore(Some(&bad)), State::default());
    let good = sample().to_record();
    assert_eq!(State::restore(Some(&good)), sample());
}

#[test]
fn snapshot_replaces_state_and_renders() {
    let mut s = State::default();
    let rec = sample().to_record();
    let frames = s.handle_snapshot(&rec, 20).unwrap();
    assert_eq!(s, sample());
    assert_eq!(frames, vec![HsvFrame { hue: 4500, saturation: 7500, value: 21000 }]);
}

#[test]
fn bad_snapshot_leaves_state() {
    let mut s = sample();
    let mut rec = State::default().to_record();
    rec.color_mode = String::from("rgb");
    assert_eq!(s.handle_snapshot(&rec, 20), Err(DecodeError::UnknownColorMode));
    assert_eq!(s, sample());
}

#[test]
fn record_carries_every_field() {
    let rec: StateRecord = sample().to_record();
    assert_eq!(rec.color, Color { h: 4500, s: 7500 });
    assert_eq!(rec.brightness, 42);
    assert_eq!(rec.rainbow_speed, 9900);
    assert_eq!(rec.mode, Mode::Rainbow);
    assert_eq!(rec.state, OnState::On);
    assert_eq!(rec.hue_remainder, 1234);
}

#[test]
fn record_remainder_is_wrapped_to_the_cycle() {
    // speed 99.00: a 1.59 s cycle
    let mut rec = sample().to_record();
    rec.hue_remainder = 30507;
    let s = State::from_record(&rec).unwrap();
    assert_eq!(s.hue_remainder, 297);
}
