use vstd::prelude::*;

use crate::color::Color;
use crate::state::{cycle_ms, cycle_of, Mode, OnState, State, MAX_RAINBOW_SPEED};

verus! {

/// The constant colour-mode tag of a persisted state, always `"hs"`.
#[derive(Debug, Clone, Copy, PartialEq, Eq, Structural)]
pub struct HsColorMode;

/// Why a persisted state was rejected.
#[derive(Debug, Clone, Copy, PartialEq, Eq, Structural)]
pub enum DecodeError {
    /// The colour-mode tag was not `"hs"`.
    UnknownColorMode,
    /// The hue is not below a full turn, or the saturation above full.
    ColorOutOfRange,
    /// The rainbow speed is above its maximum.
    RainbowSpeedOutOfRange,
}

impl HsColorMode {
    /// The tag's text.
    pub fn serialize() -> (r: String)
        ensures
            r@ == "hs"@,
    {
        String::from_str("hs")
    }

    /// Accepts the tag `"hs"` and nothing else.
    pub fn deserialize(tag: &str) -> (r: Result<HsColorMode, DecodeError>)
        ensures
            r == (if tag@ == "hs"@ {
                Ok::<HsColorMode, DecodeError>(HsColorMode)
            } else {
                Err(DecodeError::UnknownColorMode)
            }),
    {
        let t = String::from_str(tag);
        let hs = String::from_str("hs");
        if t == hs {
            Ok(HsColorMode)
        } else {
            Err(DecodeError::UnknownColorMode)
        }
    }
}

/// A state as it is persisted or published: every field but the transient
/// transition flag, and the colour-mode tag. A remainder of the hue phase
/// that is not below the cycle length is wrapped when decoded.
#[derive(Debug)]
pub struct StateRecord {
    pub color: Color,
    pub brightness: u8,
    pub rainbow_speed: u32,
    pub mode: Mode,
    pub state: OnState,
    pub hue_remainder: u32,
    pub color_mode: String,
}

impl StateRecord {
    /// Whether `self` is the record of `s`.
    pub open spec fn records(self, s: State) -> bool {
        &&& self.color == s.color
        &&& self.brightness == s.brightness
        &&& self.rainbow_speed == s.rainbow_speed
        &&& self.mode == s.mode
        &&& self.state == s.state
        &&& self.hue_remainder == s.hue_remainder
        &&& self.color_mode@ == "hs"@
    }

    /// What decoding the record gives.
    pub open spec fn decoded(self) -> Result<State, DecodeError> {
        if self.color_mode@ != "hs"@ {
            Err(DecodeError::UnknownColorMode)
        } else if !self.color.wf() {
            Err(DecodeError::ColorOutOfRange)
        } else if self.rainbow_speed > MAX_RAINBOW_SPEED {
            Err(DecodeError::RainbowSpeedOutOfRange)
        } else {
            Ok(
                State {
                    color: self.color,
                    brightness: self.brightness,
                    rainbow_speed: self.rainbow_speed,
                    mode: self.mode,
                    state: self.state,
                    hue_remainder: (self.hue_remainder as int % cycle_ms(self.rainbow_speed)) as u32,
                    transition: false,
                },
            )
        }
    }
}

impl State {
    /// The record to persist or publish.
    pub fn to_record(&self) -> (r: StateRecord)
        ensures
            r.records(*self),
    {
        StateRecord {
            color: self.color,
            brightness: self.brightness,
            rainbow_speed: self.rainbow_speed,
            mode: self.mode,
            state: self.state,
            hue_remainder: self.hue_remainder,
            color_mode: HsColorMode::serialize(),
        }
    }

    /// Decodes a persisted record; the state it gives has no pending transition.
    pub fn from_record(rec: &StateRecord) -> (r: Result<State, DecodeError>)
        ensures
            r == rec.decoded(),
            r matches Ok(s) ==> s.wf(),
    {
        match HsColorMode::deserialize(rec.color_mode.as_str()) {
            Err(e) => Err(e),
            Ok(_) => {
                if rec.color.h >= crate::color::HUE_FULL_TURN || rec.color.s > crate::color::MAX_SATURATION {
                    Err(DecodeError::ColorOutOfRange)
                } else if rec.rainbow_speed > MAX_RAINBOW_SPEED {
                    Err(DecodeError::RainbowSpeedOutOfRange)
                } else {
                    let cycle = cycle_of(rec.rainbow_speed);
                    proof {
                        vstd::arithmetic::div_mod::lemma_mod_bound(rec.hue_remainder as int, cycle as int);
                    }
                    Ok(
                        State {
                            color: rec.color,
                            brightness: rec.brightness,
                            rainbow_speed: rec.rainbow_speed,
                            mode: rec.mode,
                            state: rec.state,
                            hue_remainder: (rec.hue_remainder as u64 % cycle) as u32,
                            transition: false,
                        },
                    )
                }
            },
        }
    }

    /// The state to start from: the decoded record where there is one and it
    /// decodes, the initial state otherwise.
    pub fn restore(rec: Option<&StateRecord>) -> (r: State)
        ensures
            r == (match rec {
                Some(x) => match x.decoded() {
                    Ok(s) => s,
                    Err(_) => State::initial(),
                },
                None => State::initial(),
            }),
            r.wf(),
    {
        match rec {
            Some(x) => match State::from_record(x) {
                Ok(s) => s,
                Err(_) => State::default(),
            },
            None => State::default(),
        }
    }
}

/// Decoding the record of a state gives the state back, for every state within
/// its ranges with no pending transition.
pub proof fn lemma_record_round_trip(s: State, rec: StateRecord)
    requires
        s.wf(),
        !s.transition,
        rec.records(s),
    ensures
        rec.decoded() == Ok::<State, DecodeError>(s),
{
    vstd::arithmetic::div_mod::lemma_small_mod(s.hue_remainder as nat, cycle_ms(s.rainbow_speed) as nat);
}

} // verus!
