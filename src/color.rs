use vstd::prelude::*;

verus! {

/// One full turn of the colour wheel, in hundredths of a degree.
pub const HUE_FULL_TURN: u32 = 36000;

/// Full saturation, in hundredths of a percent.
pub const MAX_SATURATION: u32 = 10000;

/// Intensity units per brightness level: fine enough that each step of a
/// brightness ramp, which has at most 500 steps, moves by at least one unit.
pub const VALUE_PER_BRIGHTNESS: u32 = 500;

/// Full intensity: brightness 255.
pub const MAX_VALUE: u32 = 127500;

/// A hue and saturation pair.
///
/// `h` is in hundredths of a degree and wraps at [`HUE_FULL_TURN`]; `s` is in
/// hundredths of a percent, at most [`MAX_SATURATION`].
#[derive(Debug, Clone, Copy, PartialEq, Eq, Structural)]
pub struct Color {
    pub h: u32,
    pub s: u32,
}

impl Color {
    pub open spec fn wf(self) -> bool {
        self.h < HUE_FULL_TURN && self.s <= MAX_SATURATION
    }

    /// The colour with its hue wrapped onto the wheel and its saturation capped.
    pub open spec fn normalized_spec(self) -> Color {
        Color {
            h: (self.h % HUE_FULL_TURN) as u32,
            s: if self.s > MAX_SATURATION { MAX_SATURATION } else { self.s },
        }
    }

    pub fn normalized(self) -> (r: Color)
        ensures
            r == self.normalized_spec(),
            r.wf(),
    {
        Color {
            h: self.h % HUE_FULL_TURN,
            s: if self.s > MAX_SATURATION { MAX_SATURATION } else { self.s },
        }
    }
}

/// A fully resolved frame for the fixture: hue and saturation as in [`Color`],
/// and the value (intensity) from 0 to [`MAX_VALUE`], that is the brightness
/// times [`VALUE_PER_BRIGHTNESS`].
#[derive(Debug, Clone, Copy, PartialEq, Eq, Structural)]
pub struct HsvFrame {
    pub hue: u32,
    pub saturation: u32,
    pub value: u32,
}

impl HsvFrame {
    /// The zero-intensity frame.
    pub open spec fn black_spec() -> HsvFrame {
        HsvFrame { hue: 0, saturation: 0, value: 0 }
    }

    pub fn black() -> (r: HsvFrame)
        ensures
            r == HsvFrame::black_spec(),
    {
        HsvFrame { hue: 0, saturation: 0, value: 0 }
    }
}

} // verus!
