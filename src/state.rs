use vstd::prelude::*;

use crate::color::{Color, HsvFrame, HUE_FULL_TURN, VALUE_PER_BRIGHTNESS};

verus! {

/// Highest rainbow speed setting, in hundredths (the lowest is 0).
pub const MAX_RAINBOW_SPEED: u32 = 10000;

/// Highest brightness.
pub const MAX_BRIGHTNESS: u8 = 255;

/// Time for one trip round the colour wheel at the lowest rainbow speed.
pub const MAX_CYCLE_MS: u32 = 60000;

/// Time for one trip round the colour wheel at the highest rainbow speed.
pub const MIN_CYCLE_MS: u32 = 1000;

/// Length of the brightness ramp that follows a power flip.
pub const TRANSITION_MS: u32 = 500;

/// Time for one trip round the colour wheel at `speed`: falls linearly from
/// [`MAX_CYCLE_MS`] at speed 0 to [`MIN_CYCLE_MS`] at [`MAX_RAINBOW_SPEED`]
/// (a speed above the maximum counts as the maximum).
pub open spec fn cycle_ms(speed: u32) -> int {
    let s = if speed > MAX_RAINBOW_SPEED { MAX_RAINBOW_SPEED as int } else { speed as int };
    MAX_CYCLE_MS - ((MAX_CYCLE_MS - MIN_CYCLE_MS) * s) / (MAX_RAINBOW_SPEED as int)
}

/// The hue phase after a tick of `step_ms`, before it is split into whole
/// hundredths of a degree: the carried remainder plus a full turn times the
/// tick, in units of one hundredth of a degree over the cycle length.
pub open spec fn phase_total(rem: u32, step_ms: u32) -> int {
    rem + HUE_FULL_TURN * step_ms
}

/// Number of ticks in one cycle at `speed`.
pub open spec fn steps_in_cycle(speed: u32, step_ms: u32) -> int {
    cycle_ms(speed) / (step_ms as int)
}

/// Number of steps in a brightness ramp with ticks of `step_ms`: the ramp
/// length over the tick, and at least one.
pub open spec fn ramp_steps(step_ms: u32) -> int {
    if step_ms == 0 || step_ms > TRANSITION_MS {
        1
    } else {
        (TRANSITION_MS / step_ms) as int
    }
}

/// Intensity at step `k` of a ramp of `n` steps between 0 and brightness `b`,
/// on the intensity scale of [`HsvFrame`]: rising from 0 when `up`, falling
/// to 0 otherwise.
pub open spec fn ramp_level(b: int, up: bool, k: int, n: int) -> int {
    if up {
        (b * VALUE_PER_BRIGHTNESS * k) / n
    } else {
        (b * VALUE_PER_BRIGHTNESS * (n - k)) / n
    }
}

proof fn lemma_cycle_bounds(speed: u32)
    ensures
        MIN_CYCLE_MS <= cycle_ms(speed) <= MAX_CYCLE_MS,
{
    let sp = if speed > MAX_RAINBOW_SPEED { MAX_RAINBOW_SPEED as int } else { speed as int };
    lemma_scaled_bounds((MAX_CYCLE_MS - MIN_CYCLE_MS) as int, sp, MAX_RAINBOW_SPEED as int);
}

proof fn lemma_ramp_steps_bounds(step_ms: u32)
    ensures
        0 < ramp_steps(step_ms) <= TRANSITION_MS,
{
    if !(step_ms == 0 || step_ms > TRANSITION_MS) {
        vstd::arithmetic::div_mod::lemma_div_is_ordered_by_denominator(TRANSITION_MS as int, 1, step_ms as int);
        vstd::arithmetic::div_mod::lemma_div_by_self(step_ms as int);
        vstd::arithmetic::div_mod::lemma_div_is_ordered(step_ms as int, TRANSITION_MS as int, step_ms as int);
    }
}

/// The cycle length at `speed`.
pub(crate) fn cycle_of(speed: u32) -> (r: u64)
    ensures
        r == cycle_ms(speed),
        MIN_CYCLE_MS <= r <= MAX_CYCLE_MS,
{
    let sp: u64 = if speed > MAX_RAINBOW_SPEED {
        MAX_RAINBOW_SPEED as u64
    } else {
        speed as u64
    };
    let span: u64 = (MAX_CYCLE_MS - MIN_CYCLE_MS) as u64;
    proof {
        lemma_scaled_bounds(span as int, sp as int, MAX_RAINBOW_SPEED as int);
    }
    MAX_CYCLE_MS as u64 - span * sp / MAX_RAINBOW_SPEED as u64
}

proof fn lemma_scaled_bounds(b: int, k: int, n: int)
    requires
        0 <= b,
        0 <= k <= n,
        0 < n,
    ensures
        0 <= (b * k) / n <= b,
{
    assert(0 <= b * k <= b * n) by (nonlinear_arith)
        requires
            0 <= b,
            0 <= k <= n,
    ;
    assert(b * n == n * b) by (nonlinear_arith);
    vstd::arithmetic::div_mod::lemma_div_is_ordered(b * k, n * b, n);
    vstd::arithmetic::div_mod::lemma_div_multiples_vanish(b, n);
    vstd::arithmetic::div_mod::lemma_div_pos_is_pos(b * k, n);
}

/// Whether the colour is set by the operator or driven by the rainbow stepper.
#[derive(Debug, Clone, Copy, PartialEq, Eq, Structural)]
pub enum Mode {
    Static,
    Rainbow,
}

/// Power of the fixture.
#[derive(Debug, Clone, Copy, PartialEq, Eq, Structural)]
pub enum OnState {
    On,
    Off,
}

/// The canonical state of the fixture.
///
/// `hue_remainder` is the part of the hue's progress finer than a hundredth of
/// a degree, in units of one hundredth of a degree over the cycle length; it
/// restarts at 0 when the speed is set. `transition` is transient: it is set by
/// [`State::edit`] when the power flips and consumed by the next
/// [`State::apply`].
#[derive(Debug, Clone, Copy, PartialEq, Eq, Structural)]
pub struct State {
    pub color: Color,
    pub brightness: u8,
    pub rainbow_speed: u32,
    pub mode: Mode,
    pub state: OnState,
    pub hue_remainder: u32,
    pub transition: bool,
}

/// A partial update: each absent field leaves the state's field as it is.
///
/// `brightness` and `rainbow_speed` may carry any magnitude; they are clamped
/// when merged.
#[derive(Debug, Clone, Copy, PartialEq, Eq, Structural)]
pub struct ControlMessage {
    pub color: Option<Color>,
    pub brightness: Option<i64>,
    pub rainbow_speed: Option<i64>,
    pub state: Option<OnState>,
    pub mode: Option<Mode>,
}

/// `v` clamped to `[lo, hi]`.
pub open spec fn clamp(v: int, lo: int, hi: int) -> int {
    if v < lo {
        lo
    } else if v > hi {
        hi
    } else {
        v
    }
}

fn clamp_i64(v: i64, hi: u32) -> (r: u32)
    ensures
        r as int == clamp(v as int, 0, hi as int),
{
    if v < 0 {
        0
    } else if v > hi as i64 {
        hi
    } else {
        v as u32
    }
}

impl ControlMessage {
    /// The message that changes nothing.
    pub open spec fn empty_spec() -> ControlMessage {
        ControlMessage { color: None, brightness: None, rainbow_speed: None, state: None, mode: None }
    }

    pub fn empty() -> (r: ControlMessage)
        ensures
            r == ControlMessage::empty_spec(),
    {
        ControlMessage { color: None, brightness: None, rainbow_speed: None, state: None, mode: None }
    }
}

impl State {
    /// The ranges that a state's fields keep.
    pub open spec fn wf(self) -> bool {
        self.color.wf() && self.rainbow_speed <= MAX_RAINBOW_SPEED && self.hue_remainder < cycle_ms(
            self.rainbow_speed,
        )
    }

    /// The state at process start: off, static, hue 0, full saturation and brightness.
    pub open spec fn initial() -> State {
        State {
            color: Color { h: 0, s: 10000 },
            brightness: 255,
            rainbow_speed: 6000,
            mode: Mode::Static,
            state: OnState::Off,
            hue_remainder: 0,
            transition: false,
        }
    }

    /// Whether a message may set the colour: only while the state is static, or
    /// when the message itself switches to static.
    pub open spec fn color_editable(self, msg: ControlMessage) -> bool {
        self.mode == Mode::Static || msg.mode == Some(Mode::Static)
    }

    /// The state that merging `msg` into `self` gives.
    pub open spec fn edited(self, msg: ControlMessage) -> State {
        State {
            color: match msg.color {
                Some(c) if self.color_editable(msg) => c.normalized_spec(),
                _ => self.color,
            },
            brightness: match msg.brightness {
                Some(b) => clamp(b as int, 0, MAX_BRIGHTNESS as int) as u8,
                None => self.brightness,
            },
            rainbow_speed: match msg.rainbow_speed {
                Some(v) => clamp(v as int, 0, MAX_RAINBOW_SPEED as int) as u32,
                None => self.rainbow_speed,
            },
            mode: match msg.mode {
                Some(m) => m,
                None => self.mode,
            },
            state: match msg.state {
                Some(p) => p,
                None => self.state,
            },
            hue_remainder: match msg.rainbow_speed {
                Some(_) => 0,
                None => self.hue_remainder,
            },
            transition: match msg.state {
                Some(p) => p != self.state,
                None => false,
            },
        }
    }

    /// Merges a control message into the state.
    pub fn edit(&mut self, msg: ControlMessage)
        ensures
            *final(self) == old(self).edited(msg),
            old(self).wf() ==> final(self).wf(),
    {
        let color = match msg.color {
            Some(c) => {
                if matches!(self.mode, Mode::Static) || matches!(msg.mode, Some(Mode::Static)) {
                    c.normalized()
                } else {
                    self.color
                }
            },
            None => self.color,
        };
        let brightness = match msg.brightness {
            Some(b) => clamp_i64(b, MAX_BRIGHTNESS as u32) as u8,
            None => self.brightness,
        };
        let rainbow_speed = match msg.rainbow_speed {
            Some(v) => clamp_i64(v, MAX_RAINBOW_SPEED),
            None => self.rainbow_speed,
        };
        let transition = match msg.state {
            Some(p) => p != self.state,
            None => false,
        };
        let hue_remainder = match msg.rainbow_speed {
            Some(_) => 0,
            None => self.hue_remainder,
        };
        proof {
            lemma_cycle_bounds(rainbow_speed);
        }
        *self = State {
            color,
            brightness,
            rainbow_speed,
            mode: match msg.mode {
                Some(m) => m,
                None => self.mode,
            },
            state: match msg.state {
                Some(p) => p,
                None => self.state,
            },
            hue_remainder,
            transition,
        };
    }
}

impl State {
    /// The frame that renders this state at once: its colour at its
    /// brightness when on, the zero-intensity frame when off.
    pub open spec fn frame_spec(self) -> HsvFrame {
        match self.state {
            OnState::On => HsvFrame {
                hue: self.color.h,
                saturation: self.color.s,
                value: (self.brightness * VALUE_PER_BRIGHTNESS) as u32,
            },
            OnState::Off => HsvFrame::black_spec(),
        }
    }

    pub fn frame(&self) -> (r: HsvFrame)
        ensures
            r == self.frame_spec(),
    {
        match self.state {
            OnState::On => HsvFrame {
                hue: self.color.h,
                saturation: self.color.s,
                value: self.brightness as u32 * VALUE_PER_BRIGHTNESS,
            },
            OnState::Off => HsvFrame::black(),
        }
    }

    /// The frames of the ramp that follows a power flip: `ramp_steps + 1`
    /// frames of this colour whose brightness runs from 0 to the brightness
    /// (power now on) or from the brightness to 0 (power now off).
    pub open spec fn ramp_frames(self, step_ms: u32) -> Seq<HsvFrame> {
        let n = ramp_steps(step_ms);
        Seq::new(
            (n + 1) as nat,
            |k: int|
                HsvFrame {
                    hue: self.color.h,
                    saturation: self.color.s,
                    value: ramp_level(self.brightness as int, self.state == OnState::On, k, n) as u32,
                },
        )
    }

    /// The frames that `apply` hands to the fixture, in order.
    pub open spec fn rendered(self, step_ms: u32) -> Seq<HsvFrame> {
        if self.transition {
            self.ramp_frames(step_ms)
        } else {
            seq![self.frame_spec()]
        }
    }

    /// Whether the rainbow stepper runs: power on and rainbow mode.
    pub open spec fn rainbow_active_spec(self) -> bool {
        self.state == OnState::On && self.mode == Mode::Rainbow
    }

    pub fn rainbow_active(&self) -> (r: bool)
        ensures
            r == self.rainbow_active_spec(),
    {
        matches!(self.state, OnState::On) && matches!(self.mode, Mode::Rainbow)
    }

    /// The state after one rainbow tick of `step_ms`: the hue moves by the
    /// whole hundredths of a degree in the phase, and the rest is carried.
    pub open spec fn stepped(self, step_ms: u32) -> State {
        let total = phase_total(self.hue_remainder, step_ms);
        let c = cycle_ms(self.rainbow_speed);
        State {
            color: Color { h: ((self.color.h + total / c) % (HUE_FULL_TURN as int)) as u32, ..self.color },
            hue_remainder: (total % c) as u32,
            ..self
        }
    }

    /// Advances the hue by one tick of `step_duration_ms`: a full turn over
    /// the ticks in one cycle, with the fraction of a hundredth of a degree
    /// carried to the next tick.
    pub fn step_hue(&mut self, step_duration_ms: u32)
        ensures
            *final(self) == old(self).stepped(step_duration_ms),
            old(self).wf() ==> final(self).wf(),
    {
        let cycle = cycle_of(self.rainbow_speed);
        let turn: u64 = HUE_FULL_TURN as u64;
        assert(turn * step_duration_ms <= turn * 0xffff_ffff) by (nonlinear_arith)
            requires
                step_duration_ms <= 0xffff_ffff,
        ;
        let total: u64 = self.hue_remainder as u64 + turn * step_duration_ms as u64;
        let advance: u64 = total / cycle;
        proof {
            vstd::arithmetic::div_mod::lemma_div_is_ordered_by_denominator(total as int, 1, cycle as int);
            vstd::arithmetic::div_mod::lemma_mod_bound(total as int, cycle as int);
        }
        let rem: u64 = total % cycle;
        let h: u64 = (self.color.h as u64 + advance) % turn;
        self.color = Color { h: h as u32, s: self.color.s };
        self.hue_remainder = rem as u32;
    }

    /// Renders the state: hands back the frames to show, in order, and
    /// consumes the transition flag. After a power flip these are the
    /// brightness ramp, one tick of `step_duration_ms` apart; otherwise the
    /// single frame of the state.
    pub fn apply(&mut self, step_duration_ms: u32) -> (r: Vec<HsvFrame>)
        ensures
            r@ == old(self).rendered(step_duration_ms),
            *final(self) == (State { transition: false, ..*old(self) }),
    {
        let mut frames: Vec<HsvFrame> = Vec::new();
        if self.transition {
            self.transition = false;
            let n: u32 = if step_duration_ms == 0 || step_duration_ms > TRANSITION_MS {
                1
            } else {
                TRANSITION_MS / step_duration_ms
            };
            proof {
                lemma_ramp_steps_bounds(step_duration_ms);
            }
            let up = matches!(self.state, OnState::On);
            let b: u32 = self.brightness as u32 * VALUE_PER_BRIGHTNESS;
            let ghost target = State { transition: true, ..*self };
            let mut k: u32 = 0;
            while k <= n
                invariant
                    0 < n <= TRANSITION_MS,
                    n == ramp_steps(step_duration_ms),
                    k <= n + 1,
                    b == self.brightness * VALUE_PER_BRIGHTNESS,
                    up == (self.state == OnState::On),
                    target == (State { transition: true, ..*self }),
                    frames@ == target.ramp_frames(step_duration_ms).take(k as int),
                decreases n + 1 - k,
            {
                assert(b * k <= 127500 * 500 && b * (n - k) <= 127500 * 500) by (nonlinear_arith)
                    requires
                        b <= 127500,
                        k <= n <= 500,
                ;
                let scaled: u32 = if up { b * k } else { b * (n - k) };
                proof {
                    if up {
                        lemma_scaled_bounds(b as int, k as int, n as int);
                    } else {
                        lemma_scaled_bounds(b as int, (n - k) as int, n as int);
                    }
                }
                let level: u32 = scaled / n;
                frames.push(HsvFrame { hue: self.color.h, saturation: self.color.s, value: level });
                assert(frames@ =~= target.ramp_frames(step_duration_ms).take(k + 1));
                k = k + 1;
            }
            assert(frames@ =~= target.ramp_frames(step_duration_ms));
        } else {
            frames.push(self.frame());
            assert(frames@ =~= seq![old(self).frame_spec()]);
        }
        frames
    }
}

/// The state after `n` rainbow ticks of `step_ms`.
pub open spec fn stepped_times(s: State, step_ms: u32, n: nat) -> State
    decreases n,
{
    if n == 0 {
        s
    } else {
        stepped_times(s, step_ms, (n - 1) as nat).stepped(step_ms)
    }
}

/// Merging the empty message changes nothing (outside a pending transition,
/// which any merge consumes).
pub proof fn lemma_edit_empty_is_identity(s: State)
    requires
        !s.transition,
    ensures
        s.edited(ControlMessage::empty_spec()) == s,
{
}

/// In rainbow mode a message that does not switch to static leaves the colour
/// (hue and saturation) as it was, whatever colour it carries.
pub proof fn lemma_rainbow_color_protected(s: State, msg: ControlMessage)
    requires
        s.mode == Mode::Rainbow,
        msg.mode != Some(Mode::Static),
    ensures
        s.edited(msg).color == s.color,
{
}

/// Whatever the magnitudes in the message, the merged brightness lies in
/// `[0, 255]` and the rainbow speed in `[0, MAX_RAINBOW_SPEED]`.
pub proof fn lemma_edit_clamps(s: State, msg: ControlMessage)
    requires
        s.wf(),
    ensures
        0 <= s.edited(msg).brightness <= MAX_BRIGHTNESS,
        0 <= s.edited(msg).rainbow_speed <= MAX_RAINBOW_SPEED,
        s.edited(msg).wf(),
{
}

/// After switching a rainbow state to static with a message that carries no
/// colour, the colour it had is kept, and the next message's colour is taken
/// (wrapped onto the wheel and capped, so exactly as sent when within range).
pub proof fn lemma_static_switch_restores_color(t: State, to_static: ControlMessage, next: ControlMessage, c: Color)
    requires
        t.mode == Mode::Rainbow,
        to_static.mode == Some(Mode::Static),
        to_static.color is None,
        next.mode is None,
        next.color == Some(c),
    ensures
        t.edited(to_static).color == t.color,
        t.edited(to_static).mode == Mode::Static,
        t.edited(to_static).edited(next).color == c.normalized_spec(),
        t.edited(to_static).edited(next).mode == Mode::Static,
        c.wf() ==> t.edited(to_static).edited(next).color == c,
{
    if c.wf() {
        vstd::arithmetic::div_mod::lemma_small_mod(c.h as nat, HUE_FULL_TURN as nat);
    }
}

proof fn lemma_stepped_times_phase(s: State, step_ms: u32, n: nat)
    requires
        s.wf(),
    ensures
        ({
            let c = cycle_ms(s.rainbow_speed);
            let t = s.hue_remainder + n * (HUE_FULL_TURN * step_ms);
            stepped_times(s, step_ms, n) == (State {
                color: Color { h: ((s.color.h + t / c) % (HUE_FULL_TURN as int)) as u32, ..s.color },
                hue_remainder: (t % c) as u32,
                ..s
            })
        }),
    decreases n,
{
    let c = cycle_ms(s.rainbow_speed);
    let f = HUE_FULL_TURN as int;
    let x = HUE_FULL_TURN * step_ms;
    lemma_cycle_bounds(s.rainbow_speed);
    if n == 0 {
        vstd::arithmetic::div_mod::lemma_basic_div(s.hue_remainder as int, c);
        vstd::arithmetic::div_mod::lemma_small_mod(s.hue_remainder as nat, c as nat);
        vstd::arithmetic::div_mod::lemma_small_mod(s.color.h as nat, f as nat);
    } else {
        lemma_stepped_times_phase(s, step_ms, (n - 1) as nat);
        let t = s.hue_remainder + (n - 1) * x;
        assert(t >= 0) by (nonlinear_arith)
            requires
                t == s.hue_remainder + (n - 1) * x,
                x >= 0,
                n >= 1,
        ;
        vstd::arithmetic::div_mod::lemma_fundamental_div_mod(t, c);
        vstd::arithmetic::div_mod::lemma_mod_bound(t, c);
        vstd::arithmetic::div_mod::lemma_div_pos_is_pos(t, c);
        let q = t / c;
        let r = t % c;
        let adv = (r + x) / c;
        vstd::arithmetic::div_mod::lemma_div_pos_is_pos(r + x, c);
        vstd::arithmetic::div_mod::lemma_hoist_over_denominator(r + x, q, c as nat);
        assert(r + x + q * c == t + x) by (nonlinear_arith)
            requires
                t == c * q + r,
        ;
        vstd::arithmetic::div_mod::lemma_mod_multiples_vanish(q, r + x, c);
        assert(c * q + (r + x) == t + x);
        vstd::arithmetic::div_mod::lemma_mod_bound(s.color.h + q, f);
        vstd::arithmetic::div_mod::lemma_add_mod_noop_right(adv, s.color.h + q, f);
        assert(t + x == s.hue_remainder + n * x) by (nonlinear_arith)
            requires
                t == s.hue_remainder + (n - 1) * x,
        ;
        assert(s.color.h + q + adv == s.color.h + (t + x) / c);
    }
}

/// The rainbow stepper is periodic: where the tick divides the cycle, as many
/// ticks as there are in one cycle bring the hue, and the carried remainder,
/// back exactly to where they started.
pub proof fn lemma_step_hue_periodic(s: State, step_ms: u32)
    requires
        s.wf(),
        step_ms > 0,
        cycle_ms(s.rainbow_speed) % (step_ms as int) == 0,
    ensures
        stepped_times(s, step_ms, steps_in_cycle(s.rainbow_speed, step_ms) as nat) == s,
{
    let c = cycle_ms(s.rainbow_speed);
    let f = HUE_FULL_TURN as int;
    let dm = step_ms as int;
    lemma_cycle_bounds(s.rainbow_speed);
    let n = c / dm;
    vstd::arithmetic::div_mod::lemma_fundamental_div_mod(c, dm);
    vstd::arithmetic::div_mod::lemma_div_pos_is_pos(c, dm);
    assert(n * (f * dm) == f * c) by (nonlinear_arith)
        requires
            c == dm * n,
    ;
    lemma_stepped_times_phase(s, step_ms, n as nat);
    let rem = s.hue_remainder as int;
    vstd::arithmetic::div_mod::lemma_hoist_over_denominator(rem, f, c as nat);
    vstd::arithmetic::div_mod::lemma_basic_div(rem, c);
    assert(f * c == c * f) by (nonlinear_arith);
    vstd::arithmetic::div_mod::lemma_mod_multiples_vanish(f, rem, c);
    vstd::arithmetic::div_mod::lemma_small_mod(rem as nat, c as nat);
    vstd::arithmetic::div_mod::lemma_mod_add_multiples_vanish(s.color.h as int, f);
    vstd::arithmetic::div_mod::lemma_small_mod(s.color.h as nat, f as nat);
}

/// A state that is off renders as the zero-intensity frame, whatever its
/// colour and brightness; a ramp to off ends on zero intensity too.
pub proof fn lemma_off_renders_black(s: State, step_ms: u32)
    requires
        s.state == OnState::Off,
    ensures
        s.frame_spec() == HsvFrame::black_spec(),
        !s.transition ==> s.rendered(step_ms) == seq![HsvFrame::black_spec()],
        s.transition ==> s.rendered(step_ms).last().value == 0,
{
    lemma_ramp_steps_bounds(step_ms);
    let n = ramp_steps(step_ms);
    assert((s.brightness as int * VALUE_PER_BRIGHTNESS * (n - n)) / n == 0);
}

proof fn lemma_ramp_gap(b: int, i: int, j: int, n: int)
    requires
        VALUE_PER_BRIGHTNESS <= b,
        0 <= i < j,
        0 < n <= VALUE_PER_BRIGHTNESS,
    ensures
        (b * i) / n < (b * j) / n,
{
    assert(b * (i + 1) <= b * j) by (nonlinear_arith)
        requires
            0 <= b,
            i + 1 <= j,
    ;
    assert(b * (i + 1) == b * i + b) by (nonlinear_arith);
    vstd::arithmetic::div_mod::lemma_hoist_over_denominator(b * i, 1, n as nat);
    vstd::arithmetic::div_mod::lemma_div_is_ordered(b * i + n, b * j, n);
}

/// The ramp after a power flip arrives exactly: when the power came on it
/// starts at 0 and ends at the brightness, and when it went off it starts at
/// the brightness and ends at 0. Each frame is strictly brighter (on) or
/// strictly darker (off) than the one before, for any brightness above 0.
pub proof fn lemma_ramp_arrives(s: State, step_ms: u32)
    requires
        s.transition,
    ensures
        ({
            let fr = s.rendered(step_ms);
            let top = s.brightness * VALUE_PER_BRIGHTNESS;
            &&& fr.len() >= 2
            &&& forall|k: int| 0 <= k < fr.len() ==> fr[k].hue == s.color.h && fr[k].saturation == s.color.s
            &&& s.state == OnState::On ==> fr[0].value == 0 && fr.last().value == top
            &&& s.state == OnState::Off ==> fr[0].value == top && fr.last().value == 0
            &&& s.brightness > 0 && s.state == OnState::On ==> forall|i: int, j: int|
                0 <= i < j < fr.len() ==> fr[i].value < fr[j].value
            &&& s.brightness > 0 && s.state == OnState::Off ==> forall|i: int, j: int|
                0 <= i < j < fr.len() ==> fr[i].value > fr[j].value
        }),
{
    lemma_ramp_steps_bounds(step_ms);
    let n = ramp_steps(step_ms);
    let b = s.brightness * VALUE_PER_BRIGHTNESS;
    let fr = s.rendered(step_ms);
    assert forall|k: int| 0 <= k <= n implies 0 <= #[trigger] ramp_level(s.brightness as int, true, k, n) <= b
        && 0 <= ramp_level(s.brightness as int, false, k, n) <= b by {
        lemma_scaled_bounds(b, k, n);
        lemma_scaled_bounds(b, n - k, n);
    }
    vstd::arithmetic::div_mod::lemma_div_multiples_vanish(b, n);
    assert(b * n == n * b) by (nonlinear_arith);
    assert(fr[0].value == ramp_level(s.brightness as int, s.state == OnState::On, 0, n));
    assert(fr.last().value == ramp_level(s.brightness as int, s.state == OnState::On, n, n));
    if s.brightness > 0 {
        assert forall|i: int, j: int| 0 <= i < j < fr.len() implies (s.state == OnState::On ==> fr[i].value
            < fr[j].value) && (s.state == OnState::Off ==> fr[i].value > fr[j].value) by {
            lemma_scaled_bounds(b, i, n);
            lemma_scaled_bounds(b, j, n);
            lemma_scaled_bounds(b, n - i, n);
            lemma_scaled_bounds(b, n - j, n);
            lemma_ramp_gap(b, i, j, n);
            lemma_ramp_gap(b, n - j, n - i, n);
        }
    }
}

impl Default for State {
    fn default() -> (r: State)
        ensures
            r == State::initial(),
    {
        State {
            color: Color { h: 0, s: 10000 },
            brightness: 255,
            rainbow_speed: 6000,
            mode: Mode::Static,
            state: OnState::Off,
            hue_remainder: 0,
            transition: false,
        }
    }
}

} // verus!
