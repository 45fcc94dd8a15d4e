//! Colours and the LED frame buffer of one cell.
//!
//! A colour is three 8-bit channels. Brightness factors are 8-bit fixed point:
//! a factor `f` stands for the fraction `f / 256`, so no factor reaches 1 and a
//! scaled or blended channel may sit one step below the exact value.

use crate::hexcell::HexCell;
use vstd::prelude::*;

verus! {

/// Number of LEDs on one cell.
pub const LED_COUNT: usize = 9;

/// One colour per LED of a cell.
pub type LedBuffer = [Led; LED_COUNT];

/// `value * factor / 256`: a channel dimmed by a fixed-point factor.
pub open spec fn scale_channel(value: u8, factor: u8) -> u8 {
    ((value as int * factor as int) / 256) as u8
}

/// The fixed-point mix of two channels: `from` weighted by `255 - factor`,
/// `to` weighted by `factor`, the sum divided by 256.
pub open spec fn blend_channel(from: u8, to: u8, factor: u8) -> u8 {
    ((from as int * (255 - factor as int) + to as int * factor as int) / 256) as u8
}

/// Progress of a fade as a fixed-point factor: `elapsed * 256 / duration`
/// while the fade runs, 255 from the moment `elapsed` reaches `duration`.
pub open spec fn fade_factor(elapsed: u32, duration: u32) -> u8 {
    if elapsed < duration {
        ((elapsed as int * 256) / (duration as int)) as u8
    } else {
        255u8
    }
}

/// A colour: red, green and blue, eight bits each.
#[derive(Copy, Clone, Debug, PartialEq, Eq, Structural)]
pub struct Led {
    pub r: u8,
    pub g: u8,
    pub b: u8,
}

/// `a - b` in eight bits, wrapping round below zero.
pub open spec fn wrapped_difference(a: u8, b: u8) -> u8 {
    if a >= b {
        (a - b) as u8
    } else {
        (a - b + 256) as u8
    }
}

/// The dark colour.
pub open spec fn led_off() -> Led {
    Led { r: 0, g: 0, b: 0 }
}

/// `value * factor` never leaves 16 bits, and its quotient by 256 fits a channel.
proof fn lemma_product_bounds(value: u8, factor: u8)
    ensures
        0 <= value as int * factor as int <= 65025,
        0 <= (value as int * factor as int) / 256 <= 254,
{
    assert(0 <= value as int * factor as int <= 65025) by (nonlinear_arith)
        requires
            0 <= value as int <= 255,
            0 <= factor as int <= 255,
    ;
}

/// The weighted sum of a blend never leaves 16 bits.
proof fn lemma_blend_bounds(from: u8, to: u8, factor: u8)
    ensures
        0 <= from as int * (255 - factor as int) <= 65025,
        0 <= to as int * factor as int <= 65025,
        0 <= from as int * (255 - factor as int) + to as int * factor as int <= 65025,
{
    let f = factor as int;
    let a = from as int;
    let b = to as int;
    assert(0 <= a * (255 - f) <= 255 * (255 - f)) by (nonlinear_arith)
        requires
            0 <= a <= 255,
            0 <= f <= 255,
    ;
    assert(0 <= b * f <= 255 * f) by (nonlinear_arith)
        requires
            0 <= b <= 255,
            0 <= f <= 255,
    ;
}

/// While a fade runs its factor stays below 256.
proof fn lemma_factor_bounds(elapsed: u32, duration: u32)
    requires
        elapsed < duration,
    ensures
        0 <= (elapsed as int * 256) / (duration as int) <= 255,
{
    let e = elapsed as int;
    let d = duration as int;
    assert(0 <= (e * 256) / d <= 255) by (nonlinear_arith)
        requires
            0 <= e < d,
    ;
}

fn scale_value(value: u8, factor: u8) -> (out: u8)
    ensures
        out == scale_channel(value, factor),
{
    proof {
        lemma_product_bounds(value, factor);
    }
    let wide: u16 = value as u16 * factor as u16;
    assert(wide >> 8 == wide / 256) by (bit_vector);
    (wide >> 8) as u8
}

fn blend_value(from: u8, to: u8, factor: u8) -> (out: u8)
    ensures
        out == blend_channel(from, to, factor),
{
    proof {
        lemma_blend_bounds(from, to, factor);
    }
    let inverse: u16 = 0xFF - factor as u16;
    let wide: u16 = from as u16 * inverse + to as u16 * factor as u16;
    assert(wide >> 8 == wide / 256) by (bit_vector);
    (wide >> 8) as u8
}

/// The fixed-point progress of a fade after `elapsed` out of `duration`.
pub fn fade_progress(elapsed: u32, duration: u32) -> (factor: u8)
    ensures
        factor == fade_factor(elapsed, duration),
{
    if elapsed < duration {
        proof {
            lemma_factor_bounds(elapsed, duration);
        }
        let wide: u64 = elapsed as u64;
        assert(wide << 8 == wide * 256) by (bit_vector)
            requires
                wide <= 0xFFFF_FFFF,
        ;
        ((wide << 8) / (duration as u64)) as u8
    } else {
        0xFF
    }
}

impl Led {
    /// The dark colour.
    pub fn off() -> (led: Led)
        ensures
            led == led_off(),
    {
        Led { r: 0, g: 0, b: 0 }
    }

    /// This colour with every channel dimmed by `factor / 256`.
    pub open spec fn scaled(self, factor: u8) -> Led {
        Led {
            r: scale_channel(self.r, factor),
            g: scale_channel(self.g, factor),
            b: scale_channel(self.b, factor),
        }
    }

    /// The colour `factor / 256` of the way from `self` to `target`.
    pub open spec fn blended(self, target: Led, factor: u8) -> Led {
        Led {
            r: blend_channel(self.r, target.r, factor),
            g: blend_channel(self.g, target.g, factor),
            b: blend_channel(self.b, target.b, factor),
        }
    }

    /// The colour shown `elapsed` into a fade of length `duration` from `self`
    /// to `target`.
    pub open spec fn faded(self, target: Led, elapsed: u32, duration: u32) -> Led {
        self.blended(target, fade_factor(elapsed, duration))
    }

    /// Dims every channel by the fixed-point factor `factor / 256`.
    pub fn scale(&self, factor: u8) -> (out: Led)
        ensures
            out == self.scaled(factor),
    {
        Led {
            r: scale_value(self.r, factor),
            g: scale_value(self.g, factor),
            b: scale_value(self.b, factor),
        }
    }

    /// The colour of a fade from `self` to `target` after `elapsed` out of
    /// `duration`. The colour itself is left as it was.
    pub fn interpolate(&mut self, target: Led, elapsed: u32, duration: u32) -> (out: Led)
        ensures
            out == old(self).faded(target, elapsed, duration),
            *final(self) == *old(self),
    {
        let factor: u8 = fade_progress(elapsed, duration);
        Led {
            r: blend_value(self.r, target.r, factor),
            g: blend_value(self.g, target.g, factor),
            b: blend_value(self.b, target.b, factor),
        }
    }

    /// Divides every channel by `rhs`, rounding down.
    pub fn div(self, rhs: u8) -> (out: Led)
        requires
            rhs != 0,
        ensures
            out.r == self.r / rhs,
            out.g == self.g / rhs,
            out.b == self.b / rhs,
    {
        Led { r: self.r / rhs, g: self.g / rhs, b: self.b / rhs }
    }

    /// Multiplies every channel by `rhs`; no product may leave eight bits.
    pub fn mul(self, rhs: u8) -> (out: Led)
        requires
            self.r * rhs <= 255,
            self.g * rhs <= 255,
            self.b * rhs <= 255,
        ensures
            out.r == self.r * rhs,
            out.g == self.g * rhs,
            out.b == self.b * rhs,
    {
        Led { r: self.r * rhs, g: self.g * rhs, b: self.b * rhs }
    }
}

impl Default for Led {
    fn default() -> (led: Led)
        ensures
            led == led_off(),
    {
        Led { r: 0, g: 0, b: 0 }
    }
}

impl core::ops::Add for Led {
    type Output = Led;

    /// Channel-wise sum; no channel may leave eight bits.
    fn add(self, rhs: Led) -> (out: Led) {
        Led { r: self.r + rhs.r, g: self.g + rhs.g, b: self.b + rhs.b }
    }
}

impl vstd::std_specs::ops::AddSpecImpl for Led {
    open spec fn obeys_add_spec() -> bool {
        true
    }

    open spec fn add_req(self, rhs: Led) -> bool {
        self.r + rhs.r <= 255 && self.g + rhs.g <= 255 && self.b + rhs.b <= 255
    }

    open spec fn add_spec(self, rhs: Led) -> Led {
        Led { r: (self.r + rhs.r) as u8, g: (self.g + rhs.g) as u8, b: (self.b + rhs.b) as u8 }
    }
}

impl core::ops::Add for &Led {
    type Output = Led;

    /// Channel-wise sum; no channel may leave eight bits.
    fn add(self, rhs: &Led) -> (out: Led) {
        Led { r: self.r + rhs.r, g: self.g + rhs.g, b: self.b + rhs.b }
    }
}

impl vstd::std_specs::ops::AddSpecImpl for &Led {
    open spec fn obeys_add_spec() -> bool {
        true
    }

    open spec fn add_req(self, rhs: &Led) -> bool {
        self.r + rhs.r <= 255 && self.g + rhs.g <= 255 && self.b + rhs.b <= 255
    }

    open spec fn add_spec(self, rhs: &Led) -> Led {
        Led { r: (self.r + rhs.r) as u8, g: (self.g + rhs.g) as u8, b: (self.b + rhs.b) as u8 }
    }
}

impl core::ops::AddAssign for Led {
    /// Channel-wise sum in place; no channel may leave eight bits.
    fn add_assign(&mut self, rhs: Led)
        requires
            old(self).r + rhs.r <= 255,
            old(self).g + rhs.g <= 255,
            old(self).b + rhs.b <= 255,
        ensures
            final(self).r == old(self).r + rhs.r,
            final(self).g == old(self).g + rhs.g,
            final(self).b == old(self).b + rhs.b,
    {
        self.r = self.r + rhs.r;
        self.g = self.g + rhs.g;
        self.b = self.b + rhs.b;
    }
}

impl core::ops::Sub for Led {
    type Output = Led;

    /// Channel-wise difference, wrapping round below zero.
    fn sub(self, rhs: Led) -> (out: Led) {
        Led {
            r: self.r.wrapping_sub(rhs.r),
            g: self.g.wrapping_sub(rhs.g),
            b: self.b.wrapping_sub(rhs.b),
        }
    }
}

impl vstd::std_specs::ops::SubSpecImpl for Led {
    open spec fn obeys_sub_spec() -> bool {
        true
    }

    open spec fn sub_req(self, rhs: Led) -> bool {
        true
    }

    open spec fn sub_spec(self, rhs: Led) -> Led {
        Led {
            r: wrapped_difference(self.r, rhs.r),
            g: wrapped_difference(self.g, rhs.g),
            b: wrapped_difference(self.b, rhs.b),
        }
    }
}

impl core::ops::SubAssign for Led {
    /// Channel-wise difference in place; no channel may drop below zero.
    fn sub_assign(&mut self, rhs: Led)
        requires
            old(self).r >= rhs.r,
            old(self).g >= rhs.g,
            old(self).b >= rhs.b,
        ensures
            final(self).r == old(self).r - rhs.r,
            final(self).g == old(self).g - rhs.g,
            final(self).b == old(self).b - rhs.b,
    {
        self.r = self.r - rhs.r;
        self.g = self.g - rhs.g;
        self.b = self.b - rhs.b;
    }
}

impl core::ops::Mul for Led {
    type Output = Led;

    /// Channel-wise product; no product may leave eight bits.
    fn mul(self, rhs: Led) -> (out: Led) {
        Led { r: self.r * rhs.r, g: self.g * rhs.g, b: self.b * rhs.b }
    }
}

impl vstd::std_specs::ops::MulSpecImpl for Led {
    open spec fn obeys_mul_spec() -> bool {
        true
    }

    open spec fn mul_req(self, rhs: Led) -> bool {
        self.r * rhs.r <= 255 && self.g * rhs.g <= 255 && self.b * rhs.b <= 255
    }

    open spec fn mul_spec(self, rhs: Led) -> Led {
        Led { r: (self.r * rhs.r) as u8, g: (self.g * rhs.g) as u8, b: (self.b * rhs.b) as u8 }
    }
}

impl core::ops::Div for Led {
    type Output = Led;

    /// Channel-wise quotient, rounding down; no channel of `rhs` may be zero.
    fn div(self, rhs: Led) -> (out: Led) {
        Led { r: self.r / rhs.r, g: self.g / rhs.g, b: self.b / rhs.b }
    }
}

impl vstd::std_specs::ops::DivSpecImpl for Led {
    open spec fn obeys_div_spec() -> bool {
        true
    }

    open spec fn div_req(self, rhs: Led) -> bool {
        rhs.r != 0 && rhs.g != 0 && rhs.b != 0
    }

    open spec fn div_spec(self, rhs: Led) -> Led {
        Led { r: self.r / rhs.r, g: self.g / rhs.g, b: self.b / rhs.b }
    }
}

/// A fade's factor never falls as time passes.
pub proof fn lemma_fade_factor_rises(earlier: u32, later: u32, duration: u32)
    requires
        earlier <= later,
    ensures
        fade_factor(earlier, duration) <= fade_factor(later, duration),
{
    if later < duration {
        lemma_factor_bounds(earlier, duration);
        lemma_factor_bounds(later, duration);
        vstd::arithmetic::div_mod::lemma_div_is_ordered(
            earlier as int * 256,
            later as int * 256,
            duration as int,
        );
    } else if earlier < duration {
        lemma_factor_bounds(earlier, duration);
    }
}

/// A blend towards a channel that is no darker never falls as the factor
/// grows, and stays between one step below `from` and `to`.
pub proof fn lemma_blend_rises(from: u8, to: u8, low: u8, high: u8)
    requires
        from <= to,
        low <= high,
    ensures
        blend_channel(from, to, low) <= blend_channel(from, to, high),
        from - 1 <= blend_channel(from, to, low),
        blend_channel(from, to, high) <= to,
{
    lemma_blend_bounds(from, to, low);
    lemma_blend_bounds(from, to, high);
    let a = from as int;
    let b = to as int;
    let l = low as int;
    let h = high as int;
    assert(a * (255 - l) + b * l <= a * (255 - h) + b * h) by (nonlinear_arith)
        requires
            a <= b,
            l <= h,
    ;
    assert(a * 255 <= a * (255 - l) + b * l) by (nonlinear_arith)
        requires
            a <= b,
            0 <= l,
    ;
    assert(a * (255 - h) + b * h <= b * 255) by (nonlinear_arith)
        requires
            a <= b,
            0 <= h <= 255,
    ;
}

/// Law of the fade's course: towards a target that is no darker in any
/// channel, no channel of the output ever falls as time passes.
pub proof fn lemma_fade_monotonic(from: Led, to: Led, earlier: u32, later: u32, duration: u32)
    requires
        from.r <= to.r,
        from.g <= to.g,
        from.b <= to.b,
        earlier <= later,
    ensures
        from.faded(to, earlier, duration).r <= from.faded(to, later, duration).r,
        from.faded(to, earlier, duration).g <= from.faded(to, later, duration).g,
        from.faded(to, earlier, duration).b <= from.faded(to, later, duration).b,
{
    lemma_fade_factor_rises(earlier, later, duration);
    let low = fade_factor(earlier, duration);
    let high = fade_factor(later, duration);
    lemma_blend_rises(from.r, to.r, low, high);
    lemma_blend_rises(from.g, to.g, low, high);
    lemma_blend_rises(from.b, to.b, low, high);
}

/// Law of the fade's start: at no elapsed time a fade of positive length shows
/// each channel of the starting colour, or one step less; a dark channel is
/// shown exactly.
pub proof fn lemma_fade_starts_at_start(from: Led, to: Led, duration: u32)
    requires
        duration > 0,
    ensures
        from.r - 1 <= from.faded(to, 0, duration).r <= from.r,
        from.g - 1 <= from.faded(to, 0, duration).g <= from.g,
        from.b - 1 <= from.faded(to, 0, duration).b <= from.b,
        from.r == 0 ==> from.faded(to, 0, duration).r == 0,
        from.g == 0 ==> from.faded(to, 0, duration).g == 0,
        from.b == 0 ==> from.faded(to, 0, duration).b == 0,
        from == led_off() ==> from.faded(to, 0, duration) == from,
{
    assert((0int * 256) / (duration as int) == 0) by (nonlinear_arith)
        requires
            duration > 0,
    ;
    assert(fade_factor(0, duration) == 0);
}

/// Law of the fade's end: once the elapsed time has reached the duration the
/// output shows each channel of the target, or one step less.
pub proof fn lemma_fade_ends_at_target(from: Led, to: Led, elapsed: u32, duration: u32)
    requires
        elapsed >= duration,
    ensures
        to.r - 1 <= from.faded(to, elapsed, duration).r <= to.r,
        to.g - 1 <= from.faded(to, elapsed, duration).g <= to.g,
        to.b - 1 <= from.faded(to, elapsed, duration).b <= to.b,
{
    assert(fade_factor(elapsed, duration) == 255);
}

/// The frame buffer of one cell, as handed to its display.
pub struct Display {
    pub leds: LedBuffer,
}

impl Display {
    /// A dark display.
    pub fn new() -> (display: Display)
        ensures
            forall|i: int| 0 <= i < LED_COUNT ==> display.leds[i] == led_off(),
    {
        Display { leds: [Led::off();LED_COUNT] }
    }

    /// Turns every LED dark.
    pub fn clear(&mut self)
        ensures
            forall|i: int| 0 <= i < LED_COUNT ==> final(self).leds[i] == led_off(),
    {
        self.set_all(Led { r: 0, g: 0, b: 0 });
    }

    /// Sets the LED at `idx`; an index past the last LED changes nothing.
    pub fn set_led(&mut self, idx: usize, value: Led)
        ensures
            idx < LED_COUNT ==> final(self).leds@ == old(self).leds@.update(idx as int, value),
            idx >= LED_COUNT ==> final(self).leds == old(self).leds,
    {
        if idx < LED_COUNT {
            self.leds[idx] = value;
        }
    }

    /// Sets every LED to `value`.
    pub fn set_all(&mut self, value: Led)
        ensures
            forall|i: int| 0 <= i < LED_COUNT ==> final(self).leds[i] == value,
    {
        let mut idx: usize = 0;
        while idx < LED_COUNT
            invariant
                idx <= LED_COUNT,
                forall|i: int| 0 <= i < idx ==> self.leds[i] == value,
            decreases LED_COUNT - idx,
        {
            self.leds[idx] = value;
            idx = idx + 1;
        }
    }

    /// Hands the colours to `device` to show.
    pub fn commit<T: HexCell>(&mut self, device: T)
        ensures
            final(self).leds == old(self).leds,
    {
        let mut device = device;
        device.update_display(&self.leds);
    }
}

} // verus!
