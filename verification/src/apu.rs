//! The audio unit: two pulse channels, a triangle channel, a noise channel,
//! a delta-modulation channel, and the frame sequencer that drives their
//! envelope, sweep and length-counter events.
//!
//! Every channel produces an integer output level per tick (0..=15, the
//! delta channel 0..=127). Mixing the five levels into one floating-point
//! sample is the embedding program's concern, not this core's.

use vstd::prelude::*;

verus! {

/// One step of the selected pulse duty pattern: 1 where the wave is high.
/// The four patterns are the 12.5%, 25%, 50% and inverted-25% duties.
pub open spec fn duty_value(duty: u8, step: u8) -> u8 {
    if duty % 4 == 0 {
        if step % 8 == 1 { 1 } else { 0 }
    } else if duty % 4 == 1 {
        if step % 8 == 1 || step % 8 == 2 { 1 } else { 0 }
    } else if duty % 4 == 2 {
        if 1 <= step % 8 && step % 8 <= 4 { 1 } else { 0 }
    } else {
        if step % 8 == 0 || step % 8 >= 3 { 1 } else { 0 }
    }
}

/// The 32-step triangle waveform: 15 down to 0, then 0 up to 15.
pub open spec fn triangle_wave(step: u8) -> u8 {
    if step % 32 < 16 { (15 - step % 32) as u8 } else { (step % 32 - 16) as u8 }
}

/// The noise channel's 16-entry timer period table, selected by the low
/// 4 bits of the period register.
#[verifier::opaque]
pub open spec fn noise_period(idx: u8) -> u16 {
    if idx % 16 == 0 { 4 }
    else if idx % 16 == 1 { 8 }
    else if idx % 16 == 2 { 16 }
    else if idx % 16 == 3 { 32 }
    else if idx % 16 == 4 { 64 }
    else if idx % 16 == 5 { 96 }
    else if idx % 16 == 6 { 128 }
    else if idx % 16 == 7 { 160 }
    else if idx % 16 == 8 { 202 }
    else if idx % 16 == 9 { 254 }
    else if idx % 16 == 10 { 380 }
    else if idx % 16 == 11 { 508 }
    else if idx % 16 == 12 { 762 }
    else if idx % 16 == 13 { 1016 }
    else if idx % 16 == 14 { 2034 }
    else { 4068 }
}

/// The delta channel's 16-entry rate table, selected by the low 4 bits of
/// the frequency register.
#[verifier::opaque]
pub open spec fn dmc_rate(idx: u8) -> u16 {
    if idx % 16 == 0 { 428 }
    else if idx % 16 == 1 { 380 }
    else if idx % 16 == 2 { 340 }
    else if idx % 16 == 3 { 320 }
    else if idx % 16 == 4 { 286 }
    else if idx % 16 == 5 { 254 }
    else if idx % 16 == 6 { 226 }
    else if idx % 16 == 7 { 214 }
    else if idx % 16 == 8 { 190 }
    else if idx % 16 == 9 { 160 }
    else if idx % 16 == 10 { 142 }
    else if idx % 16 == 11 { 128 }
    else if idx % 16 == 12 { 106 }
    else if idx % 16 == 13 { 84 }
    else if idx % 16 == 14 { 72 }
    else { 54 }
}

/// The 32-entry length-counter load table, indexed by the 5 length-load
/// bits of a timer-high register write.
#[verifier::opaque]
pub open spec fn length_table(load: u8) -> u8 {
    if load % 32 == 0 { 10 }
    else if load % 32 == 1 { 254 }
    else if load % 32 == 2 { 20 }
    else if load % 32 == 3 { 2 }
    else if load % 32 == 4 { 40 }
    else if load % 32 == 5 { 4 }
    else if load % 32 == 6 { 80 }
    else if load % 32 == 7 { 6 }
    else if load % 32 == 8 { 160 }
    else if load % 32 == 9 { 8 }
    else if load % 32 == 10 { 60 }
    else if load % 32 == 11 { 10 }
    else if load % 32 == 12 { 14 }
    else if load % 32 == 13 { 12 }
    else if load % 32 == 14 { 26 }
    else if load % 32 == 15 { 14 }
    else if load % 32 == 16 { 12 }
    else if load % 32 == 17 { 16 }
    else if load % 32 == 18 { 24 }
    else if load % 32 == 19 { 18 }
    else if load % 32 == 20 { 48 }
    else if load % 32 == 21 { 20 }
    else if load % 32 == 22 { 96 }
    else if load % 32 == 23 { 22 }
    else if load % 32 == 24 { 192 }
    else if load % 32 == 25 { 24 }
    else if load % 32 == 26 { 72 }
    else if load % 32 == 27 { 26 }
    else if load % 32 == 28 { 16 }
    else if load % 32 == 29 { 28 }
    else if load % 32 == 30 { 32 }
    else { 30 }
}

/// Executable length-counter table lookup.
pub fn length_table_lookup(load: u8) -> (r: u8)
    ensures
        r == length_table(load),
{
    proof {
        reveal(length_table);
    }
    match load % 32 {
        0 => 10, 1 => 254, 2 => 20, 3 => 2,
        4 => 40, 5 => 4, 6 => 80, 7 => 6,
        8 => 160, 9 => 8, 10 => 60, 11 => 10,
        12 => 14, 13 => 12, 14 => 26, 15 => 14,
        16 => 12, 17 => 16, 18 => 24, 19 => 18,
        20 => 48, 21 => 20, 22 => 96, 23 => 22,
        24 => 192, 25 => 24, 26 => 72, 27 => 26,
        28 => 16, 29 => 28, 30 => 32, _ => 30,
    }
}

/// Mathematical state of a pulse channel.
#[verifier::ext_equal]
pub ghost struct PulseView {
    pub enabled: bool,
    pub duty_cycle: u8,
    pub duty_step: u8,
    pub timer: u16,
    pub timer_value: u16,
    pub length_counter: u8,
    pub halt: bool,
    pub volume: u8,
    pub constant_volume: bool,
    pub envelope_start: bool,
    pub envelope_divider: u8,
    pub envelope_decay: u8,
    pub sweep_enabled: bool,
    pub sweep_period: u8,
    pub sweep_shift: u8,
    pub sweep_negate: bool,
    pub sweep_reload: bool,
    pub sweep_counter: u8,
}

impl PulseView {
    /// Field ranges every reachable pulse state satisfies.
    pub open spec fn wf(self) -> bool {
        &&& self.duty_cycle < 4
        &&& self.duty_step < 8
        &&& self.volume < 16
        &&& self.envelope_decay < 16
        &&& self.sweep_period < 8
        &&& self.sweep_shift < 8
    }
}

/// Effect of a write to the pulse duty/volume register.
pub open spec fn pulse_write_duty_spec(p: PulseView, value: u8) -> PulseView {
    PulseView {
        duty_cycle: (value / 64) as u8,
        halt: (value / 32) % 2 == 1,
        constant_volume: (value / 16) % 2 == 1,
        volume: (value % 16) as u8,
        ..p
    }
}

/// Effect of a write to the pulse sweep register.
pub open spec fn pulse_write_sweep_spec(p: PulseView, value: u8) -> PulseView {
    PulseView {
        sweep_enabled: (value / 128) % 2 == 1,
        sweep_period: ((value / 16) % 8) as u8,
        sweep_negate: (value / 8) % 2 == 1,
        sweep_shift: (value % 8) as u8,
        sweep_reload: true,
        ..p
    }
}

/// Effect of a write to the pulse timer-low register.
pub open spec fn pulse_write_timer_low_spec(p: PulseView, value: u8) -> PulseView {
    PulseView { timer: ((p.timer / 256) * 256 + value) as u16, ..p }
}

/// Effect of a write to the pulse timer-high register: the 3 high timer
/// bits, the table-defined length-counter load, and a restart of the duty
/// sequence and the envelope.
pub open spec fn pulse_write_timer_high_spec(p: PulseView, value: u8) -> PulseView {
    PulseView {
        timer: (p.timer % 256 + (value % 8) * 256) as u16,
        length_counter: length_table((value / 8) as u8),
        duty_step: 0,
        envelope_start: true,
        ..p
    }
}

/// One timer tick of the pulse channel: silent (level 0) when disabled or
/// the length counter is exhausted; otherwise the timer counts down and on
/// expiry reloads and advances the duty step; the level is the duty bit
/// times the current volume (constant volume or envelope decay level).
pub open spec fn pulse_tick_spec(p: PulseView) -> (PulseView, u8) {
    if !p.enabled || p.length_counter == 0 {
        (p, 0)
    } else {
        let tv = p.timer_value.wrapping_sub(1);
        let p2 = if tv == 0 {
            PulseView { timer_value: p.timer, duty_step: ((p.duty_step + 1) % 8) as u8, ..p }
        } else {
            PulseView { timer_value: tv, ..p }
        };
        let vol: u8 = if p2.constant_volume { p2.volume } else { p2.envelope_decay };
        ((p2), (duty_value(p2.duty_cycle, p2.duty_step) * vol) as u8)
    }
}

/// A quarter-frame event: the envelope is clocked, and the sweep unit
/// reloads or counts down, rewriting the timer period on expiry.
pub open spec fn pulse_quarter_spec(p: PulseView) -> PulseView {
    let p1 = if p.envelope_start {
        PulseView { envelope_start: false, envelope_decay: 15, envelope_divider: p.volume, ..p }
    } else if p.envelope_divider > 0 {
        PulseView { envelope_divider: (p.envelope_divider - 1) as u8, ..p }
    } else if p.envelope_decay > 0 {
        PulseView { envelope_divider: p.volume, envelope_decay: (p.envelope_decay - 1) as u8, ..p }
    } else if p.halt {
        PulseView { envelope_divider: p.volume, envelope_decay: 15, ..p }
    } else {
        PulseView { envelope_divider: p.volume, ..p }
    };
    if p1.sweep_reload {
        PulseView { sweep_counter: p1.sweep_period, sweep_reload: false, ..p1 }
    } else if p1.sweep_counter > 0 {
        PulseView { sweep_counter: (p1.sweep_counter - 1) as u8, ..p1 }
    } else if p1.sweep_enabled && p1.sweep_shift > 0 {
        let change = p1.timer >> p1.sweep_shift;
        PulseView {
            sweep_counter: p1.sweep_period,
            timer: if p1.sweep_negate {
                p1.timer.wrapping_sub(change)
            } else {
                p1.timer.wrapping_add(change)
            },
            ..p1
        }
    } else {
        PulseView { sweep_counter: p1.sweep_period, ..p1 }
    }
}

/// A half-frame event: the length counter counts down unless halted.
pub open spec fn pulse_half_spec(p: PulseView) -> PulseView {
    if p.length_counter > 0 && !p.halt {
        PulseView { length_counter: (p.length_counter - 1) as u8, ..p }
    } else {
        p
    }
}

/// A pulse channel's power-on state.
pub open spec fn pulse_poweron() -> PulseView {
    PulseView {
        enabled: false,
        duty_cycle: 0,
        duty_step: 0,
        timer: 0,
        timer_value: 0,
        length_counter: 0,
        halt: false,
        volume: 0,
        constant_volume: false,
        envelope_start: false,
        envelope_divider: 0,
        envelope_decay: 0,
        sweep_enabled: false,
        sweep_period: 0,
        sweep_shift: 0,
        sweep_negate: false,
        sweep_reload: false,
        sweep_counter: 0,
    }
}

/// A pulse wave channel: duty generator, envelope, sweep unit and length
/// counter.
#[derive(Clone, Copy)]
pub struct PulseChannel {
    pub enabled: bool,
    pub duty_cycle: u8,
    pub duty_step: u8,
    pub timer: u16,
    pub timer_value: u16,
    pub length_counter: u8,
    pub halt: bool,
    pub volume: u8,
    pub constant_volume: bool,
    pub envelope_start: bool,
    pub envelope_divider: u8,
    pub envelope_decay: u8,
    pub sweep_enabled: bool,
    pub sweep_period: u8,
    pub sweep_shift: u8,
    pub sweep_negate: bool,
    pub sweep_reload: bool,
    pub sweep_counter: u8,
}

impl View for PulseChannel {
    type V = PulseView;

    open spec fn view(&self) -> PulseView {
        PulseView {
            enabled: self.enabled,
            duty_cycle: self.duty_cycle,
            duty_step: self.duty_step,
            timer: self.timer,
            timer_value: self.timer_value,
            length_counter: self.length_counter,
            halt: self.halt,
            volume: self.volume,
            constant_volume: self.constant_volume,
            envelope_start: self.envelope_start,
            envelope_divider: self.envelope_divider,
            envelope_decay: self.envelope_decay,
            sweep_enabled: self.sweep_enabled,
            sweep_period: self.sweep_period,
            sweep_shift: self.sweep_shift,
            sweep_negate: self.sweep_negate,
            sweep_reload: self.sweep_reload,
            sweep_counter: self.sweep_counter,
        }
    }
}

impl PulseChannel {
    /// A silent pulse channel at power-on.
    pub fn new() -> (p: PulseChannel)
        ensures
            p@ == pulse_poweron(),
            p@.wf(),
    {
        PulseChannel {
            enabled: false,
            duty_cycle: 0,
            duty_step: 0,
            timer: 0,
            timer_value: 0,
            length_counter: 0,
            halt: false,
            volume: 0,
            constant_volume: false,
            envelope_start: false,
            envelope_divider: 0,
            envelope_decay: 0,
            sweep_enabled: false,
            sweep_period: 0,
            sweep_shift: 0,
            sweep_negate: false,
            sweep_reload: false,
            sweep_counter: 0,
        }
    }

    /// Write to the duty/volume register.
    pub fn write_duty(&mut self, value: u8)
        ensures
            final(self)@ == pulse_write_duty_spec(old(self)@, value),
    {
        self.duty_cycle = value / 64;
        self.halt = (value / 32) % 2 == 1;
        self.constant_volume = (value / 16) % 2 == 1;
        self.volume = value % 16;
    }

    /// Write to the sweep register.
    pub fn write_sweep(&mut self, value: u8)
        ensures
            final(self)@ == pulse_write_sweep_spec(old(self)@, value),
    {
        self.sweep_enabled = (value / 128) % 2 == 1;
        self.sweep_period = (value / 16) % 8;
        self.sweep_negate = (value / 8) % 2 == 1;
        self.sweep_shift = value % 8;
        self.sweep_reload = true;
    }

    /// Write to the timer-low register.
    pub fn write_timer_low(&mut self, value: u8)
        ensures
            final(self)@ == pulse_write_timer_low_spec(old(self)@, value),
    {
        self.timer = (self.timer / 256) * 256 + value as u16;
    }

    /// Write to the timer-high register, loading the length counter from the
    /// table and restarting the duty sequence and the envelope.
    pub fn write_timer_high(&mut self, value: u8)
        ensures
            final(self)@ == pulse_write_timer_high_spec(old(self)@, value),
    {
        self.timer = self.timer % 256 + (value % 8) as u16 * 256;
        self.length_counter = length_table_lookup(value / 8);
        self.duty_step = 0;
        self.envelope_start = true;
    }

    /// Sets the channel's enable flag (status-register bit).
    pub fn set_enabled(&mut self, on: bool)
        ensures
            final(self)@ == (PulseView { enabled: on, ..old(self)@ }),
    {
        self.enabled = on;
    }

    /// One timer tick, exactly as [`pulse_tick_spec`] states. The level is
    /// 0..=15 and is 0 whenever the channel is disabled or its length
    /// counter has reached 0.
    pub fn tick(&mut self) -> (level: u8)
        requires
            old(self)@.wf(),
        ensures
            (final(self)@, level) == pulse_tick_spec(old(self)@),
            final(self)@.wf(),
            level <= 15,
            !old(self).enabled || old(self).length_counter == 0 ==> level == 0,
    {
        if !self.enabled || self.length_counter == 0 {
            return 0;
        }
        self.timer_value = self.timer_value.wrapping_sub(1);
        if self.timer_value == 0 {
            self.timer_value = self.timer;
            self.duty_step = (self.duty_step + 1) % 8;
        }
        let d: u8 = match self.duty_cycle {
            0 => if self.duty_step == 1 { 1 } else { 0 },
            1 => if self.duty_step == 1 || self.duty_step == 2 { 1 } else { 0 },
            2 => if 1 <= self.duty_step && self.duty_step <= 4 { 1 } else { 0 },
            _ => if self.duty_step == 0 || self.duty_step >= 3 { 1 } else { 0 },
        };
        let vol: u8 = if self.constant_volume { self.volume } else { self.envelope_decay };
        d * vol
    }

    /// A quarter-frame event, exactly as [`pulse_quarter_spec`] states.
    pub fn quarter_frame(&mut self)
        requires
            old(self)@.wf(),
        ensures
            final(self)@ == pulse_quarter_spec(old(self)@),
            final(self)@.wf(),
    {
        if self.envelope_start {
            self.envelope_start = false;
            self.envelope_decay = 15;
            self.envelope_divider = self.volume;
        } else if self.envelope_divider > 0 {
            self.envelope_divider = self.envelope_divider - 1;
        } else if self.envelope_decay > 0 {
            self.envelope_divider = self.volume;
            self.envelope_decay = self.envelope_decay - 1;
        } else if self.halt {
            self.envelope_divider = self.volume;
            self.envelope_decay = 15;
        } else {
            self.envelope_divider = self.volume;
        }
        if self.sweep_reload {
            self.sweep_counter = self.sweep_period;
            self.sweep_reload = false;
        } else if self.sweep_counter > 0 {
            self.sweep_counter = self.sweep_counter - 1;
        } else if self.sweep_enabled && self.sweep_shift > 0 {
            let change = self.timer >> self.sweep_shift;
            self.sweep_counter = self.sweep_period;
            if self.sweep_negate {
                self.timer = self.timer.wrapping_sub(change);
            } else {
                self.timer = self.timer.wrapping_add(change);
            }
        } else {
            self.sweep_counter = self.sweep_period;
        }
    }

    /// A half-frame event, exactly as [`pulse_half_spec`] states.
    pub fn half_frame(&mut self)
        ensures
            final(self)@ == pulse_half_spec(old(self)@),
    {
        if self.length_counter > 0 && !self.halt {
            self.length_counter = self.length_counter - 1;
        }
    }
}

/// Mathematical state of the triangle channel.
#[verifier::ext_equal]
pub ghost struct TriangleView {
    pub enabled: bool,
    pub timer: u16,
    pub timer_value: u16,
    pub length_counter: u8,
    pub linear_counter: u8,
    pub linear_counter_reload: u8,
    pub linear_reload_flag: bool,
    pub control: bool,
    pub triangle_step: u8,
}

impl TriangleView {
    /// Field ranges every reachable triangle state satisfies.
    pub open spec fn wf(self) -> bool {
        &&& self.triangle_step < 32
        &&& self.linear_counter_reload < 128
    }
}

/// Effect of a write to the linear-counter register: the control flag (which
/// also halts the length counter) and the 7-bit reload value.
pub open spec fn triangle_write_linear_spec(t: TriangleView, value: u8) -> TriangleView {
    TriangleView {
        control: (value / 128) % 2 == 1,
        linear_counter_reload: (value % 128) as u8,
        ..t
    }
}

/// Effect of a write to the triangle timer-low register.
pub open spec fn triangle_write_timer_low_spec(t: TriangleView, value: u8) -> TriangleView {
    TriangleView { timer: ((t.timer / 256) * 256 + value) as u16, ..t }
}

/// Effect of a write to the triangle timer-high register: high timer bits,
/// table-defined length-counter load, and the linear-counter reload flag.
pub open spec fn triangle_write_timer_high_spec(t: TriangleView, value: u8) -> TriangleView {
    TriangleView {
        timer: (t.timer % 256 + (value % 8) * 256) as u16,
        length_counter: length_table((value / 8) as u8),
        linear_reload_flag: true,
        ..t
    }
}

/// One timer tick of the triangle channel: silent when disabled or either
/// counter is exhausted; otherwise the timer counts down and on expiry
/// advances the 32-step waveform; the level is the waveform value.
pub open spec fn triangle_tick_spec(t: TriangleView) -> (TriangleView, u8) {
    if !t.enabled || t.length_counter == 0 || t.linear_counter == 0 {
        (t, 0)
    } else {
        let tv = t.timer_value.wrapping_sub(1);
        let t2 = if tv == 0 {
            TriangleView { timer_value: t.timer, triangle_step: ((t.triangle_step + 1) % 32) as u8, ..t }
        } else {
            TriangleView { timer_value: tv, ..t }
        };
        ((t2), triangle_wave(t2.triangle_step))
    }
}

/// A quarter-frame event: the linear counter reloads or counts down; the
/// reload flag is cleared when the control flag is low.
pub open spec fn triangle_quarter_spec(t: TriangleView) -> TriangleView {
    let t1 = if t.linear_reload_flag {
        TriangleView { linear_counter: t.linear_counter_reload, ..t }
    } else if t.linear_counter > 0 {
        TriangleView { linear_counter: (t.linear_counter - 1) as u8, ..t }
    } else {
        t
    };
    if !t1.control {
        TriangleView { linear_reload_flag: false, ..t1 }
    } else {
        t1
    }
}

/// A half-frame event: the length counter counts down unless halted by the
/// control flag.
pub open spec fn triangle_half_spec(t: TriangleView) -> TriangleView {
    if t.length_counter > 0 && !t.control {
        TriangleView { length_counter: (t.length_counter - 1) as u8, ..t }
    } else {
        t
    }
}

/// The triangle channel's power-on state.
pub open spec fn triangle_poweron() -> TriangleView {
    TriangleView {
        enabled: false,
        timer: 0,
        timer_value: 0,
        length_counter: 0,
        linear_counter: 0,
        linear_counter_reload: 0,
        linear_reload_flag: false,
        control: false,
        triangle_step: 0,
    }
}

/// The triangle wave channel: a 32-step waveform gated by both a length
/// counter and a linear counter.
#[derive(Clone, Copy)]
pub struct TriangleChannel {
    pub enabled: bool,
    pub timer: u16,
    pub timer_value: u16,
    pub length_counter: u8,
    pub linear_counter: u8,
    pub linear_counter_reload: u8,
    pub linear_reload_flag: bool,
    pub control: bool,
    pub triangle_step: u8,
}

impl View for TriangleChannel {
    type V = TriangleView;

    open spec fn view(&self) -> TriangleView {
        TriangleView {
            enabled: self.enabled,
            timer: self.timer,
            timer_value: self.timer_value,
            length_counter: self.length_counter,
            linear_counter: self.linear_counter,
            linear_counter_reload: self.linear_counter_reload,
            linear_reload_flag: self.linear_reload_flag,
            control: self.control,
            triangle_step: self.triangle_step,
        }
    }
}

impl TriangleChannel {
    /// A silent triangle channel at power-on.
    pub fn new() -> (t: TriangleChannel)
        ensures
            t@ == triangle_poweron(),
            t@.wf(),
    {
        TriangleChannel {
            enabled: false,
            timer: 0,
            timer_value: 0,
            length_counter: 0,
            linear_counter: 0,
            linear_counter_reload: 0,
            linear_reload_flag: false,
            control: false,
            triangle_step: 0,
        }
    }

    /// Write to the linear-counter register.
    pub fn write_linear(&mut self, value: u8)
        ensures
            final(self)@ == triangle_write_linear_spec(old(self)@, value),
            old(self)@.wf() ==> final(self)@.wf(),
    {
        self.control = (value / 128) % 2 == 1;
        self.linear_counter_reload = value % 128;
    }

    /// Write to the timer-low register.
    pub fn write_timer_low(&mut self, value: u8)
        ensures
            final(self)@ == triangle_write_timer_low_spec(old(self)@, value),
    {
        self.timer = (self.timer / 256) * 256 + value as u16;
    }

    /// Write to the timer-high register.
    pub fn write_timer_high(&mut self, value: u8)
        ensures
            final(self)@ == triangle_write_timer_high_spec(old(self)@, value),
    {
        self.timer = self.timer % 256 + (value % 8) as u16 * 256;
        self.length_counter = length_table_lookup(value / 8);
        self.linear_reload_flag = true;
    }

    /// Sets the channel's enable flag (status-register bit).
    pub fn set_enabled(&mut self, on: bool)
        ensures
            final(self)@ == (TriangleView { enabled: on, ..old(self)@ }),
    {
        self.enabled = on;
    }

    /// One timer tick, exactly as [`triangle_tick_spec`] states.
    pub fn tick(&mut self) -> (level: u8)
        requires
            old(self)@.wf(),
        ensures
            (final(self)@, level) == triangle_tick_spec(old(self)@),
            final(self)@.wf(),
            level <= 15,
    {
        if !self.enabled || self.length_counter == 0 || self.linear_counter == 0 {
            return 0;
        }
        self.timer_value = self.timer_value.wrapping_sub(1);
        if self.timer_value == 0 {
            self.timer_value = self.timer;
            self.triangle_step = (self.triangle_step + 1) % 32;
        }
        if self.triangle_step < 16 {
            15 - self.triangle_step
        } else {
            self.triangle_step - 16
        }
    }

    /// A quarter-frame event, exactly as [`triangle_quarter_spec`] states.
    pub fn quarter_frame(&mut self)
        requires
            old(self)@.wf(),
        ensures
            final(self)@ == triangle_quarter_spec(old(self)@),
            final(self)@.wf(),
    {
        if self.linear_reload_flag {
            self.linear_counter = self.linear_counter_reload;
        } else if self.linear_counter > 0 {
            self.linear_counter = self.linear_counter - 1;
        }
        if !self.control {
            self.linear_reload_flag = false;
        }
    }

    /// A half-frame event, exactly as [`triangle_half_spec`] states.
    pub fn half_frame(&mut self)
        ensures
            final(self)@ == triangle_half_spec(old(self)@),
    {
        if self.length_counter > 0 && !self.control {
            self.length_counter = self.length_counter - 1;
        }
    }
}

/// Mathematical state of the noise channel.
#[verifier::ext_equal]
pub ghost struct NoiseView {
    pub enabled: bool,
    pub timer: u16,
    pub timer_value: u16,
    pub length_counter: u8,
    pub halt: bool,
    pub volume: u8,
    pub constant_volume: bool,
    pub envelope_start: bool,
    pub envelope_divider: u8,
    pub envelope_decay: u8,
    pub shift_register: u16,
    pub mode: bool,
}

impl NoiseView {
    /// Field ranges every reachable noise state satisfies. The 15-bit shift
    /// register never reads 0, or the feedback would lock it there.
    pub open spec fn wf(self) -> bool {
        &&& self.volume < 16
        &&& self.envelope_decay < 16
        &&& self.shift_register < 0x8000
    }
}

/// Effect of a write to the noise volume register.
pub open spec fn noise_write_volume_spec(n: NoiseView, value: u8) -> NoiseView {
    NoiseView {
        halt: (value / 32) % 2 == 1,
        constant_volume: (value / 16) % 2 == 1,
        volume: (value % 16) as u8,
        ..n
    }
}

/// Effect of a write to the noise period register: the mode bit and a timer
/// period from the fixed 16-entry table.
pub open spec fn noise_write_period_spec(n: NoiseView, value: u8) -> NoiseView {
    NoiseView {
        mode: (value / 128) % 2 == 1,
        timer: noise_period((value % 16) as u8),
        ..n
    }
}

/// Effect of a write to the noise length register: table-defined
/// length-counter load and an envelope restart.
pub open spec fn noise_write_length_spec(n: NoiseView, value: u8) -> NoiseView {
    NoiseView {
        length_counter: length_table((value / 8) as u8),
        envelope_start: true,
        ..n
    }
}

/// One timer tick of the noise channel: on timer expiry the 15-bit linear
/// feedback shift register advances, with the feedback tap at bit 6 in mode
/// 1 and bit 1 in mode 0; the level is the low register bit times the
/// current volume.
pub open spec fn noise_tick_spec(n: NoiseView) -> (NoiseView, u8) {
    if !n.enabled || n.length_counter == 0 {
        (n, 0)
    } else {
        let tv = n.timer_value.wrapping_sub(1);
        let n2 = if tv == 0 {
            let tap: u16 = if n.mode { (n.shift_register / 64) % 2 } else { (n.shift_register / 2) % 2 };
            let feedback = tap != n.shift_register % 2;
            NoiseView {
                timer_value: n.timer,
                shift_register: if feedback {
                    (n.shift_register / 2 + 0x4000) as u16
                } else {
                    (n.shift_register / 2) as u16
                },
                ..n
            }
        } else {
            NoiseView { timer_value: tv, ..n }
        };
        let vol: u8 = if n2.constant_volume { n2.volume } else { n2.envelope_decay };
        ((n2), if n2.shift_register % 2 == 1 { vol } else { 0 })
    }
}

/// A quarter-frame event: the envelope is clocked.
pub open spec fn noise_quarter_spec(n: NoiseView) -> NoiseView {
    if n.envelope_start {
        NoiseView { envelope_start: false, envelope_decay: 15, envelope_divider: n.volume, ..n }
    } else if n.envelope_divider > 0 {
        NoiseView { envelope_divider: (n.envelope_divider - 1) as u8, ..n }
    } else if n.envelope_decay > 0 {
        NoiseView { envelope_divider: n.volume, envelope_decay: (n.envelope_decay - 1) as u8, ..n }
    } else if n.halt {
        NoiseView { envelope_divider: n.volume, envelope_decay: 15, ..n }
    } else {
        NoiseView { envelope_divider: n.volume, ..n }
    }
}

/// A half-frame event: the length counter counts down unless halted.
pub open spec fn noise_half_spec(n: NoiseView) -> NoiseView {
    if n.length_counter > 0 && !n.halt {
        NoiseView { length_counter: (n.length_counter - 1) as u8, ..n }
    } else {
        n
    }
}

/// The noise channel's power-on state.
pub open spec fn noise_poweron() -> NoiseView {
    NoiseView {
        enabled: false,
        timer: 0,
        timer_value: 0,
        length_counter: 0,
        halt: false,
        volume: 0,
        constant_volume: false,
        envelope_start: false,
        envelope_divider: 0,
        envelope_decay: 0,
        shift_register: 1,
        mode: false,
    }
}

/// The noise channel: a linear-feedback shift register gated by an envelope
/// and a length counter.
#[derive(Clone, Copy)]
pub struct NoiseChannel {
    pub enabled: bool,
    pub timer: u16,
    pub timer_value: u16,
    pub length_counter: u8,
    pub halt: bool,
    pub volume: u8,
    pub constant_volume: bool,
    pub envelope_start: bool,
    pub envelope_divider: u8,
    pub envelope_decay: u8,
    pub shift_register: u16,
    pub mode: bool,
}

impl View for NoiseChannel {
    type V = NoiseView;

    open spec fn view(&self) -> NoiseView {
        NoiseView {
            enabled: self.enabled,
            timer: self.timer,
            timer_value: self.timer_value,
            length_counter: self.length_counter,
            halt: self.halt,
            volume: self.volume,
            constant_volume: self.constant_volume,
            envelope_start: self.envelope_start,
            envelope_divider: self.envelope_divider,
            envelope_decay: self.envelope_decay,
            shift_register: self.shift_register,
            mode: self.mode,
        }
    }
}

impl NoiseChannel {
    /// A silent noise channel at power-on; the shift register starts at 1.
    pub fn new() -> (n: NoiseChannel)
        ensures
            n@ == noise_poweron(),
            n@.wf(),
    {
        NoiseChannel {
            enabled: false,
            timer: 0,
            timer_value: 0,
            length_counter: 0,
            halt: false,
            volume: 0,
            constant_volume: false,
            envelope_start: false,
            envelope_divider: 0,
            envelope_decay: 0,
            shift_register: 1,
            mode: false,
        }
    }

    /// Write to the volume register.
    pub fn write_volume(&mut self, value: u8)
        ensures
            final(self)@ == noise_write_volume_spec(old(self)@, value),
    {
        self.halt = (value / 32) % 2 == 1;
        self.constant_volume = (value / 16) % 2 == 1;
        self.volume = value % 16;
    }

    /// Write to the period register.
    pub fn write_period(&mut self, value: u8)
        ensures
            final(self)@ == noise_write_period_spec(old(self)@, value),
    {
        proof {
            reveal(noise_period);
        }
        self.mode = (value / 128) % 2 == 1;
        let idx = value % 16;
        self.timer = match idx {
            0 => 4, 1 => 8, 2 => 16, 3 => 32,
            4 => 64, 5 => 96, 6 => 128, 7 => 160,
            8 => 202, 9 => 254, 10 => 380, 11 => 508,
            12 => 762, 13 => 1016, 14 => 2034, _ => 4068,
        };
    }

    /// Write to the length register.
    pub fn write_length(&mut self, value: u8)
        ensures
            final(self)@ == noise_write_length_spec(old(self)@, value),
    {
        self.length_counter = length_table_lookup(value / 8);
        self.envelope_start = true;
    }

    /// Sets the channel's enable flag (status-register bit).
    pub fn set_enabled(&mut self, on: bool)
        ensures
            final(self)@ == (NoiseView { enabled: on, ..old(self)@ }),
    {
        self.enabled = on;
    }

    /// One timer tick, exactly as [`noise_tick_spec`] states.
    pub fn tick(&mut self) -> (level: u8)
        requires
            old(self)@.wf(),
        ensures
            (final(self)@, level) == noise_tick_spec(old(self)@),
            final(self)@.wf(),
            level <= 15,
    {
        if !self.enabled || self.length_counter == 0 {
            return 0;
        }
        self.timer_value = self.timer_value.wrapping_sub(1);
        if self.timer_value == 0 {
            self.timer_value = self.timer;
            let tap: u16 = if self.mode {
                (self.shift_register / 64) % 2
            } else {
                (self.shift_register / 2) % 2
            };
            let feedback = tap != self.shift_register % 2;
            self.shift_register = self.shift_register / 2;
            if feedback {
                self.shift_register = self.shift_register + 0x4000;
            }
        }
        let vol: u8 = if self.constant_volume { self.volume } else { self.envelope_decay };
        if self.shift_register % 2 == 1 { vol } else { 0 }
    }

    /// A quarter-frame event, exactly as [`noise_quarter_spec`] states.
    pub fn quarter_frame(&mut self)
        requires
            old(self)@.wf(),
        ensures
            final(self)@ == noise_quarter_spec(old(self)@),
            final(self)@.wf(),
    {
        if self.envelope_start {
            self.envelope_start = false;
            self.envelope_decay = 15;
            self.envelope_divider = self.volume;
        } else if self.envelope_divider > 0 {
            self.envelope_divider = self.envelope_divider - 1;
        } else if self.envelope_decay > 0 {
            self.envelope_divider = self.volume;
            self.envelope_decay = self.envelope_decay - 1;
        } else if self.halt {
            self.envelope_divider = self.volume;
            self.envelope_decay = 15;
        } else {
            self.envelope_divider = self.volume;
        }
    }

    /// A half-frame event, exactly as [`noise_half_spec`] states.
    pub fn half_frame(&mut self)
        ensures
            final(self)@ == noise_half_spec(old(self)@),
    {
        if self.length_counter > 0 && !self.halt {
            self.length_counter = self.length_counter - 1;
        }
    }
}

/// Mathematical state of the delta-modulation channel.
#[verifier::ext_equal]
pub ghost struct DmcView {
    pub enabled: bool,
    pub timer: u16,
    pub timer_value: u16,
    pub sample_buffer: u8,
    pub sample_buffer_empty: bool,
    pub shift_register: u8,
    pub bits_remaining: u8,
    pub sample_address: u16,
    pub sample_length: u16,
    pub current_address: u16,
    pub bytes_remaining: u16,
    pub loop_flag: bool,
    pub irq_enabled: bool,
    pub output_level: u8,
}

impl DmcView {
    /// Field ranges every reachable delta-channel state satisfies.
    pub open spec fn wf(self) -> bool {
        self.output_level < 128
    }
}

/// Effect of a write to the frequency register: interrupt enable, loop flag
/// and a timer rate from the fixed 16-entry table.
pub open spec fn dmc_write_freq_spec(d: DmcView, value: u8) -> DmcView {
    DmcView {
        irq_enabled: (value / 128) % 2 == 1,
        loop_flag: (value / 64) % 2 == 1,
        timer: dmc_rate((value % 16) as u8),
        ..d
    }
}

/// Effect of a write to the raw output-level register (7 bits).
pub open spec fn dmc_write_raw_spec(d: DmcView, value: u8) -> DmcView {
    DmcView { output_level: (value % 128) as u8, ..d }
}

/// Effect of a write to the sample-start register: the sample address is
/// 0xC000 plus 64 times the value.
pub open spec fn dmc_write_start_spec(d: DmcView, value: u8) -> DmcView {
    DmcView { sample_address: (0xC000 + value * 64) as u16, ..d }
}

/// Effect of a write to the sample-length register: 16 times the value,
/// plus one.
pub open spec fn dmc_write_length_spec(d: DmcView, value: u8) -> DmcView {
    DmcView { sample_length: (value * 16 + 1) as u16, ..d }
}

/// One timer tick of the delta channel: on timer expiry the shifter takes a
/// fresh buffered sample byte when exhausted (stalling silent at an empty
/// buffer), then moves the output level by 2 per bit, clamped to 0..=127.
pub open spec fn dmc_tick_spec(d: DmcView) -> (DmcView, u8) {
    if !d.enabled {
        (d, 0)
    } else {
        let tv = d.timer_value.wrapping_sub(1);
        if tv != 0 {
            ((DmcView { timer_value: tv, ..d }), d.output_level)
        } else {
            let d1 = DmcView { timer_value: d.timer, ..d };
            if d1.bits_remaining == 0 && d1.sample_buffer_empty {
                (d1, 0)
            } else {
                let d2 = if d1.bits_remaining == 0 {
                    DmcView {
                        shift_register: d1.sample_buffer,
                        bits_remaining: 8,
                        sample_buffer_empty: true,
                        ..d1
                    }
                } else {
                    d1
                };
                let bit = d2.shift_register % 2 == 1;
                let d3 = DmcView {
                    shift_register: (d2.shift_register / 2) as u8,
                    bits_remaining: (d2.bits_remaining - 1) as u8,
                    output_level: if bit && d2.output_level < 126 {
                        (d2.output_level + 2) as u8
                    } else if !bit && d2.output_level > 1 {
                        (d2.output_level - 2) as u8
                    } else {
                        d2.output_level
                    },
                    ..d2
                };
                ((d3), d3.output_level)
            }
        }
    }
}

/// The delta channel's power-on state.
pub open spec fn dmc_poweron() -> DmcView {
    DmcView {
        enabled: false,
        timer: 0,
        timer_value: 0,
        sample_buffer: 0,
        sample_buffer_empty: true,
        shift_register: 0,
        bits_remaining: 0,
        sample_address: 0,
        sample_length: 0,
        current_address: 0,
        bytes_remaining: 0,
        loop_flag: false,
        irq_enabled: false,
        output_level: 0,
    }
}

/// The delta-modulation channel: plays raw sample bytes fed into its buffer
/// by the memory-fetch path, moving its 7-bit output level by 2 per bit.
#[derive(Clone, Copy)]
pub struct DMCChannel {
    pub enabled: bool,
    pub timer: u16,
    pub timer_value: u16,
    pub sample_buffer: u8,
    pub sample_buffer_empty: bool,
    pub shift_register: u8,
    pub bits_remaining: u8,
    pub sample_address: u16,
    pub sample_length: u16,
    pub current_address: u16,
    pub bytes_remaining: u16,
    pub loop_flag: bool,
    pub irq_enabled: bool,
    pub output_level: u8,
}

impl View for DMCChannel {
    type V = DmcView;

    open spec fn view(&self) -> DmcView {
        DmcView {
            enabled: self.enabled,
            timer: self.timer,
            timer_value: self.timer_value,
            sample_buffer: self.sample_buffer,
            sample_buffer_empty: self.sample_buffer_empty,
            shift_register: self.shift_register,
            bits_remaining: self.bits_remaining,
            sample_address: self.sample_address,
            sample_length: self.sample_length,
            current_address: self.current_address,
            bytes_remaining: self.bytes_remaining,
            loop_flag: self.loop_flag,
            irq_enabled: self.irq_enabled,
            output_level: self.output_level,
        }
    }
}

impl DMCChannel {
    /// A silent delta channel at power-on, its sample buffer empty.
    pub fn new() -> (d: DMCChannel)
        ensures
            d@ == dmc_poweron(),
            d@.wf(),
    {
        DMCChannel {
            enabled: false,
            timer: 0,
            timer_value: 0,
            sample_buffer: 0,
            sample_buffer_empty: true,
            shift_register: 0,
            bits_remaining: 0,
            sample_address: 0,
            sample_length: 0,
            current_address: 0,
            bytes_remaining: 0,
            loop_flag: false,
            irq_enabled: false,
            output_level: 0,
        }
    }

    /// Write to the frequency register.
    pub fn write_freq(&mut self, value: u8)
        ensures
            final(self)@ == dmc_write_freq_spec(old(self)@, value),
    {
        proof {
            reveal(dmc_rate);
        }
        self.irq_enabled = (value / 128) % 2 == 1;
        self.loop_flag = (value / 64) % 2 == 1;
        let idx = value % 16;
        self.timer = match idx {
            0 => 428, 1 => 380, 2 => 340, 3 => 320,
            4 => 286, 5 => 254, 6 => 226, 7 => 214,
            8 => 190, 9 => 160, 10 => 142, 11 => 128,
            12 => 106, 13 => 84, 14 => 72, _ => 54,
        };
    }

    /// Write to the raw output-level register.
    pub fn write_raw(&mut self, value: u8)
        ensures
            final(self)@ == dmc_write_raw_spec(old(self)@, value),
            final(self)@.wf(),
    {
        self.output_level = value % 128;
    }

    /// Write to the sample-start register.
    pub fn write_start(&mut self, value: u8)
        ensures
            final(self)@ == dmc_write_start_spec(old(self)@, value),
    {
        self.sample_address = 0xC000 + value as u16 * 64;
    }

    /// Write to the sample-length register.
    pub fn write_length(&mut self, value: u8)
        ensures
            final(self)@ == dmc_write_length_spec(old(self)@, value),
    {
        self.sample_length = value as u16 * 16 + 1;
    }

    /// Sets the channel's enable flag (status-register bit).
    pub fn set_enabled(&mut self, on: bool)
        ensures
            final(self)@ == (DmcView { enabled: on, ..old(self)@ }),
    {
        self.enabled = on;
    }

    /// Hands the channel one raw sample byte from the memory-fetch path,
    /// filling the buffer.
    pub fn load_sample(&mut self, byte: u8)
        ensures
            final(self)@ == (DmcView {
                sample_buffer: byte,
                sample_buffer_empty: false,
                ..old(self)@
            }),
    {
        self.sample_buffer = byte;
        self.sample_buffer_empty = false;
    }

    /// Whether the sample buffer wants a fresh byte.
    pub fn buffer_empty(&self) -> (r: bool)
        ensures
            r == self@.sample_buffer_empty,
    {
        self.sample_buffer_empty
    }

    /// One timer tick, exactly as [`dmc_tick_spec`] states.
    pub fn tick(&mut self) -> (level: u8)
        requires
            old(self)@.wf(),
        ensures
            (final(self)@, level) == dmc_tick_spec(old(self)@),
            final(self)@.wf(),
            level <= 127,
    {
        if !self.enabled {
            return 0;
        }
        self.timer_value = self.timer_value.wrapping_sub(1);
        if self.timer_value != 0 {
            return self.output_level;
        }
        self.timer_value = self.timer;
        if self.bits_remaining == 0 {
            if self.sample_buffer_empty {
                return 0;
            }
            self.shift_register = self.sample_buffer;
            self.bits_remaining = 8;
            self.sample_buffer_empty = true;
        }
        let bit = self.shift_register % 2 == 1;
        self.shift_register = self.shift_register / 2;
        self.bits_remaining = self.bits_remaining - 1;
        if bit && self.output_level < 126 {
            self.output_level = self.output_level + 2;
        } else if !bit && self.output_level > 1 {
            self.output_level = self.output_level - 2;
        }
        self.output_level
    }
}

/// The five channel levels one tick produced. The embedding program weighs
/// and mixes them into one audio sample.
#[derive(Clone, Copy, PartialEq, Eq, Structural, Debug)]
pub struct ChannelOutput {
    pub pulse1: u8,
    pub pulse2: u8,
    pub triangle: u8,
    pub noise: u8,
    pub dmc: u8,
}

/// Mathematical state of the whole audio unit.
#[verifier::ext_equal]
pub ghost struct ApuView {
    pub pulse1: PulseView,
    pub pulse2: PulseView,
    pub triangle: TriangleView,
    pub noise: NoiseView,
    pub dmc: DmcView,
    /// CPU cycles into the current frame-sequencer period.
    pub frame_counter: u16,
    /// False selects the 4-step sequence, true the 5-step sequence.
    pub frame_counter_mode: bool,
    pub irq_inhibit: bool,
    pub frame_irq: bool,
}

/// The CPU-cycle offsets of the frame sequencer's steps.
pub const QUARTER_1: u16 = 7457;

pub const QUARTER_2: u16 = 14913;

pub const QUARTER_3: u16 = 22371;

pub const QUARTER_4: u16 = 29829;

pub const QUARTER_5: u16 = 37281;

impl ApuView {
    /// Field ranges every reachable audio-unit state satisfies.
    pub open spec fn wf(self) -> bool {
        &&& self.pulse1.wf()
        &&& self.pulse2.wf()
        &&& self.triangle.wf()
        &&& self.noise.wf()
        &&& self.dmc.wf()
        &&& self.frame_counter <= QUARTER_5
    }

    /// Whether a quarter-frame event fires at this sequencer position.
    pub open spec fn quarter_due(self) -> bool {
        self.frame_counter == QUARTER_1 || self.frame_counter == QUARTER_2
            || self.frame_counter == QUARTER_3 || (if self.frame_counter_mode {
            self.frame_counter == QUARTER_5
        } else {
            self.frame_counter == QUARTER_4
        })
    }

    /// Whether a half-frame event fires at this sequencer position.
    pub open spec fn half_due(self) -> bool {
        self.frame_counter == QUARTER_2 || (if self.frame_counter_mode {
            self.frame_counter == QUARTER_5
        } else {
            self.frame_counter == QUARTER_4
        })
    }
}

/// A quarter-frame event clocks the envelopes and the triangle's linear
/// counter (the sweep units ride along with the pulse channels' event).
pub open spec fn apu_quarter_spec(a: ApuView) -> ApuView {
    ApuView {
        pulse1: pulse_quarter_spec(a.pulse1),
        pulse2: pulse_quarter_spec(a.pulse2),
        triangle: triangle_quarter_spec(a.triangle),
        noise: noise_quarter_spec(a.noise),
        ..a
    }
}

/// A half-frame event clocks the length counters.
pub open spec fn apu_half_spec(a: ApuView) -> ApuView {
    ApuView {
        pulse1: pulse_half_spec(a.pulse1),
        pulse2: pulse_half_spec(a.pulse2),
        triangle: triangle_half_spec(a.triangle),
        noise: noise_half_spec(a.noise),
        ..a
    }
}

/// The first half of an audio-unit cycle: every channel ticks and the frame
/// counter advances by one.
#[verifier::opaque]
pub open spec fn apu_channels_tick_spec(a: ApuView) -> (ApuView, ChannelOutput) {
    let (p1, o1) = pulse_tick_spec(a.pulse1);
    let (p2, o2) = pulse_tick_spec(a.pulse2);
    let (tr, o3) = triangle_tick_spec(a.triangle);
    let (no, o4) = noise_tick_spec(a.noise);
    let (dm, o5) = dmc_tick_spec(a.dmc);
    let a1 = ApuView {
        pulse1: p1,
        pulse2: p2,
        triangle: tr,
        noise: no,
        dmc: dm,
        frame_counter: (a.frame_counter + 1) as u16,
        ..a
    };
    ((a1), ChannelOutput { pulse1: o1, pulse2: o2, triangle: o3, noise: o4, dmc: o5 })
}

/// The second half of an audio-unit cycle: the frame sequencer fires the
/// quarter-frame and half-frame events due at this position, raises the
/// frame interrupt at the 4-step sequence's last step unless inhibited, and
/// wraps at the end of the period.
#[verifier::opaque]
pub open spec fn apu_frame_seq_spec(a1: ApuView) -> ApuView {
    let a2 = if a1.quarter_due() {
        apu_quarter_spec(a1)
    } else {
        a1
    };
    let a3 = if a2.half_due() {
        apu_half_spec(a2)
    } else {
        a2
    };
    let a4 = if !a3.frame_counter_mode && a3.frame_counter == QUARTER_4 && !a3.irq_inhibit {
        ApuView { frame_irq: true, ..a3 }
    } else {
        a3
    };
    let period: u16 = if a4.frame_counter_mode { (QUARTER_5 + 1) as u16 } else {
        (QUARTER_4 + 1) as u16
    };
    if a4.frame_counter >= period {
        ApuView { frame_counter: 0, ..a4 }
    } else {
        a4
    }
}

/// One CPU cycle of the audio unit: every channel ticks, then the frame
/// sequencer advances, firing quarter-frame and half-frame events at the
/// fixed offsets of the selected 4- or 5-step sequence, raising the frame
/// interrupt at the 4-step sequence's last step unless inhibited, and
/// wrapping at the end of the period.
pub open spec fn apu_tick_spec(a: ApuView) -> (ApuView, ChannelOutput) {
    let (a1, out) = apu_channels_tick_spec(a);
    ((apu_frame_seq_spec(a1)), out)
}

/// Effect of a CPU write to an audio register (0x4000..=0x4017): routed to
/// the owning channel, the enable byte, or the frame-counter control.
#[verifier::opaque]
pub open spec fn apu_write_spec(a: ApuView, addr: u16, value: u8) -> ApuView {
    if addr == 0x4000 {
        ApuView { pulse1: pulse_write_duty_spec(a.pulse1, value), ..a }
    } else if addr == 0x4001 {
        ApuView { pulse1: pulse_write_sweep_spec(a.pulse1, value), ..a }
    } else if addr == 0x4002 {
        ApuView { pulse1: pulse_write_timer_low_spec(a.pulse1, value), ..a }
    } else if addr == 0x4003 {
        ApuView { pulse1: pulse_write_timer_high_spec(a.pulse1, value), ..a }
    } else if addr == 0x4004 {
        ApuView { pulse2: pulse_write_duty_spec(a.pulse2, value), ..a }
    } else if addr == 0x4005 {
        ApuView { pulse2: pulse_write_sweep_spec(a.pulse2, value), ..a }
    } else if addr == 0x4006 {
        ApuView { pulse2: pulse_write_timer_low_spec(a.pulse2, value), ..a }
    } else if addr == 0x4007 {
        ApuView { pulse2: pulse_write_timer_high_spec(a.pulse2, value), ..a }
    } else if addr == 0x4008 {
        ApuView { triangle: triangle_write_linear_spec(a.triangle, value), ..a }
    } else if addr == 0x400A {
        ApuView { triangle: triangle_write_timer_low_spec(a.triangle, value), ..a }
    } else if addr == 0x400B {
        ApuView { triangle: triangle_write_timer_high_spec(a.triangle, value), ..a }
    } else if addr == 0x400C {
        ApuView { noise: noise_write_volume_spec(a.noise, value), ..a }
    } else if addr == 0x400E {
        ApuView { noise: noise_write_period_spec(a.noise, value), ..a }
    } else if addr == 0x400F {
        ApuView { noise: noise_write_length_spec(a.noise, value), ..a }
    } else if addr == 0x4010 {
        ApuView { dmc: dmc_write_freq_spec(a.dmc, value), ..a }
    } else if addr == 0x4011 {
        ApuView { dmc: dmc_write_raw_spec(a.dmc, value), ..a }
    } else if addr == 0x4012 {
        ApuView { dmc: dmc_write_start_spec(a.dmc, value), ..a }
    } else if addr == 0x4013 {
        ApuView { dmc: dmc_write_length_spec(a.dmc, value), ..a }
    } else if addr == 0x4015 {
        ApuView {
            pulse1: PulseView { enabled: value % 2 == 1, ..a.pulse1 },
            pulse2: PulseView { enabled: (value / 2) % 2 == 1, ..a.pulse2 },
            triangle: TriangleView { enabled: (value / 4) % 2 == 1, ..a.triangle },
            noise: NoiseView { enabled: (value / 8) % 2 == 1, ..a.noise },
            dmc: DmcView { enabled: (value / 16) % 2 == 1, ..a.dmc },
            ..a
        }
    } else if addr == 0x4017 {
        ApuView {
            frame_counter_mode: (value / 128) % 2 == 1,
            irq_inhibit: (value / 64) % 2 == 1,
            frame_counter: 0,
            ..a
        }
    } else {
        a
    }
}

/// A register write never drives the audio unit out of its well-formed
/// range.
pub proof fn lemma_apu_write_wf(a: ApuView, addr: u16, value: u8)
    requires
        a.wf(),
    ensures
        apu_write_spec(a, addr, value).wf(),
{
    reveal(apu_write_spec);
    reveal(length_table);
    reveal(noise_period);
    reveal(dmc_rate);
}

/// The status byte a read of 0x4015 returns: one bit per channel whose
/// length counter (bytes remaining, for the delta channel) is nonzero, and
/// bit 6 for a pending frame interrupt.
pub open spec fn apu_status_spec(a: ApuView) -> u8 {
    ((if a.pulse1.length_counter > 0 { 1u16 } else { 0u16 })
        + (if a.pulse2.length_counter > 0 { 2u16 } else { 0u16 })
        + (if a.triangle.length_counter > 0 { 4u16 } else { 0u16 })
        + (if a.noise.length_counter > 0 { 8u16 } else { 0u16 })
        + (if a.dmc.bytes_remaining > 0 { 16u16 } else { 0u16 })
        + (if a.frame_irq { 64u16 } else { 0u16 })) as u8
}

/// The audio unit's power-on state.
pub open spec fn apu_poweron() -> ApuView {
    ApuView {
        pulse1: pulse_poweron(),
        pulse2: pulse_poweron(),
        triangle: triangle_poweron(),
        noise: noise_poweron(),
        dmc: dmc_poweron(),
        frame_counter: 0,
        frame_counter_mode: false,
        irq_inhibit: false,
        frame_irq: false,
    }
}

/// The audio unit: five channels and the frame sequencer.
#[derive(Clone, Copy)]
pub struct APU {
    pub pulse1: PulseChannel,
    pub pulse2: PulseChannel,
    pub triangle: TriangleChannel,
    pub noise: NoiseChannel,
    pub dmc: DMCChannel,
    pub frame_counter: u16,
    pub frame_counter_mode: bool,
    pub irq_inhibit: bool,
    pub frame_irq: bool,
}

impl View for APU {
    type V = ApuView;

    open spec fn view(&self) -> ApuView {
        ApuView {
            pulse1: self.pulse1@,
            pulse2: self.pulse2@,
            triangle: self.triangle@,
            noise: self.noise@,
            dmc: self.dmc@,
            frame_counter: self.frame_counter,
            frame_counter_mode: self.frame_counter_mode,
            irq_inhibit: self.irq_inhibit,
            frame_irq: self.frame_irq,
        }
    }
}

impl APU {
    /// The audio unit at power-on: all channels silent and disabled, the
    /// 4-step sequence selected.
    pub fn new() -> (a: APU)
        ensures
            a@ == apu_poweron(),
            a@.wf(),
    {
        APU {
            pulse1: PulseChannel::new(),
            pulse2: PulseChannel::new(),
            triangle: TriangleChannel::new(),
            noise: NoiseChannel::new(),
            dmc: DMCChannel::new(),
            frame_counter: 0,
            frame_counter_mode: false,
            irq_inhibit: false,
            frame_irq: false,
        }
    }

    /// Pulse-channel registers (0x4000..=0x4007).
    #[verifier::rlimit(100)]
    #[verifier::spinoff_prover]
    fn write_pulse_register(&mut self, addr: u16, value: u8)
        requires
            0x4000 <= addr < 0x4008,
        ensures
            final(self)@ == apu_write_spec(old(self)@, addr, value),
    {
        if addr == 0x4000 {
            self.pulse1.write_duty(value);
        } else if addr == 0x4001 {
            self.pulse1.write_sweep(value);
        } else if addr == 0x4002 {
            self.pulse1.write_timer_low(value);
        } else if addr == 0x4003 {
            self.pulse1.write_timer_high(value);
        } else if addr == 0x4004 {
            self.pulse2.write_duty(value);
        } else if addr == 0x4005 {
            self.pulse2.write_sweep(value);
        } else if addr == 0x4006 {
            self.pulse2.write_timer_low(value);
        } else {
            self.pulse2.write_timer_high(value);
        }
        proof {
            reveal(apu_write_spec);
            assert(self@ == apu_write_spec(old(self)@, addr, value));
        }
    }

    /// Triangle, noise and delta-channel registers (0x4008..=0x4013).
    #[verifier::rlimit(100)]
    #[verifier::spinoff_prover]
    fn write_tnd_register(&mut self, addr: u16, value: u8)
        requires
            0x4008 <= addr < 0x4014,
        ensures
            final(self)@ == apu_write_spec(old(self)@, addr, value),
    {
        if addr == 0x4008 {
            self.triangle.write_linear(value);
        } else if addr == 0x400A {
            self.triangle.write_timer_low(value);
        } else if addr == 0x400B {
            self.triangle.write_timer_high(value);
        } else if addr == 0x400C {
            self.noise.write_volume(value);
        } else if addr == 0x400E {
            self.noise.write_period(value);
        } else if addr == 0x400F {
            self.noise.write_length(value);
        } else if addr == 0x4010 {
            self.dmc.write_freq(value);
        } else if addr == 0x4011 {
            self.dmc.write_raw(value);
        } else if addr == 0x4012 {
            self.dmc.write_start(value);
        } else if addr == 0x4013 {
            self.dmc.write_length(value);
        }
        proof {
            reveal(apu_write_spec);
            assert(self@ == apu_write_spec(old(self)@, addr, value));
        }
    }

    /// The enable byte, the frame-counter control, and every unmapped
    /// address (whose write is ignored).
    #[verifier::rlimit(100)]
    #[verifier::spinoff_prover]
    fn write_control_register(&mut self, addr: u16, value: u8)
        requires
            !(0x4000 <= addr < 0x4014),
        ensures
            final(self)@ == apu_write_spec(old(self)@, addr, value),
    {
        if addr == 0x4015 {
            self.pulse1.set_enabled(value % 2 == 1);
            self.pulse2.set_enabled((value / 2) % 2 == 1);
            self.triangle.set_enabled((value / 4) % 2 == 1);
            self.noise.set_enabled((value / 8) % 2 == 1);
            self.dmc.set_enabled((value / 16) % 2 == 1);
            proof {
                reveal(apu_write_spec);
                assert(self@ == apu_write_spec(old(self)@, addr, value));
            }
        } else if addr == 0x4017 {
            self.frame_counter_mode = (value / 128) % 2 == 1;
            self.irq_inhibit = (value / 64) % 2 == 1;
            self.frame_counter = 0;
            proof {
                reveal(apu_write_spec);
                assert(self@ == apu_write_spec(old(self)@, addr, value));
            }
        } else {
            proof {
                reveal(apu_write_spec);
                assert(self@ == apu_write_spec(old(self)@, addr, value));
            }
        }
    }

    /// CPU write to an audio register, exactly as [`apu_write_spec`] states
    /// ([`lemma_apu_write_wf`] adds that well-formedness is preserved).
    pub fn write_register(&mut self, addr: u16, value: u8)
        ensures
            final(self)@ == apu_write_spec(old(self)@, addr, value),
    {
        if 0x4000 <= addr && addr < 0x4008 {
            self.write_pulse_register(addr, value);
        } else if 0x4008 <= addr && addr < 0x4014 {
            self.write_tnd_register(addr, value);
        } else {
            self.write_control_register(addr, value);
        }
    }

    /// CPU read of an audio register. Only the status register reads back:
    /// it reports the channels' activity and clears the frame-interrupt
    /// flag; every other address reads 0.
    pub fn read_register(&mut self, addr: u16) -> (r: u8)
        ensures
            addr == 0x4015 ==> r == apu_status_spec(old(self)@) && final(self)@ == (ApuView {
                frame_irq: false,
                ..old(self)@
            }),
            addr != 0x4015 ==> r == 0 && final(self)@ == old(self)@,
    {
        if addr == 0x4015 {
            let mut status: u8 = 0;
            if self.pulse1.length_counter > 0 {
                status = status + 1;
            }
            if self.pulse2.length_counter > 0 {
                status = status + 2;
            }
            if self.triangle.length_counter > 0 {
                status = status + 4;
            }
            if self.noise.length_counter > 0 {
                status = status + 8;
            }
            if self.dmc.bytes_remaining > 0 {
                status = status + 16;
            }
            if self.frame_irq {
                status = status + 64;
            }
            self.frame_irq = false;
            status
        } else {
            0
        }
    }

    /// The channel half of a cycle: ticks the five channels and advances the
    /// frame counter.
    fn tick_channels(&mut self) -> (out: ChannelOutput)
        requires
            old(self)@.wf(),
        ensures
            (final(self)@, out) == apu_channels_tick_spec(old(self)@),
            final(self)@.pulse1.wf(),
            final(self)@.pulse2.wf(),
            final(self)@.triangle.wf(),
            final(self)@.noise.wf(),
            final(self)@.dmc.wf(),
            final(self)@.frame_counter == old(self)@.frame_counter + 1,
            final(self)@.frame_counter_mode == old(self)@.frame_counter_mode,
    {
        let ghost a0 = self@;
        let o1 = self.pulse1.tick();
        let o2 = self.pulse2.tick();
        let o3 = self.triangle.tick();
        let o4 = self.noise.tick();
        let o5 = self.dmc.tick();
        self.frame_counter = self.frame_counter + 1;
        proof {
            reveal(apu_channels_tick_spec);
            assert(self@ == apu_channels_tick_spec(a0).0);
        }
        ChannelOutput { pulse1: o1, pulse2: o2, triangle: o3, noise: o4, dmc: o5 }
    }

    /// The sequencer half of a cycle: fires the events due at the current
    /// frame-counter position and wraps the counter at the period's end.
    fn clock_frame_events(&mut self)
        requires
            old(self)@.pulse1.wf(),
            old(self)@.pulse2.wf(),
            old(self)@.triangle.wf(),
            old(self)@.noise.wf(),
            old(self)@.dmc.wf(),
            old(self)@.frame_counter <= QUARTER_5 + 1,
        ensures
            final(self)@ == apu_frame_seq_spec(old(self)@),
            final(self)@.wf(),
    {
        let ghost a1 = self@;
        let fourth: u16 = if self.frame_counter_mode { 37281 } else { 29829 };
        if self.frame_counter == 7457 || self.frame_counter == 14913 || self.frame_counter
            == 22371 || self.frame_counter == fourth {
            self.pulse1.quarter_frame();
            self.pulse2.quarter_frame();
            self.triangle.quarter_frame();
            self.noise.quarter_frame();
            proof { assert(self@ == apu_quarter_spec(a1)); }
        } else {
            proof { assert(!a1.quarter_due()); }
        }
        let ghost a2 = self@;
        proof {
            assert(a2 == if a1.quarter_due() { apu_quarter_spec(a1) } else { a1 });
        }
        if self.frame_counter == 14913 || self.frame_counter == fourth {
            self.pulse1.half_frame();
            self.pulse2.half_frame();
            self.triangle.half_frame();
            self.noise.half_frame();
            proof { assert(self@ == apu_half_spec(a2)); }
        } else {
            proof { assert(!a2.half_due()); }
        }
        let ghost a3 = self@;
        proof {
            assert(a3 == if a2.half_due() { apu_half_spec(a2) } else { a2 });
        }
        if !self.frame_counter_mode && self.frame_counter == 29829 && !self.irq_inhibit {
            self.frame_irq = true;
        }
        let ghost a4 = self@;
        proof {
            assert(a4 == if !a3.frame_counter_mode && a3.frame_counter == QUARTER_4
                && !a3.irq_inhibit { ApuView { frame_irq: true, ..a3 } } else { a3 });
        }
        let period: u16 = if self.frame_counter_mode { 37282 } else { 29830 };
        if self.frame_counter >= period {
            self.frame_counter = 0;
        }
        proof {
            assert(self@ == if a4.frame_counter >= (if a4.frame_counter_mode {
                (QUARTER_5 + 1) as u16
            } else {
                (QUARTER_4 + 1) as u16
            }) { ApuView { frame_counter: 0, ..a4 } } else { a4 });
            reveal(apu_frame_seq_spec);
            assert(self@ == apu_frame_seq_spec(a1));
        }
    }

    /// One CPU cycle of the audio unit, exactly as [`apu_tick_spec`] states.
    pub fn tick(&mut self) -> (out: ChannelOutput)
        requires
            old(self)@.wf(),
        ensures
            (final(self)@, out) == apu_tick_spec(old(self)@),
            final(self)@.wf(),
    {
        let out = self.tick_channels();
        self.clock_frame_events();
        out
    }
}

/// Law: a timer-high write loads the length counter with the table value
/// the 5 length-load bits select.
pub proof fn lemma_length_counter_load(p: PulseView, value: u8)
    ensures
        pulse_write_timer_high_spec(p, value).length_counter == length_table((value / 8) as u8),
{
}

/// Law: a channel whose length counter has reached 0, or which is
/// disabled, outputs silence.
pub proof fn lemma_silent_when_length_exhausted(p: PulseView)
    requires
        p.length_counter == 0 || !p.enabled,
    ensures
        pulse_tick_spec(p).1 == 0,
{
}

/// Law: a half-frame event counts an unhalted, nonzero length counter down
/// by exactly one, so enough half-frame events silence the channel.
pub proof fn lemma_half_frame_counts_down(p: PulseView)
    requires
        p.length_counter > 0,
        !p.halt,
    ensures
        pulse_half_spec(p).length_counter == p.length_counter - 1,
{
}

} // verus!
