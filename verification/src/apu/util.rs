use vstd::prelude::*;

verus! {

/// The note lengths that the five-bit length index selects.
pub const LENGTH_COUNTER_TABLE: [u8; 32] = [
    10, 254, 20, 2, 40, 4, 80, 6, 160, 8, 60, 10, 14, 12, 26, 14, 12, 16, 24, 18, 48, 20, 96, 22,
    192, 24, 72, 26, 16, 28, 32, 30,
];

/// The shape of a channel's wave.
#[derive(Clone, Copy, PartialEq, Eq, Structural, Debug)]
pub enum WaveForm {
    Pulse12,
    Pulse25,
    Pulse50,
    Pulse75,
    Triangle,
    Noise,
}

/// What a channel sounds like at one moment: the timer period that sets its
/// pitch, its volume in fifteenths, and its wave.
#[derive(Clone, Copy, PartialEq, Eq, Structural, Debug)]
pub struct Tone {
    pub period: u16,
    pub volume: u8,
    pub duty: WaveForm,
}

/// A volume envelope: a divider that counts down from the four-bit period
/// and a decay level that it steps down from 15.
#[derive(Clone, Copy, Debug)]
pub struct Envelope {
    pub constant: bool,
    pub volume: u8,
    pub start_flag: bool,
    pub decay_level: u8,
    pub current_value: u8,
}

impl Envelope {
    /// The volume and the decay level are four-bit numbers.
    pub open spec fn wf(self) -> bool {
        self.volume <= 15 && self.decay_level <= 15
    }

    /// The envelope after a quarter-frame clock. After a start the decay
    /// level is 15 and the divider is reloaded. Otherwise the divider counts
    /// down, and when it was at zero it is reloaded and the decay level goes
    /// down by one, or from zero back to 15 unless the channel is halted.
    pub open spec fn ticked(self, halt: bool) -> Envelope {
        if self.start_flag {
            Envelope {
                start_flag: false,
                decay_level: 15,
                current_value: self.volume,
                ..self
            }
        } else if self.current_value != 0 {
            Envelope { current_value: (self.current_value - 1) as u8, ..self }
        } else {
            Envelope {
                current_value: self.volume,
                decay_level: if self.decay_level == 0 {
                    if halt {
                        0u8
                    } else {
                        15u8
                    }
                } else {
                    (self.decay_level - 1) as u8
                },
                ..self
            }
        }
    }

    /// The volume put out: the raw period where the volume is constant, the
    /// decay level otherwise.
    pub open spec fn output(self) -> u8 {
        if self.constant {
            self.volume
        } else {
            self.decay_level
        }
    }

    pub fn new() -> (r: Self)
        ensures
            r == (Envelope {
                start_flag: false,
                constant: false,
                volume: 0,
                decay_level: 0,
                current_value: 0,
            }),
    {
        Self { start_flag: false, constant: false, volume: 0, decay_level: 0, current_value: 0 }
    }

    pub fn set_volume(&mut self, period: u8)
        requires
            period <= 15,
        ensures
            *final(self) == (Envelope { volume: period, current_value: period, ..*old(self) }),
            old(self).wf() ==> final(self).wf(),
    {
        self.volume = period;
        self.current_value = period;
    }

    pub fn set_disable(&mut self, constant: bool)
        ensures
            *final(self) == (Envelope { constant, ..*old(self) }),
    {
        self.constant = constant
    }

    pub fn tick(&mut self, halt: bool)
        ensures
            *final(self) == old(self).ticked(halt),
            old(self).wf() ==> final(self).wf(),
    {
        if !self.start_flag {
            if self.current_value != 0 {
                self.current_value -= 1;
            } else {
                self.current_value = self.volume;
                if self.decay_level == 0 {
                    if !halt {
                        self.decay_level = 15;
                    }
                } else {
                    self.decay_level -= 1;
                }
            }
        } else {
            self.start_flag = false;
            self.decay_level = 15;
            self.current_value = self.volume;
        }
    }

    pub fn value(&self) -> (r: u8)
        ensures
            r == self.output(),
            self.wf() ==> r <= 15,
    {
        if self.constant {
            self.volume
        } else {
            self.decay_level
        }
    }

    pub fn reset(&mut self)
        ensures
            *final(self) == (Envelope { start_flag: true, ..*old(self) }),
    {
        self.start_flag = true;
    }
}

/// A pulse channel's sweep unit. `ext` is the extra one that the first
/// pulse channel takes off when it sweeps downwards.
#[derive(Clone, Copy, Debug)]
pub struct Sweep {
    pub enable: bool,
    pub period: u8,
    pub negate: bool,
    pub shift: u8,
    pub current_value: u8,
    pub reload_flag: bool,
    pub mute: bool,
    pub ext: u8,
    pub change: u16,
}

impl Sweep {
    /// The period that the sweep would move `timer` to: the change added,
    /// or taken off together with `ext`, though not below zero.
    pub open spec fn target(self, timer: u16) -> int {
        if self.negate {
            if timer >= self.change + self.ext {
                timer - (self.change + self.ext)
            } else {
                0
            }
        } else {
            timer + self.change
        }
    }

    /// The sweep mutes the channel: the period is below 8 or the target is
    /// above 0x7FF.
    pub open spec fn mutes(self, timer: u16) -> bool {
        timer < 8 || self.target(timer) > 0x07FF
    }

    /// The sweep after the timer period was looked at on an APU clock: an
    /// enabled sweep takes the period shifted right as its change and
    /// decides whether it mutes the channel.
    pub open spec fn changed(self, timer: u16) -> Sweep {
        if self.enable {
            let shifted = Sweep { change: timer >> (self.shift as u16), ..self };
            Sweep { mute: shifted.mutes(timer), ..shifted }
        } else {
            self
        }
    }

    /// The sweep moves the period on this half-frame clock.
    pub open spec fn sweeps(self, timer: u16) -> bool {
        self.enable && self.current_value != 0 && self.shift != 0 && !self.mute && timer >= 8
            && self.change <= 0x07FF
    }

    /// The period that a half-frame clock leaves: the target where the
    /// sweep moves it, as far as 16 bits hold it, else the period as it is.
    pub open spec fn next_period(self, timer: u16) -> u16 {
        if self.sweeps(timer) {
            if self.target(timer) > 0xFFFF {
                0xFFFFu16
            } else {
                self.target(timer) as u16
            }
        } else {
            timer
        }
    }

    /// The sweep after a half-frame clock: the divider is reloaded when it
    /// is at zero or a reload is due, else it counts down; and the sweep
    /// decides anew whether it mutes the channel.
    pub open spec fn ticked(self, timer: u16) -> Sweep {
        Sweep {
            current_value: if self.current_value == 0 || self.reload_flag {
                self.period
            } else {
                (self.current_value - 1) as u8
            },
            reload_flag: if self.current_value == 0 || self.reload_flag {
                false
            } else {
                self.reload_flag
            },
            mute: self.mutes(timer),
            ..self
        }
    }

    pub fn new(ext: u8) -> (r: Self)
        ensures
            r == (Sweep {
                enable: false,
                period: 0,
                negate: false,
                shift: 0,
                current_value: 0,
                reload_flag: false,
                mute: false,
                change: 0,
                ext,
            }),
    {
        Self {
            enable: false,
            period: 0,
            negate: false,
            shift: 0,
            current_value: 0,
            reload_flag: false,
            mute: false,
            change: 0,
            ext,
        }
    }

    pub fn set_enable(&mut self, enable: bool)
        ensures
            *final(self) == (Sweep { enable, ..*old(self) }),
    {
        self.enable = enable;
    }

    pub fn set_period(&mut self, period: u8)
        requires
            period < 255,
        ensures
            *final(self) == (Sweep { period: (period + 1) as u8, ..*old(self) }),
    {
        self.period = period + 1;
    }

    pub fn set_negate(&mut self, negate: bool)
        ensures
            *final(self) == (Sweep { negate, ..*old(self) }),
    {
        self.negate = negate;
    }

    pub fn set_shift(&mut self, shift: u8)
        ensures
            *final(self) == (Sweep { shift, ..*old(self) }),
    {
        self.shift = shift;
    }

    /// Tells whether the sweep mutes the channel at this period.
    pub fn is_muting(&self, timer: u16) -> (r: bool)
        ensures
            r == self.mutes(timer),
    {
        let target: u32 = if self.negate {
            let off = self.change as u32 + self.ext as u32;
            if timer as u32 >= off {
                timer as u32 - off
            } else {
                0
            }
        } else {
            timer as u32 + self.change as u32
        };
        timer < 8 || target > 0x07FF
    }

    pub fn change(&mut self, timer: u16)
        requires
            old(self).shift < 16,
        ensures
            *final(self) == old(self).changed(timer),
    {
        if self.enable {
            self.change = timer >> (self.shift as u16);
            self.mute = self.is_muting(timer);
        }
    }

    pub fn is_mute(&self) -> (r: bool)
        ensures
            r == self.mute,
    {
        self.mute
    }

    pub fn tick(&mut self, timer: u16) -> (next_period: u16)
        ensures
            next_period == old(self).next_period(timer),
            *final(self) == old(self).ticked(timer),
    {
        let next_period = if self.enable && self.current_value != 0 && self.shift != 0
            && !self.mute {
            if timer >= 8 && self.change <= 0x07FF {
                if self.negate {
                    match timer.checked_sub(self.change + self.ext as u16) {
                        Some(v) => v,
                        None => 0,
                    }
                } else {
                    match timer.checked_add(self.change) {
                        Some(v) => v,
                        None => u16::MAX,
                    }
                }
            } else {
                timer
            }
        } else {
            timer
        };
        self.mute = self.is_muting(timer);
        if self.current_value == 0 || self.reload_flag {
            self.current_value = self.period;
            self.reload_flag = false;
        } else {
            self.current_value -= 1;
        }
        next_period
    }

    pub fn reset(&mut self)
        ensures
            *final(self) == (Sweep { reload_flag: true, ..*old(self) }),
    {
        self.reload_flag = true;
    }
}

/// A channel's length counter: it counts a note down on half-frame clocks
/// and stays at zero.
#[derive(Clone, Copy, Debug)]
pub struct LengthCounter {
    pub enable: bool,
    pub length: u8,
}

impl LengthCounter {
    pub fn new() -> (r: Self)
        ensures
            r == (LengthCounter { enable: false, length: 0 }),
    {
        Self { enable: false, length: 0 }
    }

    pub fn set_enable(&mut self, flag: bool)
        ensures
            *final(self) == (LengthCounter { enable: flag, ..*old(self) }),
    {
        self.enable = flag;
    }

    pub fn set_length(&mut self, length: u8)
        requires
            length < 32,
        ensures
            *final(self) == (LengthCounter {
                length: LENGTH_COUNTER_TABLE[length as int],
                ..*old(self)
            }),
    {
        self.length = LENGTH_COUNTER_TABLE[length as usize];
    }

    /// The counter after a half-frame clock.
    pub open spec fn ticked(self) -> LengthCounter {
        LengthCounter {
            length: if self.length == 0 {
                0u8
            } else {
                (self.length - 1) as u8
            },
            ..self
        }
    }

    /// The channel is silent: the counter is switched off or has run out.
    pub open spec fn muted(self) -> bool {
        !self.enable || self.length == 0
    }

    pub fn disable(&mut self)
        ensures
            *final(self) == (LengthCounter { enable: false, length: 0 }),
    {
        self.enable = false;
        self.length = 0;
    }

    pub fn is_mute(&self) -> (r: bool)
        ensures
            r == self.muted(),
    {
        !self.enable || self.length == 0
    }

    pub fn is_end(&self) -> (r: bool)
        ensures
            r == (self.length == 0),
    {
        self.length == 0
    }

    pub fn tick(&mut self)
        ensures
            *final(self) == old(self).ticked(),
    {
        if self.length != 0 {
            self.length -= 1;
        }
    }
}

/// A channel's timer and the step counter that it drives: every time the
/// timer runs out the step moves on, modulo `sequence`.
#[derive(Clone, Copy, Debug)]
pub struct Sequence {
    pub sequence: u8,
    pub sequence_counter: u8,
    pub timer: u16,
    pub timer_counter: u16,
}

impl Sequence {
    /// The sequencer after an APU clock.
    pub open spec fn ticked(self) -> Sequence {
        if self.timer_counter == 0 {
            Sequence {
                timer_counter: self.timer,
                sequence_counter: ((self.sequence_counter + 1) % (self.sequence as int)) as u8,
                ..self
            }
        } else {
            Sequence { timer_counter: (self.timer_counter - 1) as u16, ..self }
        }
    }

    /// The sequencer after the low byte of its period was written.
    pub open spec fn with_timer_low(self, value: u8) -> Sequence {
        Sequence { timer: (self.timer & 0xFF00) | (value as u16), ..self }
    }

    /// The sequencer after the high byte of its period was written: the
    /// timer starts again from the period as it then stands.
    pub open spec fn with_timer_high(self, value: u8) -> Sequence {
        Sequence {
            timer: (self.timer & 0x00FF) | ((value as u16) << 8),
            timer_counter: (self.timer & 0x00FF) | ((value as u16) << 8),
            ..self
        }
    }

    pub fn new(sequence: u8) -> (r: Self)
        ensures
            r == (Sequence { sequence, sequence_counter: 0, timer: 0, timer_counter: 0 }),
    {
        Self { sequence, sequence_counter: 0, timer: 0, timer_counter: 0 }
    }

    pub fn set_timer_low(&mut self, value: u8)
        ensures
            *final(self) == old(self).with_timer_low(value),
    {
        self.timer = (self.timer & 0xFF00) | (value as u16);
    }

    pub fn set_timer_high(&mut self, value: u8)
        ensures
            *final(self) == old(self).with_timer_high(value),
    {
        self.timer = (self.timer & 0x00FF) | ((value as u16) << 8);
        self.timer_counter = self.timer;
    }

    pub fn tick(&mut self)
        requires
            old(self).sequence != 0,
        ensures
            *final(self) == old(self).ticked(),
    {
        if self.timer_counter == 0 {
            self.timer_counter = self.timer;
            self.sequence_counter = ((self.sequence_counter as u16 + 1) % (
            self.sequence as u16)) as u8;
        } else {
            self.timer_counter -= 1;
        }
    }

    pub fn value(&self) -> (r: u8)
        ensures
            r == self.sequence_counter,
    {
        self.sequence_counter
    }

    pub fn period(&self) -> (r: u16)
        ensures
            r == self.timer,
    {
        self.timer
    }

    pub fn reset(&mut self)
        ensures
            *final(self) == (Sequence { sequence_counter: 0, ..*old(self) }),
    {
        self.sequence_counter = 0;
    }

    pub fn is_mute(&self) -> (r: bool)
        ensures
            r == (self.timer < 8),
    {
        self.timer < 8
    }
}

} // verus!
