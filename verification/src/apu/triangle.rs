use vstd::prelude::*;
use crate::apu::util::{LengthCounter, Sequence, Tone, WaveForm};
use crate::apu::TimeEvent;
use crate::bits::lemma_shr_u8;

verus! {

/// The triangle channel's linear counter.
#[derive(Clone, Copy, Debug)]
pub struct LinearCounter {
    pub enable: bool,
    pub reload: bool,
    pub reload_value: u8,
    pub counter: u8,
}

impl LinearCounter {
    /// The counter after a quarter-frame clock: reloaded where a reload is
    /// due, else counted down, and left at zero once there.
    pub open spec fn ticked(self) -> LinearCounter {
        if self.reload {
            LinearCounter { reload: false, counter: self.reload_value, ..self }
        } else if self.counter != 0 {
            LinearCounter { counter: (self.counter - 1) as u8, ..self }
        } else {
            self
        }
    }

    /// The counter holds the sequencer back: it is switched off or has run
    /// out.
    pub open spec fn muted(self) -> bool {
        !self.enable || self.counter == 0
    }

    pub fn new() -> (r: Self)
        ensures
            r == (LinearCounter { enable: false, reload: false, reload_value: 0, counter: 0 }),
    {
        Self { enable: false, reload: false, reload_value: 0, counter: 0 }
    }

    pub fn set_enable(&mut self, flag: bool)
        ensures
            *final(self) == (LinearCounter { enable: flag, ..*old(self) }),
    {
        self.enable = flag;
    }

    pub fn set_counter(&mut self, counter: u8)
        ensures
            *final(self) == (LinearCounter { reload_value: counter, ..*old(self) }),
    {
        self.reload_value = counter;
    }

    pub fn is_mute(&self) -> (r: bool)
        ensures
            r == self.muted(),
    {
        !self.enable || self.counter == 0
    }

    pub fn reset(&mut self)
        ensures
            *final(self) == (LinearCounter { reload: true, ..*old(self) }),
    {
        self.reload = true;
    }

    pub fn tick(&mut self)
        ensures
            *final(self) == old(self).ticked(),
    {
        if self.reload {
            self.reload = false;
            self.counter = self.reload_value;
        } else if self.counter != 0 {
            self.counter -= 1;
        }
    }
}

/// The triangle channel.
#[derive(Clone, Copy, Debug)]
pub struct Triangle {
    pub halt: bool,
    pub linear: LinearCounter,
    pub sequence: Sequence,
    pub length: LengthCounter,
}

impl Triangle {
    /// The sequencer has steps to go through.
    pub open spec fn wf(self) -> bool {
        self.sequence.sequence != 0
    }

    /// The channel after a write to its first register: halt in bit 7, the
    /// linear counter's reload value in the other seven.
    pub open spec fn updated_1(self, value: u8) -> Triangle {
        let halt = value & 0b1000_0000 != 0;
        Triangle {
            halt,
            linear: LinearCounter {
                enable: !halt,
                reload_value: value & 0b0111_1111,
                ..self.linear
            },
            length: LengthCounter { enable: !halt, ..self.length },
            sequence: Sequence { sequence_counter: 0, ..self.sequence },
        }
    }

    /// The channel after a write to its fourth register: the length index in
    /// the five top bits, the high bits of the period in the low three; the
    /// linear counter is to be reloaded.
    pub open spec fn updated_4(self, value: u8) -> Triangle {
        Triangle {
            length: LengthCounter {
                length: crate::apu::util::LENGTH_COUNTER_TABLE[(value >> 3) as int],
                ..self.length
            },
            sequence: self.sequence.with_timer_high(value & 0b0000_0111),
            linear: LinearCounter { reload: true, ..self.linear },
            ..self
        }
    }

    /// The channel after one tick of the frame counter: on an APU clock the
    /// sequencer steps, but only while the length counter and the linear
    /// counter both let it; on a quarter frame the linear counter steps, on
    /// a half frame the length counter does.
    pub open spec fn ticked(self, event: TimeEvent) -> Triangle {
        let clocked = if event.has(TimeEvent::APUClock) && !self.length.muted()
            && !self.linear.muted() {
            Triangle { sequence: self.sequence.ticked(), ..self }
        } else {
            self
        };
        let quartered = if event.has(TimeEvent::QuarterFrame) {
            Triangle { linear: clocked.linear.ticked(), ..clocked }
        } else {
            clocked
        };
        if event.has(TimeEvent::HalfFrame) {
            Triangle { length: quartered.length.ticked(), ..quartered }
        } else {
            quartered
        }
    }

    /// What the channel sounds like: at full volume, or silent while halted
    /// or muted by the length counter or a period below 8.
    pub open spec fn tone(self) -> Tone {
        Tone {
            period: self.sequence.timer,
            volume: if self.halt || self.length.muted() || self.sequence.timer < 8 {
                0u8
            } else {
                15u8
            },
            duty: WaveForm::Triangle,
        }
    }

    /// A silent channel whose sequencer has 32 steps.
    pub open spec fn fresh() -> Triangle {
        Triangle {
            halt: false,
            linear: LinearCounter { enable: false, reload: false, reload_value: 0, counter: 0 },
            sequence: Sequence { sequence: 32, sequence_counter: 0, timer: 0, timer_counter: 0 },
            length: LengthCounter { enable: false, length: 0 },
        }
    }

    pub fn new() -> (r: Self)
        ensures
            r == Triangle::fresh(),
    {
        Self {
            halt: false,
            linear: LinearCounter::new(),
            sequence: Sequence::new(32),
            length: LengthCounter::new(),
        }
    }

    pub fn update_1(&mut self, value: u8)
        ensures
            *final(self) == old(self).updated_1(value),
            old(self).wf() ==> final(self).wf(),
    {
        self.halt = value & 0b1000_0000 != 0;
        self.linear.set_enable(!self.halt);
        self.length.set_enable(!self.halt);
        self.linear.set_counter(value & 0b0111_1111);
        self.sequence.reset();
    }

    pub fn update_2(&mut self, _value: u8)
        ensures
            *final(self) == *old(self),
    {
    }

    pub fn update_3(&mut self, value: u8)
        ensures
            *final(self) == (Triangle {
                sequence: old(self).sequence.with_timer_low(value),
                ..*old(self)
            }),
            old(self).wf() ==> final(self).wf(),
    {
        self.sequence.set_timer_low(value);
    }

    pub fn update_4(&mut self, value: u8)
        ensures
            *final(self) == old(self).updated_4(value),
            old(self).wf() ==> final(self).wf(),
    {
        proof {
            lemma_shr_u8(value);
        }
        self.length.set_length(value >> 3);
        self.sequence.set_timer_high(value & 0b0000_0111);
        self.linear.reset();
    }

    pub fn tick(&mut self, time_event: &TimeEvent)
        requires
            old(self).wf(),
        ensures
            *final(self) == old(self).ticked(*time_event),
            final(self).wf(),
    {
        if time_event.contains(TimeEvent::APUClock) {
            if !self.length.is_mute() && !self.linear.is_mute() {
                self.sequence.tick();
            }
        }
        if time_event.contains(TimeEvent::QuarterFrame) {
            self.linear.tick();
        }
        if time_event.contains(TimeEvent::HalfFrame) {
            self.length.tick();
        }
    }

    pub fn is_halt(&self) -> (r: bool)
        ensures
            r == self.halt,
    {
        self.halt
    }

    pub fn is_end(&self) -> (r: bool)
        ensures
            r == (self.length.length == 0),
    {
        self.length.is_end()
    }

    pub fn disable(&mut self)
        ensures
            *final(self) == (Triangle {
                length: LengthCounter { enable: false, length: 0 },
                ..*old(self)
            }),
    {
        self.length.disable();
    }

    pub fn value(&self) -> (r: Tone)
        ensures
            r == self.tone(),
    {
        Tone {
            period: self.sequence.period(),
            volume: if self.halt || self.length.is_mute() || self.sequence.is_mute() {
                0
            } else {
                15
            },
            duty: WaveForm::Triangle,
        }
    }
}

} // verus!
