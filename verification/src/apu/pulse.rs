use vstd::prelude::*;
use crate::apu::util::{Envelope, LengthCounter, Sequence, Sweep, Tone, WaveForm};
use crate::apu::TimeEvent;
use crate::bits::{lemma_and_bounds_u8, lemma_low_mask_u16, lemma_shr_u8};

verus! {

/// A pulse channel.
#[derive(Clone, Copy, Debug)]
pub struct Pulse {
    pub duty: usize,
    pub halt: bool,
    pub envelope: Envelope,
    pub sweep: Sweep,
    pub sequence: Sequence,
    pub length: LengthCounter,
}

impl Pulse {
    /// The duty names one of the four pulse waves, the sweep's shift fits
    /// the period, the sequencer has steps to go through, and the envelope
    /// is well formed.
    pub open spec fn wf(self) -> bool {
        self.duty < 4 && self.sweep.shift < 16 && self.sequence.sequence != 0
            && self.envelope.wf()
    }

    /// The channel after a write to its first register: duty in the two top
    /// bits, halt in bit 5, constant volume in bit 4, volume in the low
    /// nibble.
    pub open spec fn updated_1(self, value: u8) -> Pulse {
        let halt = value & 0b0010_0000 != 0;
        Pulse {
            duty: (value >> 6) as usize,
            halt,
            length: LengthCounter { enable: !halt, ..self.length },
            envelope: Envelope {
                constant: value & 0b0001_0000 != 0,
                volume: value & 0x0F,
                current_value: value & 0x0F,
                ..self.envelope
            },
            sequence: Sequence { sequence_counter: 0, ..self.sequence },
            ..self
        }
    }

    /// The channel after a write to its sweep register: enable in bit 7,
    /// period in bits 4 to 6, negate in bit 3, shift in the low three bits.
    pub open spec fn updated_2(self, value: u8) -> Pulse {
        Pulse {
            sweep: Sweep {
                enable: value & 0b1000_0000 != 0,
                period: (((value >> 4) & 0b0111) + 1) as u8,
                negate: value & 0b0000_1000 != 0,
                shift: value & 0b0000_0111,
                reload_flag: true,
                ..self.sweep
            },
            ..self
        }
    }

    /// The channel after a write to its third register: the low byte of the
    /// period.
    pub open spec fn updated_3(self, value: u8) -> Pulse {
        Pulse { sequence: self.sequence.with_timer_low(value), ..self }
    }

    /// The channel after a write to its fourth register: the length index in
    /// the five top bits, the high bits of the period in the low three; the
    /// envelope starts over.
    pub open spec fn updated_4(self, value: u8) -> Pulse {
        Pulse {
            length: LengthCounter {
                length: crate::apu::util::LENGTH_COUNTER_TABLE[(value >> 3) as int],
                ..self.length
            },
            sequence: self.sequence.with_timer_high(value & 0b0000_0111),
            envelope: Envelope { start_flag: true, ..self.envelope },
            ..self
        }
    }

    /// The channel after its half-frame clock: the length counter counts
    /// down, the sweep runs, and a period that the sweep has moved is
    /// written back, high byte first.
    pub open spec fn half_framed(self) -> Pulse {
        let period = self.sequence.timer;
        let new_period = self.sweep.next_period(period);
        Pulse {
            length: self.length.ticked(),
            sweep: self.sweep.ticked(period),
            sequence: if new_period != period {
                self.sequence.with_timer_high((new_period >> 8) as u8).with_timer_low(
                    (new_period & 0xFF) as u8,
                )
            } else {
                self.sequence
            },
            ..self
        }
    }

    /// The channel after one tick of the frame counter: on an APU clock the
    /// sequencer steps and the sweep looks at the period, on a quarter frame
    /// the envelope steps, on a half frame the length counter and the sweep
    /// do.
    pub open spec fn ticked(self, event: TimeEvent) -> Pulse {
        let clocked = if event.has(TimeEvent::APUClock) {
            Pulse {
                sequence: self.sequence.ticked(),
                sweep: self.sweep.changed(self.sequence.timer),
                ..self
            }
        } else {
            self
        };
        let quartered = if event.has(TimeEvent::QuarterFrame) {
            Pulse { envelope: clocked.envelope.ticked(clocked.halt), ..clocked }
        } else {
            clocked
        };
        if event.has(TimeEvent::HalfFrame) {
            quartered.half_framed()
        } else {
            quartered
        }
    }

    /// What the channel sounds like: silent while halted or muted by the
    /// sweep, the length counter or a period below 8, else as loud as the
    /// envelope.
    pub open spec fn tone(self) -> Tone {
        Tone {
            period: self.sequence.timer,
            volume: if self.halt || self.sweep.mute || self.length.muted() || self.sequence.timer
                < 8 {
                0u8
            } else {
                self.envelope.output()
            },
            duty: if self.duty == 0 {
                WaveForm::Pulse12
            } else if self.duty == 1 {
                WaveForm::Pulse25
            } else if self.duty == 2 {
                WaveForm::Pulse50
            } else {
                WaveForm::Pulse75
            },
        }
    }

    /// A silent channel whose sequencer has eight steps.
    pub open spec fn fresh(ext: u8) -> Pulse {
        Pulse {
            duty: 0,
            halt: false,
            envelope: Envelope {
                start_flag: false,
                constant: false,
                volume: 0,
                decay_level: 0,
                current_value: 0,
            },
            sweep: Sweep {
                enable: false,
                period: 0,
                negate: false,
                shift: 0,
                current_value: 0,
                reload_flag: false,
                mute: false,
                change: 0,
                ext,
            },
            sequence: Sequence { sequence: 8, sequence_counter: 0, timer: 0, timer_counter: 0 },
            length: LengthCounter { enable: false, length: 0 },
        }
    }

    pub fn new(ext: u8) -> (r: Self)
        ensures
            r == Pulse::fresh(ext),
    {
        Self {
            duty: 0,
            halt: false,
            envelope: Envelope::new(),
            sweep: Sweep::new(ext),
            sequence: Sequence::new(8),
            length: LengthCounter::new(),
        }
    }

    pub fn update_1(&mut self, value: u8)
        ensures
            *final(self) == old(self).updated_1(value),
            old(self).wf() ==> final(self).wf(),
    {
        proof {
            lemma_shr_u8(value);
            lemma_and_bounds_u8(value, 0x0F);
        }
        self.duty = (value >> 6) as usize;
        self.halt = value & 0b0010_0000 != 0;
        self.length.set_enable(!self.halt);
        self.envelope.set_disable(value & 0b0001_0000 != 0);
        self.envelope.set_volume(value & 0x0F);
        self.sequence.reset();
    }

    pub fn update_2(&mut self, value: u8)
        ensures
            *final(self) == old(self).updated_2(value),
            old(self).wf() ==> final(self).wf(),
    {
        proof {
            lemma_and_bounds_u8(value >> 4, 0b0111);
            lemma_and_bounds_u8(value, 0b0000_0111);
        }
        self.sweep.set_enable(value & 0b1000_0000 != 0);
        self.sweep.set_period((value >> 4) & 0b0111);
        self.sweep.set_negate(value & 0b0000_1000 != 0);
        self.sweep.set_shift(value & 0b0000_0111);
        self.sweep.reset();
    }

    pub fn update_3(&mut self, value: u8)
        ensures
            *final(self) == old(self).updated_3(value),
            old(self).wf() ==> final(self).wf(),
    {
        self.sequence.set_timer_low(value);
    }

    pub fn update_4(&mut self, value: u8)
        ensures
            *final(self) == old(self).updated_4(value),
            old(self).wf() ==> final(self).wf(),
    {
        proof {
            lemma_shr_u8(value);
        }
        self.length.set_length(value >> 3);
        self.sequence.set_timer_high(value & 0b0000_0111);
        self.envelope.reset();
    }

    pub fn tick(&mut self, time_event: &TimeEvent)
        requires
            old(self).wf(),
        ensures
            *final(self) == old(self).ticked(*time_event),
            final(self).wf(),
    {
        if time_event.contains(TimeEvent::APUClock) {
            self.sequence.tick();
            self.sweep.change(self.sequence.period());
        }
        if time_event.contains(TimeEvent::QuarterFrame) {
            self.envelope.tick(self.halt);
        }
        if time_event.contains(TimeEvent::HalfFrame) {
            self.length.tick();
            let new_period = self.sweep.tick(self.sequence.period());
            if new_period != self.sequence.period() {
                proof {
                    lemma_low_mask_u16(new_period);
                }
                self.sequence.set_timer_high((new_period >> 8) as u8);
                self.sequence.set_timer_low((new_period & 0xFF) as u8);
            }
        }
    }

    pub fn is_halt(&self) -> (r: bool)
        ensures
            r == self.halt,
    {
        self.halt
    }

    pub fn is_end(&self) -> (r: bool)
        ensures
            r == (self.length.length == 0),
    {
        self.length.is_end()
    }

    pub fn disable(&mut self)
        ensures
            *final(self) == (Pulse {
                length: LengthCounter { enable: false, length: 0 },
                ..*old(self)
            }),
    {
        self.length.disable();
    }

    pub fn value(&self) -> (r: Tone)
        requires
            self.duty < 4,
        ensures
            r == self.tone(),
            self.wf() ==> r.volume <= 15,
    {
        let duty = if self.duty == 0 {
            WaveForm::Pulse12
        } else if self.duty == 1 {
            WaveForm::Pulse25
        } else if self.duty == 2 {
            WaveForm::Pulse50
        } else {
            WaveForm::Pulse75
        };
        Tone {
            period: self.sequence.period(),
            volume: if self.halt || self.sweep.is_mute() || self.length.is_mute()
                || self.sequence.is_mute() {
                0
            } else {
                self.envelope.value()
            },
            duty,
        }
    }
}

/// Writing a swept period back, high byte and then low byte, leaves that
/// period in the timer.
pub proof fn lemma_sweep_writes_back(sequence: Sequence, new_period: u16)
    ensures
        sequence.with_timer_high((new_period >> 8) as u8).with_timer_low(
            (new_period & 0xFF) as u8,
        ).timer == new_period,
{
    let t = sequence.timer;
    assert(((((t & 0x00FF) | ((((new_period >> 8) as u8) as u16) << 8)) & 0xFF00) | (((new_period
        & 0xFF) as u8) as u16)) == new_period) by (bit_vector);
}

} // verus!
