use vstd::prelude::*;
use crate::apu::util::{Envelope, LengthCounter, Tone, WaveForm};
use crate::apu::TimeEvent;
use crate::bits::{lemma_and_bounds_u8, lemma_shr_u8};

verus! {

/// The timer periods that the low nibble of the noise channel's third
/// register selects.
pub const NOISE_PERIOD_TABLE: [u16; 16] = [
    4, 8, 16, 32, 64, 96, 128, 160, 202, 254, 380, 508, 762, 1016, 2034, 4068,
];

/// The noise channel's 15-bit shift register, with the timer period that
/// the channel was given.
#[derive(Clone, Copy, Debug)]
pub struct FeedbackRegister {
    pub register: u16,
    pub mode: bool,
    pub period: u16,
    pub counter: u16,
}

/// The shift register after one shift: bit 0 and, by the mode, bit 6 or bit
/// 1 are xor-ed, everything moves one place down, and the xor comes in at
/// bit 14.
pub open spec fn shifted(register: u16, mode: bool) -> u16 {
    let feedback = (register & 0x01) ^ (if mode {
        (register >> 6) & 0x01
    } else {
        (register >> 1) & 0x01
    });
    (register >> 1) | (feedback << 14)
}

impl FeedbackRegister {
    /// The register after an APU clock: it shifts.
    pub open spec fn ticked(self) -> FeedbackRegister {
        FeedbackRegister { register: shifted(self.register, self.mode), ..self }
    }

    /// The channel puts out nothing while bit 0 of the register is set.
    pub open spec fn muted(self) -> bool {
        self.register & 0x01 == 1
    }

    pub fn new() -> (r: Self)
        ensures
            r == (FeedbackRegister { register: 1, mode: false, period: 0, counter: 0 }),
    {
        Self { register: 1, mode: false, period: 0, counter: 0 }
    }

    pub fn set_mode(&mut self, mode: bool)
        ensures
            *final(self) == (FeedbackRegister { mode, ..*old(self) }),
    {
        self.mode = mode;
    }

    pub fn set_timer(&mut self, period: u16)
        ensures
            *final(self) == (FeedbackRegister { period, counter: period, ..*old(self) }),
    {
        self.period = period;
        self.counter = period;
    }

    pub fn tick(&mut self)
        ensures
            *final(self) == old(self).ticked(),
    {
        let feedback = (self.register & 0x01) ^ (if self.mode {
            (self.register >> 6) & 0x01
        } else {
            (self.register >> 1) & 0x01
        });
        self.register = (self.register >> 1) | (feedback << 14);
    }

    pub fn is_mute(&self) -> (r: bool)
        ensures
            r == self.muted(),
    {
        self.register & 0x01 == 1
    }
}

/// A shift register that holds something in its 15 bits still does after a
/// shift: it never runs empty and never grows past bit 14.
pub proof fn lemma_shift_register_stays_live(register: u16, mode: bool)
    requires
        0 < register < 0x8000,
    ensures
        0 < shifted(register, mode) < 0x8000,
{
    assert(0 < ((register >> 1) | (((register & 0x01) ^ ((register >> 6) & 0x01)) << 14)) < 0x8000
        && 0 < ((register >> 1) | (((register & 0x01) ^ ((register >> 1) & 0x01)) << 14))
        < 0x8000) by (bit_vector)
        requires
            0 < register < 0x8000,
    ;
}

/// The shift register after `n` shifts, which is after `n` APU clocks.
pub open spec fn shifted_by(register: u16, mode: bool, n: nat) -> u16
    decreases n,
{
    if n == 0 {
        register
    } else {
        shifted_by(shifted(register, mode), mode, (n - 1) as nat)
    }
}

/// None of the next `n` shifts brings the register to 1.
pub open spec fn away_from_one(register: u16, mode: bool, n: nat) -> bool
    decreases n,
{
    if n == 0 {
        true
    } else {
        shifted(register, mode) != 1 && away_from_one(shifted(register, mode), mode, (n - 1) as nat)
    }
}

/// Shifts add up.
pub proof fn lemma_shifts_add(register: u16, mode: bool, a: nat, b: nat)
    ensures
        shifted_by(shifted_by(register, mode, a), mode, b) == shifted_by(register, mode, a + b),
    decreases a,
{
    if a > 0 {
        lemma_shifts_add(shifted(register, mode), mode, (a - 1) as nat, b);
    }
}

/// Where none of the next `n` shifts brings the register to 1, the register
/// is not 1 after any number of shifts from 1 to `n`.
pub proof fn lemma_away_from_one(register: u16, mode: bool, n: nat, j: nat)
    requires
        away_from_one(register, mode, n),
        1 <= j <= n,
    ensures
        shifted_by(register, mode, j) != 1,
    decreases n,
{
    if j > 1 {
        lemma_away_from_one(shifted(register, mode), mode, (n - 1) as nat, (j - 1) as nat);
    } else {
        assert(shifted_by(shifted(register, mode), mode, 0) == shifted(register, mode));
    }
}

/// What the shift register holds, in the long mode, `1024 * i` shifts after
/// it held 1, for `i` up to 31.
pub open spec fn milestone(i: int) -> u16 {
    if i == 0 {
        0x0001
    } else if i == 1 {
        0x6800
    } else if i == 2 {
        0x2880
    } else if i == 3 {
        0x1ce8
    } else if i == 4 {
        0x6880
    } else if i == 5 {
        0x28e8
    } else if i == 6 {
        0x7cc0
    } else if i == 7 {
        0x269c
    } else if i == 8 {
        0x4880
    } else if i == 9 {
        0x32e8
    } else if i == 10 {
        0x76e0
    } else if i == 11 {
        0x21a6
    } else if i == 12 {
        0x52a0
    } else if i == 13 {
        0x38d2
    } else if i == 14 {
        0x69d0
    } else if i == 15 {
        0x6801
    } else if i == 16 {
        0x4080
    } else if i == 17 {
        0x3468
    } else if i == 18 {
        0x7468
    } else if i == 19 {
        0x4068
    } else if i == 20 {
        0x5428
    } else if i == 21 {
        0x5a5c
    } else if i == 22 {
        0x6e1c
    } else if i == 23 {
        0x7a68
    } else if i == 24 {
        0x4408
    } else if i == 25 {
        0x5746
    } else if i == 26 {
        0x7306
    } else if i == 27 {
        0x6a72
    } else if i == 28 {
        0x5102
    } else if i == 29 {
        0x01d1
    } else if i == 30 {
        0x2881
    } else {
        0x74e8
    }
}

/// From each milestone 1024 shifts lead to the next, and none of them
/// passes 1; from the last milestone 1022 shifts lead, past no 1 either, to
/// the state that the next shift turns into 1.
pub proof fn lemma_milestones(i: int)
    requires
        0 <= i <= 31,
    ensures
        i < 31 ==> shifted_by(milestone(i), false, 1024) == milestone(i + 1) && away_from_one(
            milestone(i),
            false,
            1024,
        ),
        i == 31 ==> shifted_by(milestone(i), false, 1023) == 1 && away_from_one(
            milestone(i),
            false,
            1022,
        ),
{
    assert(shifted_by(0x0001u16, false, 1024) == 0x6800u16 && away_from_one(0x0001u16, false, 1024)
        && shifted_by(0x6800u16, false, 1024) == 0x2880u16 && away_from_one(0x6800u16, false, 1024)
        && shifted_by(0x2880u16, false, 1024) == 0x1ce8u16 && away_from_one(0x2880u16, false, 1024)
        && shifted_by(0x1ce8u16, false, 1024) == 0x6880u16 && away_from_one(0x1ce8u16, false, 1024)
        && shifted_by(0x6880u16, false, 1024) == 0x28e8u16 && away_from_one(0x6880u16, false, 1024)
        && shifted_by(0x28e8u16, false, 1024) == 0x7cc0u16 && away_from_one(0x28e8u16, false, 1024)
        && shifted_by(0x7cc0u16, false, 1024) == 0x269cu16 && away_from_one(0x7cc0u16, false, 1024)
        && shifted_by(0x269cu16, false, 1024) == 0x4880u16 && away_from_one(0x269cu16, false, 1024)
        && shifted_by(0x4880u16, false, 1024) == 0x32e8u16 && away_from_one(0x4880u16, false, 1024)
        && shifted_by(0x32e8u16, false, 1024) == 0x76e0u16 && away_from_one(0x32e8u16, false, 1024)
        && shifted_by(0x76e0u16, false, 1024) == 0x21a6u16 && away_from_one(0x76e0u16, false, 1024)
        && shifted_by(0x21a6u16, false, 1024) == 0x52a0u16 && away_from_one(0x21a6u16, false, 1024)
        && shifted_by(0x52a0u16, false, 1024) == 0x38d2u16 && away_from_one(0x52a0u16, false, 1024)
        && shifted_by(0x38d2u16, false, 1024) == 0x69d0u16 && away_from_one(0x38d2u16, false, 1024)
        && shifted_by(0x69d0u16, false, 1024) == 0x6801u16 && away_from_one(0x69d0u16, false, 1024)
        && shifted_by(0x6801u16, false, 1024) == 0x4080u16 && away_from_one(0x6801u16, false, 1024)
        && shifted_by(0x4080u16, false, 1024) == 0x3468u16 && away_from_one(0x4080u16, false, 1024)
        && shifted_by(0x3468u16, false, 1024) == 0x7468u16 && away_from_one(0x3468u16, false, 1024)
        && shifted_by(0x7468u16, false, 1024) == 0x4068u16 && away_from_one(0x7468u16, false, 1024)
        && shifted_by(0x4068u16, false, 1024) == 0x5428u16 && away_from_one(0x4068u16, false, 1024)
        && shifted_by(0x5428u16, false, 1024) == 0x5a5cu16 && away_from_one(0x5428u16, false, 1024)
        && shifted_by(0x5a5cu16, false, 1024) == 0x6e1cu16 && away_from_one(0x5a5cu16, false, 1024)
        && shifted_by(0x6e1cu16, false, 1024) == 0x7a68u16 && away_from_one(0x6e1cu16, false, 1024)
        && shifted_by(0x7a68u16, false, 1024) == 0x4408u16 && away_from_one(0x7a68u16, false, 1024)
        && shifted_by(0x4408u16, false, 1024) == 0x5746u16 && away_from_one(0x4408u16, false, 1024)
        && shifted_by(0x5746u16, false, 1024) == 0x7306u16 && away_from_one(0x5746u16, false, 1024)
        && shifted_by(0x7306u16, false, 1024) == 0x6a72u16 && away_from_one(0x7306u16, false, 1024)
        && shifted_by(0x6a72u16, false, 1024) == 0x5102u16 && away_from_one(0x6a72u16, false, 1024)
        && shifted_by(0x5102u16, false, 1024) == 0x01d1u16 && away_from_one(0x5102u16, false, 1024)
        && shifted_by(0x01d1u16, false, 1024) == 0x2881u16 && away_from_one(0x01d1u16, false, 1024)
        && shifted_by(0x2881u16, false, 1024) == 0x74e8u16 && away_from_one(0x2881u16, false, 1024)
        && shifted_by(0x74e8u16, false, 1022) == 0x0003u16 && away_from_one(0x74e8u16, false, 1022)
        && shifted(0x0003u16, false) == 1u16) by (bit_vector);
    if i == 31 {
        lemma_shifts_add(milestone(31), false, 1022, 1);
        assert(shifted_by(0x0003u16, false, 1) == shifted(0x0003u16, false)) by {
            assert(shifted_by(shifted(0x0003u16, false), false, 0) == shifted(0x0003u16, false));
        }
    }
}

/// The register holds milestone `i` after `1024 * i` shifts from 1.
pub proof fn lemma_milestone_reached(i: nat)
    requires
        i <= 31,
    ensures
        shifted_by(1, false, 1024 * i) == milestone(i as int),
    decreases i,
{
    if i > 0 {
        lemma_milestone_reached((i - 1) as nat);
        lemma_milestones(i - 1);
        lemma_shifts_add(1, false, (1024 * (i - 1)) as nat, 1024);
    }
}

/// The long sequence of the noise channel: from 1 the shift register is
/// back at 1 after exactly 32767 shifts, and never before.
pub proof fn lemma_long_sequence(j: nat)
    requires
        0 < j <= 32767,
    ensures
        shifted_by(1, false, j) == 1 <==> j == 32767,
{
    let i = ((j - 1) / 1024) as nat;
    let rest = (j - 1024 * i) as nat;
    lemma_milestone_reached(i);
    lemma_milestones(i as int);
    lemma_shifts_add(1, false, 1024 * i, rest);
    if i < 31 {
        lemma_away_from_one(milestone(i as int), false, 1024, rest);
    } else if rest <= 1022 {
        lemma_away_from_one(milestone(31), false, 1022, rest);
    }
}

/// The short sequence of the noise channel: from 1 the shift register is
/// back at 1 after exactly 93 shifts, and never before.
pub proof fn lemma_short_sequence(j: nat)
    requires
        0 < j <= 93,
    ensures
        shifted_by(1, true, j) == 1 <==> j == 93,
{
    assert(shifted_by(1u16, true, 93) == 1u16 && away_from_one(1u16, true, 92)) by (bit_vector);
    if j < 93 {
        lemma_away_from_one(1, true, 92, j);
    }
}

/// The noise channel.
#[derive(Clone, Copy, Debug)]
pub struct Noise {
    pub halt: bool,
    pub envelope: Envelope,
    pub feedback: FeedbackRegister,
    pub length: LengthCounter,
}

impl Noise {
    /// The envelope is well formed.
    pub open spec fn wf(self) -> bool {
        self.envelope.wf()
    }

    /// The channel after a write to its first register: halt in bit 5,
    /// constant volume in bit 4, volume in the low nibble.
    pub open spec fn updated_1(self, value: u8) -> Noise {
        let halt = value & 0b0010_0000 != 0;
        Noise {
            halt,
            length: LengthCounter { enable: !halt, ..self.length },
            envelope: Envelope {
                constant: value & 0b0001_0000 != 0,
                volume: value & 0x0F,
                current_value: value & 0x0F,
                ..self.envelope
            },
            ..self
        }
    }

    /// The channel after a write to its third register: the mode in bit 7,
    /// the index of the timer period in the low nibble.
    pub open spec fn updated_3(self, value: u8) -> Noise {
        Noise {
            feedback: FeedbackRegister {
                mode: value & 0x80 != 0,
                period: NOISE_PERIOD_TABLE[(value & 0x0F) as int],
                counter: NOISE_PERIOD_TABLE[(value & 0x0F) as int],
                ..self.feedback
            },
            ..self
        }
    }

    /// The channel after a write to its fourth register: the length index in
    /// the five top bits; the envelope starts over.
    pub open spec fn updated_4(self, value: u8) -> Noise {
        Noise {
            length: LengthCounter {
                length: crate::apu::util::LENGTH_COUNTER_TABLE[(value >> 3) as int],
                ..self.length
            },
            envelope: Envelope { start_flag: true, ..self.envelope },
            ..self
        }
    }

    /// The channel after one tick of the frame counter: on an APU clock the
    /// shift register's timer steps, on a quarter frame the envelope, on a
    /// half frame the length counter.
    pub open spec fn ticked(self, event: TimeEvent) -> Noise {
        let clocked = if event.has(TimeEvent::APUClock) {
            Noise { feedback: self.feedback.ticked(), ..self }
        } else {
            self
        };
        let quartered = if event.has(TimeEvent::QuarterFrame) {
            Noise { envelope: clocked.envelope.ticked(clocked.halt), ..clocked }
        } else {
            clocked
        };
        if event.has(TimeEvent::HalfFrame) {
            Noise { length: quartered.length.ticked(), ..quartered }
        } else {
            quartered
        }
    }

    /// What the channel sounds like: silent while halted or muted by the
    /// length counter or the shift register, else as loud as the envelope.
    pub open spec fn tone(self) -> Tone {
        Tone {
            period: self.feedback.period,
            volume: if self.halt || self.length.muted() || self.feedback.muted() {
                0u8
            } else {
                self.envelope.output()
            },
            duty: WaveForm::Noise,
        }
    }

    /// A silent channel whose shift register holds 1.
    pub open spec fn fresh() -> Noise {
        Noise {
            halt: false,
            envelope: Envelope {
                start_flag: false,
                constant: false,
                volume: 0,
                decay_level: 0,
                current_value: 0,
            },
            feedback: FeedbackRegister { register: 1, mode: false, period: 0, counter: 0 },
            length: LengthCounter { enable: false, length: 0 },
        }
    }

    pub fn new() -> (r: Self)
        ensures
            r == Noise::fresh(),
    {
        Self {
            halt: false,
            envelope: Envelope::new(),
            feedback: FeedbackRegister::new(),
            length: LengthCounter::new(),
        }
    }

    pub fn update_1(&mut self, value: u8)
        ensures
            *final(self) == old(self).updated_1(value),
            old(self).wf() ==> final(self).wf(),
    {
        proof {
            lemma_and_bounds_u8(value, 0x0F);
        }
        self.halt = value & 0b0010_0000 != 0;
        self.length.set_enable(!self.halt);
        self.envelope.set_disable(value & 0b0001_0000 != 0);
        self.envelope.set_volume(value & 0x0F);
    }

    pub fn update_2(&mut self, _value: u8)
        ensures
            *final(self) == *old(self),
    {
    }

    pub fn update_3(&mut self, value: u8)
        ensures
            *final(self) == old(self).updated_3(value),
            old(self).wf() ==> final(self).wf(),
    {
        proof {
            lemma_and_bounds_u8(value, 0x0F);
        }
        self.feedback.set_mode(value & 0x80 != 0);
        self.feedback.set_timer(NOISE_PERIOD_TABLE[(value & 0x0F) as usize])
    }

    pub fn update_4(&mut self, value: u8)
        ensures
            *final(self) == old(self).updated_4(value),
            old(self).wf() ==> final(self).wf(),
    {
        proof {
            lemma_shr_u8(value);
        }
        self.length.set_length(value >> 3);
        self.envelope.reset();
    }

    pub fn tick(&mut self, time_event: &TimeEvent)
        ensures
            *final(self) == old(self).ticked(*time_event),
            old(self).wf() ==> final(self).wf(),
    {
        if time_event.contains(TimeEvent::APUClock) {
            self.feedback.tick();
        }
        if time_event.contains(TimeEvent::QuarterFrame) {
            self.envelope.tick(self.halt);
        }
        if time_event.contains(TimeEvent::HalfFrame) {
            self.length.tick();
        }
    }

    pub fn is_halt(&self) -> (r: bool)
        ensures
            r == self.halt,
    {
        self.halt
    }

    pub fn is_end(&self) -> (r: bool)
        ensures
            r == (self.length.length == 0),
    {
        self.length.is_end()
    }

    pub fn disable(&mut self)
        ensures
            *final(self) == (Noise {
                length: LengthCounter { enable: false, length: 0 },
                ..*old(self)
            }),
    {
        self.length.disable();
    }

    pub fn value(&self) -> (r: Tone)
        ensures
            r == self.tone(),
            self.wf() ==> r.volume <= 15,
    {
        Tone {
            period: self.feedback.period,
            volume: if self.halt || self.length.is_mute() || self.feedback.is_mute() {
                0
            } else {
                self.envelope.value()
            },
            duty: WaveForm::Noise,
        }
    }
}

} // verus!
