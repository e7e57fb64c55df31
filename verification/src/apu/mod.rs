use vstd::prelude::*;
use crate::apu::noise::Noise;
use crate::apu::pulse::Pulse;
use crate::apu::triangle::Triangle;
use crate::apu::util::Tone;
use crate::device::{DeviceKind, IOHandler};
use crate::memory::{Fault, MemoryRead, MemoryWrite};

pub mod noise;
pub mod pulse;
pub mod triangle;
pub mod util;

verus! {

/// What one tick of the frame counter sets off, one bit each.
#[derive(Clone, Copy, PartialEq, Eq, Structural, Debug)]
pub struct TimeEvent {
    pub bits: u8,
}

#[allow(non_upper_case_globals)]
impl TimeEvent {
    pub const CPUClock: u8 = 0b0000_0001;

    pub const APUClock: u8 = 0b0000_0010;

    pub const QuarterFrame: u8 = 0b0000_0100;

    pub const HalfFrame: u8 = 0b0000_1000;

    pub const Interrupt: u8 = 0b0001_0000;

    /// Every bit of `mask` is set.
    pub open spec fn has(self, mask: u8) -> bool {
        self.bits & mask == mask
    }

    /// The event with the bits of `mask` switched on or off.
    pub open spec fn with(self, mask: u8, on: bool) -> TimeEvent {
        if on {
            TimeEvent { bits: self.bits | mask }
        } else {
            TimeEvent { bits: self.bits & !mask }
        }
    }

    pub fn from_bits_truncate(bits: u8) -> (r: Self)
        ensures
            r.bits == bits & 0b0001_1111,
    {
        TimeEvent { bits: bits & 0b0001_1111 }
    }

    pub fn bits(&self) -> (r: u8)
        ensures
            r == self.bits,
    {
        self.bits
    }

    pub fn contains(&self, mask: u8) -> (r: bool)
        ensures
            r == self.has(mask),
    {
        self.bits & mask == mask
    }

    pub fn set(&mut self, mask: u8, on: bool)
        ensures
            *final(self) == old(self).with(mask, on),
    {
        if on {
            self.bits = self.bits | mask;
        } else {
            self.bits = self.bits & !mask;
        }
    }
}

/// The frame counter: a timer over CPU cycles that paces envelopes, sweeps
/// and length counters. It runs through one of two sequences, of four steps
/// or of five, and starts over after the last step.
#[derive(Clone, Copy, Debug)]
pub struct FrameCounter {
    pub timer: usize,
    pub mode5: bool,
    pub interrupt: bool,
}

impl FrameCounter {
    /// The timer is inside the longer of the two sequences.
    pub open spec fn wf(self) -> bool {
        self.timer <= 37281
    }

    /// The tick on which the sequence's last step falls, which is also how
    /// many ticks the sequence takes: 29829 in four-step mode, 37281 in
    /// five-step mode.
    pub open spec fn last_step(self) -> int {
        if self.mode5 {
            37281
        } else {
            29829
        }
    }

    /// The timer after one tick: it counts up to the last step and starts
    /// over at 1.
    pub open spec fn advanced(self) -> FrameCounter {
        FrameCounter {
            timer: if self.timer >= self.last_step() {
                1
            } else {
                (self.timer + 1) as usize
            },
            ..self
        }
    }

    /// What the tick that brings the timer to its present value sets off.
    /// Every tick is a CPU clock, every second one an APU clock. Ticks 7457,
    /// 14913, 22371 and the last step are quarter frames; 14913 and the last
    /// step are half frames. In four-step mode, unless interrupts are
    /// inhibited, the last step and the tick before it raise the frame
    /// interrupt.
    pub open spec fn event(self) -> TimeEvent {
        let t = self.timer as int;
        let last = self.last_step();
        let base = (TimeEvent { bits: 0 }).with(TimeEvent::CPUClock, true).with(
            TimeEvent::APUClock,
            t % 2 == 0,
        ).with(TimeEvent::QuarterFrame, t == 7457 || t == 14913 || t == 22371 || t == last).with(
            TimeEvent::HalfFrame,
            t == 14913 || t == last,
        );
        if !self.mode5 && !self.interrupt {
            base.with(TimeEvent::Interrupt, t == last - 1 || t == last)
        } else {
            base
        }
    }

    pub fn new() -> (r: Self)
        ensures
            r == (FrameCounter { timer: 0, mode5: false, interrupt: false }),
    {
        Self { timer: 0, mode5: false, interrupt: false }
    }

    pub fn next(&mut self) -> (event: TimeEvent)
        requires
            old(self).wf(),
        ensures
            *final(self) == old(self).advanced(),
            event == final(self).event(),
            final(self).wf(),
    {
        let mut event = TimeEvent::from_bits_truncate(0x00);
        assert(0u8 & 0b0001_1111 == 0) by (bit_vector);
        let last: usize = if self.mode5 {
            37281
        } else {
            29829
        };
        self.timer = if self.timer >= last {
            1
        } else {
            self.timer + 1
        };
        event.set(TimeEvent::CPUClock, true);
        event.set(TimeEvent::APUClock, self.timer % 2 == 0);
        event.set(
            TimeEvent::QuarterFrame,
            self.timer == 7457 || self.timer == 14913 || self.timer == 22371 || self.timer == last,
        );
        event.set(TimeEvent::HalfFrame, self.timer == 14913 || self.timer == last);
        if !self.mode5 && !self.interrupt {
            event.set(TimeEvent::Interrupt, self.timer == last - 1 || self.timer == last);
        }
        event
    }

    pub fn set(&mut self, mode5: bool, interrupt: bool)
        ensures
            *final(self) == (FrameCounter { timer: 0, mode5, interrupt }),
    {
        self.mode5 = mode5;
        self.interrupt = interrupt;
        self.timer = 0;
    }
}

/// The sound processor: two pulse channels, a triangle, a noise channel and
/// the frame counter that paces them.
#[derive(Clone, Copy, Debug)]
pub struct Apu {
    pub pulse_1: Pulse,
    pub pulse_2: Pulse,
    pub triangle: Triangle,
    pub noise: Noise,
    pub ctrl: u8,
    pub status: u8,
    pub frame_counter: FrameCounter,
    pub cpu_cycles: usize,
}

impl Apu {
    /// Every channel and the frame counter are well formed.
    pub open spec fn wf(self) -> bool {
        self.pulse_1.wf() && self.pulse_2.wf() && self.triangle.wf() && self.noise.wf()
            && self.frame_counter.wf()
    }

    /// The processor after one CPU cycle: the frame counter ticks, every
    /// channel that is not halted takes the tick, and a frame interrupt is
    /// noted in bit 6 of the status.
    pub open spec fn ticked(self) -> Apu {
        let frame_counter = self.frame_counter.advanced();
        let event = frame_counter.event();
        Apu {
            frame_counter,
            pulse_1: if self.pulse_1.halt {
                self.pulse_1
            } else {
                self.pulse_1.ticked(event)
            },
            pulse_2: if self.pulse_2.halt {
                self.pulse_2
            } else {
                self.pulse_2.ticked(event)
            },
            triangle: if self.triangle.halt {
                self.triangle
            } else {
                self.triangle.ticked(event)
            },
            noise: if self.noise.halt {
                self.noise
            } else {
                self.noise.ticked(event)
            },
            status: if event.has(TimeEvent::Interrupt) {
                self.status | 0x40
            } else {
                self.status
            },
            ..self
        }
    }

    /// The processor after `n` CPU cycles.
    pub open spec fn ticked_n(self, n: nat) -> Apu
        decreases n,
    {
        if n == 0 {
            self
        } else {
            self.ticked_n((n - 1) as nat).ticked()
        }
    }

    /// The status with bit `mask` showing whether a length counter is still
    /// running.
    pub open spec fn status_bit(status: u8, mask: u8, running: bool) -> u8 {
        if running {
            status | mask
        } else {
            status & !mask
        }
    }

    /// The status with its four low bits brought up to date: one bit per
    /// channel, set while the channel's length counter is not at zero.
    pub open spec fn refreshed(self) -> Apu {
        Apu {
            status: Self::status_bit(
                Self::status_bit(
                    Self::status_bit(
                        Self::status_bit(self.status, 0b0000_0001, self.pulse_1.length.length != 0),
                        0b0000_0010,
                        self.pulse_2.length.length != 0,
                    ),
                    0b0000_0100,
                    self.triangle.length.length != 0,
                ),
                0b0000_1000,
                self.noise.length.length != 0,
            ),
            ..self
        }
    }

    /// The processor after `cpu_cycle` CPU cycles. The count of cycles run
    /// wraps round at the machine's word.
    pub open spec fn stepped(self, cpu_cycle: u16) -> Apu {
        (Apu {
            cpu_cycles: crate::bits::wrapped_count(self.cpu_cycles, cpu_cycle),
            ..self
        }).ticked_n(cpu_cycle as nat).refreshed()
    }

    /// What the four channels sound like: pulse 1, pulse 2, triangle, noise.
    pub open spec fn tones(self) -> Seq<Tone> {
        seq![self.pulse_1.tone(), self.pulse_2.tone(), self.triangle.tone(), self.noise.tone()]
    }

    /// The answer to a bus read, and the processor after it. 0x4015 gives
    /// the status and clears the frame interrupt in it; 0x4017 is left to
    /// whoever else answers; nothing else can be read.
    pub open spec fn read_at(self, address: u16) -> (Result<MemoryRead, Fault>, Apu) {
        if address == 0x4015 {
            (Ok(MemoryRead::Value(self.status)), Apu { status: self.status & 0b1011_1111, ..self })
        } else if address == 0x4017 {
            (Ok(MemoryRead::Pass), self)
        } else {
            (Err(Fault::WriteOnlyRegister(address)), self)
        }
    }

    /// The processor after a write to 0x4015: every channel whose bit is
    /// clear is switched off, which empties its length counter.
    pub open spec fn channels_switched(self, value: u8) -> Apu {
        let off = crate::apu::util::LengthCounter { enable: false, length: 0 };
        Apu {
            ctrl: value,
            pulse_1: if value & 0x01 == 0 {
                Pulse { length: off, ..self.pulse_1 }
            } else {
                self.pulse_1
            },
            pulse_2: if value & 0x02 == 0 {
                Pulse { length: off, ..self.pulse_2 }
            } else {
                self.pulse_2
            },
            triangle: if value & 0x04 == 0 {
                Triangle { length: off, ..self.triangle }
            } else {
                self.triangle
            },
            noise: if value & 0x08 == 0 {
                Noise { length: off, ..self.noise }
            } else {
                self.noise
            },
            ..self
        }
    }

    /// The answer to a bus write, and the processor after it. Four
    /// registers each go to pulse 1 (from 0x4000), pulse 2, the triangle and
    /// the noise channel; 0x4010..0x4013 are passed on; 0x4015 switches
    /// channels; 0x4017 sets the frame counter's mode from bit 7 and its
    /// interrupt inhibit from bit 6 and starts it over; anything else is
    /// blocked.
    pub open spec fn written(self, address: u16, value: u8) -> (MemoryWrite, Apu) {
        if address == 0x4000 {
            (MemoryWrite::Value(value), Apu { pulse_1: self.pulse_1.updated_1(value), ..self })
        } else if address == 0x4001 {
            (MemoryWrite::Value(value), Apu { pulse_1: self.pulse_1.updated_2(value), ..self })
        } else if address == 0x4002 {
            (MemoryWrite::Value(value), Apu { pulse_1: self.pulse_1.updated_3(value), ..self })
        } else if address == 0x4003 {
            (MemoryWrite::Value(value), Apu { pulse_1: self.pulse_1.updated_4(value), ..self })
        } else if address == 0x4004 {
            (MemoryWrite::Value(value), Apu { pulse_2: self.pulse_2.updated_1(value), ..self })
        } else if address == 0x4005 {
            (MemoryWrite::Value(value), Apu { pulse_2: self.pulse_2.updated_2(value), ..self })
        } else if address == 0x4006 {
            (MemoryWrite::Value(value), Apu { pulse_2: self.pulse_2.updated_3(value), ..self })
        } else if address == 0x4007 {
            (MemoryWrite::Value(value), Apu { pulse_2: self.pulse_2.updated_4(value), ..self })
        } else if address == 0x4008 {
            (MemoryWrite::Value(value), Apu { triangle: self.triangle.updated_1(value), ..self })
        } else if address == 0x4009 {
            (MemoryWrite::Value(value), self)
        } else if address == 0x400A {
            (
                MemoryWrite::Value(value),
                Apu {
                    triangle: Triangle {
                        sequence: self.triangle.sequence.with_timer_low(value),
                        ..self.triangle
                    },
                    ..self
                },
            )
        } else if address == 0x400B {
            (MemoryWrite::Value(value), Apu { triangle: self.triangle.updated_4(value), ..self })
        } else if address == 0x400C {
            (MemoryWrite::Value(value), Apu { noise: self.noise.updated_1(value), ..self })
        } else if address == 0x400D {
            (MemoryWrite::Value(value), self)
        } else if address == 0x400E {
            (MemoryWrite::Value(value), Apu { noise: self.noise.updated_3(value), ..self })
        } else if address == 0x400F {
            (MemoryWrite::Value(value), Apu { noise: self.noise.updated_4(value), ..self })
        } else if 0x4010 <= address <= 0x4013 {
            (MemoryWrite::Pass, self)
        } else if address == 0x4015 {
            (MemoryWrite::Value(value), self.channels_switched(value))
        } else if address == 0x4017 {
            (
                MemoryWrite::Value(value),
                Apu {
                    frame_counter: FrameCounter {
                        timer: 0,
                        mode5: value & 0b1000_0000 != 0,
                        interrupt: value & 0b0100_0000 != 0,
                    },
                    ..self
                },
            )
        } else {
            (MemoryWrite::Block, self)
        }
    }

    /// The processor at power-on: every channel silent, the frame counter
    /// in four-step mode at tick 0. The first pulse channel is the one that
    /// sweeps down by one more.
    pub open spec fn power_on() -> Apu {
        Apu {
            pulse_1: Pulse::fresh(1),
            pulse_2: Pulse::fresh(0),
            triangle: Triangle::fresh(),
            noise: Noise::fresh(),
            ctrl: 0,
            status: 0,
            frame_counter: FrameCounter { timer: 0, mode5: false, interrupt: false },
            cpu_cycles: 0,
        }
    }

    pub fn new() -> (r: Self)
        ensures
            r == Apu::power_on(),
            r.wf(),
    {
        Self {
            pulse_1: Pulse::new(1),
            pulse_2: Pulse::new(0),
            triangle: Triangle::new(),
            noise: Noise::new(),
            ctrl: 0,
            status: 0,
            frame_counter: FrameCounter::new(),
            cpu_cycles: 0,
        }
    }

    /// Brings bit `mask` of the status up to date.
    fn note_running(&mut self, mask: u8, running: bool)
        ensures
            *final(self) == (Apu {
                status: Self::status_bit(old(self).status, mask, running),
                ..*old(self)
            }),
    {
        if running {
            self.status = self.status | mask;
        } else {
            self.status = self.status & !mask;
        }
    }

    pub fn step(&mut self, cpu_cycle: u16) -> (tones: [Tone; 4])
        requires
            old(self).wf(),
        ensures
            *final(self) == old(self).stepped(cpu_cycle),
            tones@ == final(self).tones(),
            forall|i: int| 0 <= i < 4 ==> (#[trigger] tones@[i]).volume <= 15,
            final(self).wf(),
    {
        self.cpu_cycles = self.cpu_cycles.wrapping_add(cpu_cycle as usize);
        let ghost start = *self;

        let mut i: u16 = 0;
        while i < cpu_cycle
            invariant
                i <= cpu_cycle,
                self.wf(),
                *self == start.ticked_n(i as nat),
            decreases cpu_cycle - i,
        {
            let event = self.frame_counter.next();
            if !self.pulse_1.is_halt() {
                self.pulse_1.tick(&event);
            }
            if !self.pulse_2.is_halt() {
                self.pulse_2.tick(&event);
            }
            if !self.triangle.is_halt() {
                self.triangle.tick(&event);
            }
            if !self.noise.is_halt() {
                self.noise.tick(&event);
            }
            if event.contains(TimeEvent::Interrupt) {
                self.status = self.status | 0x40;
            }
            i += 1;
        }
        self.note_running(0b0000_0001, !self.pulse_1.is_end());
        self.note_running(0b0000_0010, !self.pulse_2.is_end());
        self.note_running(0b0000_0100, !self.triangle.is_end());
        self.note_running(0b0000_1000, !self.noise.is_end());

        let p1_volume = self.pulse_1.value();
        let p2_volume = self.pulse_2.value();
        let tri_volume = self.triangle.value();
        let noise_volume = self.noise.value();
        let tones = [p1_volume, p2_volume, tri_volume, noise_volume];
        assert(tones@ =~= self.tones());
        tones
    }
}

impl IOHandler for Apu {
    type State = Apu;

    open spec fn device_kind() -> DeviceKind {
        DeviceKind::Apu
    }

    open spec fn state(&self) -> Apu {
        *self
    }

    open spec fn answer_read(state: Apu, address: u16) -> (Result<MemoryRead, Fault>, Apu) {
        state.read_at(address)
    }

    open spec fn answer_write(state: Apu, address: u16, value: u8) -> (
        Result<MemoryWrite, Fault>,
        Apu,
    ) {
        (Ok(state.written(address, value).0), state.written(address, value).1)
    }

    fn kind() -> (k: DeviceKind) {
        DeviceKind::Apu
    }

    fn read(&mut self, address: u16) -> (r: Result<MemoryRead, Fault>)
        ensures
            old(self).wf() ==> final(self).wf(),
    {
        if address == 0x4015 {
            let value = self.status;
            self.status = self.status & 0b1011_1111;
            Ok(MemoryRead::Value(value))
        } else if address == 0x4017 {
            Ok(MemoryRead::Pass)
        } else {
            Err(Fault::WriteOnlyRegister(address))
        }
    }

    fn write(&mut self, address: u16, value: u8) -> (r: Result<MemoryWrite, Fault>)
        ensures
            old(self).wf() ==> final(self).wf(),
    {
        if address == 0x4000 {
            self.pulse_1.update_1(value);
            Ok(MemoryWrite::Value(value))
        } else if address == 0x4001 {
            self.pulse_1.update_2(value);
            Ok(MemoryWrite::Value(value))
        } else if address == 0x4002 {
            self.pulse_1.update_3(value);
            Ok(MemoryWrite::Value(value))
        } else if address == 0x4003 {
            self.pulse_1.update_4(value);
            Ok(MemoryWrite::Value(value))
        } else if address == 0x4004 {
            self.pulse_2.update_1(value);
            Ok(MemoryWrite::Value(value))
        } else if address == 0x4005 {
            self.pulse_2.update_2(value);
            Ok(MemoryWrite::Value(value))
        } else if address == 0x4006 {
            self.pulse_2.update_3(value);
            Ok(MemoryWrite::Value(value))
        } else if address == 0x4007 {
            self.pulse_2.update_4(value);
            Ok(MemoryWrite::Value(value))
        } else if address == 0x4008 {
            self.triangle.update_1(value);
            Ok(MemoryWrite::Value(value))
        } else if address == 0x4009 {
            self.triangle.update_2(value);
            Ok(MemoryWrite::Value(value))
        } else if address == 0x400A {
            self.triangle.update_3(value);
            Ok(MemoryWrite::Value(value))
        } else if address == 0x400B {
            self.triangle.update_4(value);
            Ok(MemoryWrite::Value(value))
        } else if address == 0x400C {
            self.noise.update_1(value);
            Ok(MemoryWrite::Value(value))
        } else if address == 0x400D {
            self.noise.update_2(value);
            Ok(MemoryWrite::Value(value))
        } else if address == 0x400E {
            self.noise.update_3(value);
            Ok(MemoryWrite::Value(value))
        } else if address == 0x400F {
            self.noise.update_4(value);
            Ok(MemoryWrite::Value(value))
        } else if 0x4010 <= address && address <= 0x4013 {
            Ok(MemoryWrite::Pass)
        } else if address == 0x4015 {
            self.ctrl = value;
            if value & 0x01 == 0 {
                self.pulse_1.disable();
            }
            if value & 0x02 == 0 {
                self.pulse_2.disable();
            }
            if value & 0x04 == 0 {
                self.triangle.disable();
            }
            if value & 0x08 == 0 {
                self.noise.disable();
            }
            Ok(MemoryWrite::Value(value))
        } else if address == 0x4017 {
            self.frame_counter.set(value & 0b1000_0000 != 0, value & 0b0100_0000 != 0);
            Ok(MemoryWrite::Value(value))
        } else {
            Ok(MemoryWrite::Block)
        }
    }
}

} // verus!
