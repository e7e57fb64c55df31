use rustynes::apu::noise::{FeedbackRegister, Noise, NOISE_PERIOD_TABLE};
use rustynes::apu::pulse::Pulse;
use rustynes::apu::triangle::{LinearCounter, Triangle};
use rustynes::apu::util::{
    Envelope, LengthCounter, Sequence, Sweep, Tone, WaveForm, LENGTH_COUNTER_TABLE,
};
use rustynes::apu::{Apu, FrameCounter, TimeEvent};
use rustynes::device::IOHandler;
use rustynes::memory::{Fault, MemoryRead, MemoryWrite};

fn reference_lfsr(state: u16, mode: bool) -> u16 {
    let tap = if mode { 6 } else { 1 };
    let feedback = (state ^ (state >> tap)) & 1;
    (state >> 1) | (feedback << 14)
}

#[test]
fn noise_shift_register_follows_the_known_sequence() {
    for mode in [false, true] {
        let mut register = FeedbackRegister::new();
        register.set_mode(mode);
        assert_eq!(register.register, 1);
        let mut expected = 1u16;
        for _ in 0..32767 {
            register.tick();
            expected = reference_lfsr(expected, mode);
            assert_eq!(register.register, expected);
            assert!(register.register != 0 && register.register < 0x8000);
        }
        if !mode {
            // the long sequence comes round after 32767 shifts
            assert_eq!(register.register, 1);
        }
    }
}

#[test]
fn noise_shift_register_comes_round_only_at_its_period() {
    for (mode, period) in [(false, 32767u32), (true, 93u32)] {
        let mut register = FeedbackRegister::new();
        register.set_mode(mode);
        for shifts in 1..=period {
            register.tick();
            assert_eq!(register.register == 1, shifts == period);
        }
    }
}

#[test]
fn noise_shift_register_first_steps() {
    let mut register = FeedbackRegister::new();
    let mut seen = Vec::new();
    for _ in 0..5 {
        register.tick();
        seen.push(register.register);
    }
    assert_eq!(seen, vec![0x4000, 0x2000, 0x1000, 0x0800, 0x0400]);

    let mut register = FeedbackRegister::new();
    register.register = 0x0040;
    register.set_mode(true);
    register.tick();
    assert_eq!(register.register, 0x4020);
    let mut register = FeedbackRegister::new();
    register.register = 0x0002;
    register.tick();
    assert_eq!(register.register, 0x4001);
}

#[test]
fn noise_channel_is_silent_while_bit_zero_is_set() {
    let mut noise = Noise::new();
    noise.update_1(0b0001_1010); // constant volume 10, not halted
    noise.update_4(0b0000_1000); // length index 1
    assert_eq!(noise.feedback.register, 1);
    assert!(noise.feedback.is_mute());
    assert_eq!(noise.value(), Tone { period: 0, volume: 0, duty: WaveForm::Noise });
    noise.feedback.tick();
    assert!(!noise.feedback.is_mute());
    assert_eq!(noise.value(), Tone { period: 0, volume: 10, duty: WaveForm::Noise });
    noise.disable();
    assert!(noise.is_end());
    assert_eq!(noise.value().volume, 0);
}

#[test]
fn noise_timer_period_comes_from_the_table() {
    let mut noise = Noise::new();
    noise.update_3(0x8F);
    assert!(noise.feedback.mode);
    assert_eq!(noise.feedback.period, 4068);
    assert_eq!(noise.feedback.counter, 4068);
    assert_eq!(NOISE_PERIOD_TABLE[0], 4);
    // whatever the period, the register shifts on every clock
    noise.feedback.register = 1;
    noise.feedback.tick();
    assert_eq!(noise.feedback.register, 0x4000);
    noise.feedback.tick();
    assert_eq!(noise.feedback.register, 0x2000);
    assert_eq!(noise.feedback.period, 4068);
    noise.update_2(0xFF);
    assert_eq!(noise.feedback.register, 0x2000);
    // and so it does through the channel, on APU clocks only
    let apu_clock = TimeEvent::from_bits_truncate(TimeEvent::APUClock);
    let cpu_clock = TimeEvent::from_bits_truncate(TimeEvent::CPUClock);
    noise.tick(&cpu_clock);
    assert_eq!(noise.feedback.register, 0x2000);
    noise.tick(&apu_clock);
    assert_eq!(noise.feedback.register, 0x1000);
}

#[test]
fn tone_volumes_stay_within_fifteen() {
    let mut apu = Apu::new();
    for value in [0x00u8, 0x0F, 0x1F, 0x3F, 0xFF, 0x9A] {
        apu.write(0x4000, value).unwrap();
        apu.write(0x4004, value).unwrap();
        apu.write(0x4008, value).unwrap();
        apu.write(0x400C, value).unwrap();
        apu.write(0x4002, 0x40).unwrap();
        apu.write(0x4006, 0x40).unwrap();
        apu.write(0x400A, 0x40).unwrap();
        apu.write(0x4003, 0x08).unwrap();
        apu.write(0x4007, 0x08).unwrap();
        apu.write(0x400B, 0x08).unwrap();
        apu.write(0x400F, 0x08).unwrap();
        for cycles in [0u16, 1, 7457, 14913] {
            for tone in apu.step(cycles) {
                assert!(tone.volume <= 15);
            }
        }
    }
    apu.write(0x4000, 0x1F).unwrap();
    assert_eq!(apu.step(0)[0].volume, 15);
}

#[test]
fn envelope_decays_from_fifteen() {
    let mut envelope = Envelope::new();
    envelope.set_volume(1);
    envelope.reset();
    envelope.tick(false);
    assert_eq!(envelope.value(), 15);
    envelope.tick(false); // divider 1 -> 0
    assert_eq!(envelope.value(), 15);
    envelope.tick(false); // divider reloaded, decay 14
    assert_eq!(envelope.value(), 14);
    for _ in 0..(2 * 14) {
        envelope.tick(false);
    }
    assert_eq!(envelope.value(), 0);
    // not halted: the decay starts over
    envelope.tick(false);
    envelope.tick(false);
    assert_eq!(envelope.value(), 15);

    let mut envelope = Envelope::new();
    envelope.tick(true);
    assert_eq!(envelope.value(), 0);

    let mut envelope = Envelope::new();
    envelope.set_volume(9);
    envelope.set_disable(true);
    assert_eq!(envelope.value(), 9);
}

#[test]
fn length_counter_table_and_countdown() {
    assert_eq!(LENGTH_COUNTER_TABLE[0], 10);
    assert_eq!(LENGTH_COUNTER_TABLE[1], 254);
    assert_eq!(LENGTH_COUNTER_TABLE[31], 30);
    let mut length = LengthCounter::new();
    assert!(length.is_mute() && length.is_end());
    length.set_length(3);
    assert!(length.is_mute());
    length.set_enable(true);
    assert!(!length.is_mute());
    length.tick();
    assert!(!length.is_end());
    length.tick();
    assert!(length.is_end() && length.is_mute());
    length.tick();
    assert_eq!(length.length, 0);
    length.set_length(0);
    length.disable();
    assert_eq!(length.length, 0);
    assert!(!length.enable);
}

#[test]
fn sequence_steps_when_the_timer_runs_out() {
    let mut sequence = Sequence::new(8);
    sequence.set_timer_low(0x02);
    sequence.set_timer_high(0x00);
    assert_eq!(sequence.period(), 2);
    assert!(sequence.is_mute());
    sequence.tick();
    sequence.tick();
    assert_eq!(sequence.value(), 0);
    sequence.tick();
    assert_eq!(sequence.value(), 1);
    for _ in 0..(3 * 7) {
        sequence.tick();
    }
    assert_eq!(sequence.value(), 0);
    sequence.set_timer_low(0xFD);
    sequence.set_timer_high(0x07);
    assert_eq!(sequence.period(), 0x07FD);
    assert!(!sequence.is_mute());
    sequence.tick();
    sequence.reset();
    assert_eq!(sequence.value(), 0);
}

#[test]
fn sweep_targets_and_muting() {
    let mut sweep = Sweep::new(1);
    sweep.set_enable(true);
    sweep.set_period(2);
    sweep.set_shift(1);
    assert_eq!(sweep.period, 3);
    sweep.change(0x0100);
    assert_eq!(sweep.change, 0x0080);
    assert!(!sweep.is_mute());
    sweep.change(0x0600);
    assert!(sweep.is_mute()); // 0x600 + 0x300 > 0x7FF
    sweep.change(0x0007);
    assert!(sweep.is_mute()); // period below 8

    // the divider is reloaded first, then the period moves
    let mut sweep = Sweep::new(1);
    sweep.set_enable(true);
    sweep.set_period(2);
    sweep.set_shift(1);
    sweep.reset();
    sweep.change(0x0100);
    assert_eq!(sweep.tick(0x0100), 0x0100);
    assert_eq!(sweep.current_value, 3);
    assert_eq!(sweep.tick(0x0100), 0x0180);
    assert_eq!(sweep.current_value, 2);

    // downwards: the first pulse channel takes one more off
    sweep.set_negate(true);
    assert_eq!(sweep.tick(0x0100), 0x007F);
    let mut second = Sweep::new(0);
    second.set_enable(true);
    second.set_period(0);
    second.set_shift(1);
    second.set_negate(true);
    second.reset();
    second.change(0x0100);
    second.tick(0x0100);
    assert_eq!(second.tick(0x0100), 0x0080);
    // a disabled sweep leaves the period alone
    second.set_enable(false);
    assert_eq!(second.tick(0x0100), 0x0100);
    // and it mutes when the target is out of range
    assert_eq!(second.change, 0x0080);
    second.tick(0x0800);
    assert!(!second.is_mute()); // downwards: 0x800 - 0x80
    second.set_negate(false);
    second.tick(0x0780);
    assert!(second.is_mute()); // upwards: 0x780 + 0x80
    assert!(second.is_muting(0x0780));
    second.tick(0x077F);
    assert!(!second.is_mute());
    second.tick(0x0007);
    assert!(second.is_mute());
}

#[test]
fn pulse_registers_and_tone() {
    let mut pulse = Pulse::new(1);
    assert_eq!(pulse.value(), Tone { period: 0, volume: 0, duty: WaveForm::Pulse12 });
    pulse.update_1(0b1001_0111); // duty 2, constant volume 7
    pulse.update_3(0xFD);
    pulse.update_4(0b0000_1000); // length index 1, timer high 0
    assert_eq!(pulse.sequence.period(), 0x00FD);
    assert_eq!(pulse.length.length, 254);
    assert!(!pulse.is_halt());
    assert!(!pulse.is_end());
    assert_eq!(pulse.value(), Tone { period: 0x00FD, volume: 7, duty: WaveForm::Pulse50 });
    pulse.update_1(0b1111_0111);
    assert!(pulse.is_halt());
    assert_eq!(pulse.value(), Tone { period: 0x00FD, volume: 0, duty: WaveForm::Pulse75 });
    pulse.update_1(0b0101_0111);
    assert_eq!(pulse.value().duty, WaveForm::Pulse25);
    pulse.update_2(0b1010_1011);
    assert!(pulse.sweep.enable);
    assert_eq!(pulse.sweep.period, 3);
    assert!(pulse.sweep.negate);
    assert_eq!(pulse.sweep.shift, 3);
    assert!(pulse.sweep.reload_flag);
    pulse.disable();
    assert!(pulse.is_end());
    assert_eq!(pulse.value().volume, 0);
}

#[test]
fn pulse_sweep_writes_the_period_back() {
    let mut pulse = Pulse::new(0);
    pulse.update_1(0b0001_1111);
    pulse.update_3(0x00);
    pulse.update_4(0b0000_1001); // period 0x100
    pulse.update_2(0b1000_0001); // enabled, period 0, shift 1
    let apu_clock = TimeEvent::from_bits_truncate(TimeEvent::APUClock);
    let half_frame = TimeEvent::from_bits_truncate(TimeEvent::HalfFrame);
    pulse.tick(&apu_clock);
    assert_eq!(pulse.sweep.change, 0x0080);
    pulse.tick(&half_frame); // reloads the divider
    assert_eq!(pulse.sequence.period(), 0x0100);
    pulse.tick(&half_frame);
    assert_eq!(pulse.sequence.period(), 0x0180);
    assert_eq!(pulse.length.length, LENGTH_COUNTER_TABLE[1] - 2);
}

#[test]
fn triangle_sequencer_needs_both_counters() {
    let mut triangle = Triangle::new();
    triangle.update_1(0x05); // not halted, linear reload value 5
    triangle.update_3(0x00);
    triangle.update_4(0b0000_1000); // length index 1, period 0
    triangle.update_2(0xFF);
    let apu_clock = TimeEvent::from_bits_truncate(TimeEvent::APUClock);
    let quarter = TimeEvent::from_bits_truncate(TimeEvent::QuarterFrame);
    // the linear counter is still at zero
    triangle.tick(&apu_clock);
    assert_eq!(triangle.sequence.value(), 0);
    triangle.tick(&quarter); // reload
    assert_eq!(triangle.linear.counter, 5);
    triangle.tick(&apu_clock);
    assert_eq!(triangle.sequence.value(), 1);
    for _ in 0..5 {
        triangle.tick(&quarter);
    }
    assert_eq!(triangle.linear.counter, 0);
    triangle.tick(&apu_clock);
    assert_eq!(triangle.sequence.value(), 1);
    // period below 8: silent
    assert_eq!(triangle.value(), Tone { period: 0, volume: 0, duty: WaveForm::Triangle });
    triangle.update_3(0x10);
    assert_eq!(triangle.value(), Tone { period: 0x10, volume: 15, duty: WaveForm::Triangle });
    triangle.disable();
    assert!(triangle.is_end());
    assert_eq!(triangle.value().volume, 0);

    let mut linear = LinearCounter::new();
    assert!(linear.is_mute());
    linear.set_enable(true);
    assert!(linear.is_mute());
    linear.set_counter(2);
    linear.reset();
    linear.tick();
    assert!(!linear.is_mute());
    linear.tick();
    linear.tick();
    linear.tick();
    assert!(linear.is_mute());
}

#[test]
fn frame_counter_events() {
    let mut counter = FrameCounter::new();
    let mut quarters = Vec::new();
    let mut halves = Vec::new();
    let mut interrupts = Vec::new();
    for tick in 1..=29829usize {
        let event = counter.next();
        assert_eq!(counter.timer, tick);
        assert!(event.contains(TimeEvent::CPUClock));
        assert_eq!(event.contains(TimeEvent::APUClock), tick % 2 == 0);
        if event.contains(TimeEvent::QuarterFrame) {
            quarters.push(tick);
        }
        if event.contains(TimeEvent::HalfFrame) {
            halves.push(tick);
        }
        if event.contains(TimeEvent::Interrupt) {
            interrupts.push(tick);
        }
    }
    assert_eq!(quarters, vec![7457, 14913, 22371, 29829]);
    assert_eq!(halves, vec![14913, 29829]);
    assert_eq!(interrupts, vec![29828, 29829]);
    // the sequence starts over after its last step
    let event = counter.next();
    assert_eq!(counter.timer, 1);
    assert_eq!(event.bits(), TimeEvent::CPUClock);

    // interrupts inhibited
    counter.set(false, true);
    assert_eq!(counter.timer, 0);
    for _ in 0..29829 {
        assert!(!counter.next().contains(TimeEvent::Interrupt));
    }

    // five-step mode
    counter.set(true, false);
    let mut quarters = Vec::new();
    let mut halves = Vec::new();
    for tick in 1..=37281usize {
        let event = counter.next();
        assert!(!event.contains(TimeEvent::Interrupt));
        if event.contains(TimeEvent::QuarterFrame) {
            quarters.push(tick);
        }
        if event.contains(TimeEvent::HalfFrame) {
            halves.push(tick);
        }
    }
    assert_eq!(quarters, vec![7457, 14913, 22371, 37281]);
    assert_eq!(halves, vec![14913, 37281]);
    assert_eq!(counter.timer, 37281);
    counter.next();
    assert_eq!(counter.timer, 1);
}

#[test]
fn time_event_bits() {
    let mut event = TimeEvent::from_bits_truncate(0xFF);
    assert_eq!(event.bits(), 0x1F);
    event.set(TimeEvent::HalfFrame, false);
    assert_eq!(event.bits(), 0x17);
    assert!(!event.contains(TimeEvent::HalfFrame));
    event.set(TimeEvent::HalfFrame, true);
    assert!(event.contains(TimeEvent::HalfFrame | TimeEvent::Interrupt));
}

#[test]
fn apu_status_register() {
    let mut apu = Apu::new();
    assert_eq!(apu.read(0x4015), Ok(MemoryRead::Value(0)));
    assert_eq!(apu.read(0x4017), Ok(MemoryRead::Pass));
    assert_eq!(apu.read(0x4000), Err(Fault::WriteOnlyRegister(0x4000)));

    // give pulse 1 and the triangle a note
    assert_eq!(apu.write(0x4003, 0b0000_1000), Ok(MemoryWrite::Value(0b0000_1000)));
    assert_eq!(apu.write(0x400B, 0b0000_1000), Ok(MemoryWrite::Value(0b0000_1000)));
    let tones = apu.step(1);
    assert_eq!(apu.status & 0x0F, 0b0101);
    assert_eq!(tones[0].duty, WaveForm::Pulse12);
    assert_eq!(tones[2].duty, WaveForm::Triangle);
    assert_eq!(tones[3].duty, WaveForm::Noise);
    assert_eq!(apu.cpu_cycles, 1);

    // switching the triangle off empties its length counter
    assert_eq!(apu.write(0x4015, 0b0000_1011), Ok(MemoryWrite::Value(0b0000_1011)));
    apu.step(1);
    assert_eq!(apu.status & 0x0F, 0b0001);
    assert_eq!(apu.ctrl, 0b0000_1011);

    assert_eq!(apu.write(0x4010, 1), Ok(MemoryWrite::Pass));
    assert_eq!(apu.write(0x4013, 1), Ok(MemoryWrite::Pass));
    assert_eq!(apu.write(0x4014, 1), Ok(MemoryWrite::Block));
    assert_eq!(apu.write(0x4016, 1), Ok(MemoryWrite::Block));
}

#[test]
fn apu_frame_interrupt_is_cleared_by_reading_the_status() {
    let mut apu = Apu::new();
    apu.step(29827);
    assert_eq!(apu.status & 0x40, 0);
    apu.step(1);
    assert_eq!(apu.status & 0x40, 0x40);
    assert_eq!(apu.read(0x4015), Ok(MemoryRead::Value(0x40)));
    assert_eq!(apu.read(0x4015), Ok(MemoryRead::Value(0x00)));

    // five-step mode raises none
    let mut apu = Apu::new();
    apu.write(0x4017, 0x80).unwrap();
    assert!(apu.frame_counter.mode5);
    apu.step(40000);
    assert_eq!(apu.status & 0x40, 0);
    // nor does four-step mode with the inhibit bit
    let mut apu = Apu::new();
    apu.write(0x4017, 0x40).unwrap();
    assert!(apu.frame_counter.interrupt);
    apu.step(30000);
    assert_eq!(apu.status & 0x40, 0);
}

#[test]
fn apu_length_counters_run_down_on_half_frames() {
    let mut apu = Apu::new();
    apu.write(0x4000, 0b0001_1111).unwrap();
    apu.write(0x4002, 0x40).unwrap();
    apu.write(0x4003, 0b0001_1000).unwrap(); // length index 3: two half frames
    let tones = apu.step(14912);
    assert_eq!(tones[0], Tone { period: 0x0040, volume: 15, duty: WaveForm::Pulse12 });
    assert_eq!(apu.status & 1, 1);
    apu.step(1);
    assert_eq!(apu.pulse_1.length.length, 1);
    let tones = apu.step(29829 - 14913);
    assert_eq!(apu.pulse_1.length.length, 0);
    assert_eq!(apu.status & 1, 0);
    assert_eq!(tones[0].volume, 0);
}
