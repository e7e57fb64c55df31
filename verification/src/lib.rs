use vstd::prelude::*;
use crate::device::{DevHandler, DeviceKind};
use crate::memory::{registered, BusState};
use crate::ppu::PpuState;

pub mod apu;
pub mod bits;
pub mod cartridge;
pub mod cpu;
pub mod device;
pub mod joypad;
pub mod laws;
pub mod memory;
pub mod ppu;

pub use crate::apu::util::{Tone, WaveForm};
pub use crate::apu::Apu;
pub use crate::cartridge::Rom;
pub use crate::cpu::Cpu2A03;
pub use crate::device::Device;
pub use crate::joypad::{Joypad, JoypadButton};
pub use crate::memory::{Fault, MemoryBus};
pub use crate::ppu::frame::{Frame, HEIGHT, WIDTH};
pub use crate::ppu::Ppu;

verus! {

/// The console: the processor, the bus with everything on it, and the count
/// of CPU cycles run.
pub struct Nes {
    pub cpu: Cpu2A03,
    pub mmu: MemoryBus,
    pub cycles: usize,
}

/// What the console holds.
pub struct NesState {
    pub cpu: Cpu2A03,
    pub bus: BusState,
    pub cycles: usize,
}

/// What one step leaves for the host to do: the CPU cycles that the step
/// took, whether a frame was finished and composed, and what the four sound
/// channels sound like now.
pub struct StepReport {
    pub cycles: u16,
    pub frame_ready: bool,
    pub tones: [Tone; 4],
}

impl View for Nes {
    type V = NesState;

    open spec fn view(&self) -> NesState {
        NesState { cpu: self.cpu, bus: self.mmu@, cycles: self.cycles }
    }
}

/// The token under which a primary device of the given kind is registered.
pub open spec fn primary(kind: DeviceKind) -> DevHandler {
    DevHandler { kind, mediator: false }
}

/// The handler table of the console: the cartridge from 0x6000 up, the
/// picture processor over its registers and the DMA register, the sound
/// processor over its registers, and the controllers at 0x4016 and 0x4017,
/// where they are asked after the sound processor.
pub open spec fn console_handlers() -> Map<u16, Seq<DevHandler>> {
    let cartridge = registered(Map::empty(), 0x6000, 0x10000, primary(DeviceKind::Cartridge));
    let registers = registered(cartridge, 0x2000, 0x4000, primary(DeviceKind::Ppu));
    let dma = registered(registers, 0x4014, 0x4015, primary(DeviceKind::Ppu));
    let channels = registered(dma, 0x4000, 0x4014, primary(DeviceKind::Apu));
    let status = registered(channels, 0x4015, 0x4016, primary(DeviceKind::Apu));
    let counter = registered(status, 0x4017, 0x4018, primary(DeviceKind::Apu));
    registered(counter, 0x4016, 0x4018, primary(DeviceKind::Joypad))
}

impl NesState {
    /// The sound processor and the picture processor's clock are well
    /// formed, and there is a full pattern table to draw from.
    pub open spec fn wf(self) -> bool {
        self.bus.apu.wf() && self.bus.ppu.wf() && self.bus.ppu.chr_rom.len() >= 0x2000
    }

    /// The console as it is switched on with the cartridge that `raw` loads
    /// as: the picture processor draws from a copy of the cartridge's
    /// character memory, everything is wired to the bus, and the processor
    /// has been reset through it.
    pub open spec fn power_on(raw: Seq<u8>) -> NesState {
        let rom = cartridge::loaded(raw);
        let wired = BusState {
            rom,
            ppu: PpuState::power_on(rom.chr_rom(), rom.info.mirroring, rom.chr_ram()),
            handlers: console_handlers(),
            ..BusState::power_on()
        };
        let (cpu, bus) = Cpu2A03::reset_from(wired);
        NesState { cpu, bus, cycles: 0 }
    }

    /// The cycles that the processor's part of a step takes, and the console
    /// after it: a pending NMI is taken; else the instruction at the program
    /// counter is run, unless its opcode names none.
    pub open spec fn cpu_stepped(self) -> (Result<u8, Fault>, NesState) {
        if self.bus.ppu.nmi_interrupt {
            let taken = BusState { ppu: PpuState { nmi_interrupt: false, ..self.bus.ppu }, ..self.bus };
            let (cpu, bus) = self.cpu.interrupted(taken);
            (Ok(2u8), NesState { cpu, bus, ..self })
        } else {
            let (opcode, fetched) = self.bus.read(self.cpu.pc);
            let instruction = cpu::table::opcode_entry(opcode);
            if instruction.execute is UDF {
                (
                    Err(Fault::IllegalOpcode(opcode, self.cpu.pc)),
                    NesState { bus: fetched, ..self },
                )
            } else {
                let (cycles, cpu, bus) = self.cpu.executed(fetched, instruction);
                (Ok(cycles), NesState { cpu, bus, ..self })
            }
        }
    }

    /// The cycles for which a sprite DMA holds the processor up: 513, and
    /// one more when it starts on an odd cycle.
    pub open spec fn dma_stall(self) -> u16 {
        if self.cycles % 2 == 1 {
            514
        } else {
            513
        }
    }

    /// The console after the picture and sound processors have caught up
    /// with `elapsed` CPU cycles, and whether a frame was finished, in which
    /// case the picture is composed.
    pub open spec fn caught_up(self, elapsed: u16) -> (bool, NesState) {
        let (crossed, ppu) = self.bus.ppu.step(elapsed);
        let apu = self.bus.apu.stepped(elapsed);
        (
            crossed,
            NesState {
                bus: BusState {
                    ppu: if crossed {
                        PpuState { frame: ppu.rendered(), ..ppu }
                    } else {
                        ppu
                    },
                    apu,
                    ..self.bus
                },
                cycles: crate::bits::wrapped_count(self.cycles, elapsed),
                ..self
            },
        )
    }
}

impl Nes {
    /// Builds a console around the cartridge in `raw`.
    pub fn new(raw: &Vec<u8>) -> (r: Result<Self, ()>)
        requires
            cartridge::complete(raw@),
        ensures
            r.is_err() <==> cartridge::rejected(raw@),
            r.is_ok() ==> r.unwrap()@ == NesState::power_on(raw@) && r.unwrap()@.wf(),
    {
        let rom = match Rom::new(raw) {
            Ok(rom) => rom,
            Err(_) => {
                return Err(());
            },
        };
        let mut cpu = Cpu2A03::new();
        let mut mmu = MemoryBus::new();

        let ppu = Ppu::new(rom.chr_rom(), rom.info.mirroring, rom.chr_ram());
        mmu.rom = Device::new(rom);
        mmu.ppu = Device::new(ppu);

        let cartridge = mmu.rom.handler();
        let picture = mmu.ppu.handler();
        let sound = mmu.apu.handler();
        let pads = mmu.pad.handler();
        let ghost empty = mmu@.handlers;
        assert(empty == Map::<u16, Seq<DevHandler>>::empty());
        assert(cartridge == primary(DeviceKind::Cartridge) && picture == primary(DeviceKind::Ppu)
            && sound == primary(DeviceKind::Apu) && pads == primary(DeviceKind::Joypad));

        mmu.register((0x6000, 0xFFFF), cartridge);

        mmu.register((0x2000, 0x3FFF), picture);
        mmu.register((0x4014, 0x4014), picture);
        let ghost dma = mmu@.handlers;
        assert(dma == registered(
            registered(registered(empty, 0x6000, 0x10000, cartridge), 0x2000, 0x4000, picture),
            0x4014,
            0x4015,
            picture,
        ));

        mmu.register((0x4000, 0x4013), sound);
        mmu.register((0x4015, 0x4015), sound);
        mmu.register((0x4017, 0x4017), sound);
        let ghost counter = mmu@.handlers;
        assert(counter == registered(
            registered(registered(dma, 0x4000, 0x4014, sound), 0x4015, 0x4016, sound),
            0x4017,
            0x4018,
            sound,
        ));

        mmu.register((0x4016, 0x4017), pads);

        proof {
            let loaded = cartridge::loaded(raw@);
            assert(mmu@.handlers == registered(counter, 0x4016, 0x4018, pads));
            assert(mmu@.handlers == console_handlers());
            assert(mmu@.ppu == PpuState::power_on(
                loaded.chr_rom(),
                loaded.info.mirroring,
                loaded.chr_ram(),
            ));
            assert(mmu@.ppu.chr_rom.len() >= 0x2000);
            assert(mmu@ == (BusState {
                rom: loaded,
                ppu: mmu@.ppu,
                handlers: console_handlers(),
                ..BusState::power_on()
            }));
        }
        cpu.reset(&mut mmu);

        Ok(Self { cpu, mmu, cycles: 0 })
    }

    /// Runs the processor's part of a step.
    pub fn step_cpu(&mut self) -> (r: Result<u8, Fault>)
        ensures
            (r, final(self)@) == old(self)@.cpu_stepped(),
            final(self)@.bus.follows(old(self)@.bus),
    {
        if self.mmu.ppu.inner.nmi() {
            Ok(self.cpu.nmi(&mut self.mmu))
        } else {
            let pc = self.cpu.pc;
            let opcode = self.cpu.fetch(&mut self.mmu);
            let instruction = self.cpu.decode(opcode);
            if !instruction.is_legal() {
                return Err(Fault::IllegalOpcode(opcode, pc));
            }
            Ok(self.cpu.execute(&mut self.mmu, instruction))
        }
    }

    /// Lets the picture and sound processors catch up with `elapsed` CPU
    /// cycles, and composes the picture if that finished a frame.
    pub fn catch_up(&mut self, elapsed: u16) -> (r: StepReport)
        requires
            old(self)@.wf(),
        ensures
            r.cycles == elapsed,
            (r.frame_ready, final(self)@) == old(self)@.caught_up(elapsed),
            r.tones@ == final(self)@.bus.apu.tones(),
            final(self)@.wf(),
    {
        self.cycles = self.cycles.wrapping_add(elapsed as usize);
        let crossed = self.mmu.ppu.inner.step(elapsed);
        let tones = self.mmu.apu.inner.step(elapsed);
        if crossed {
            proof {
                ppu::render::lemma_full_pattern_tables_back_every_tile(
                    self.mmu.ppu.inner@.scene(),
                );
            }
            self.mmu.ppu.inner.render();
        }
        StepReport { cycles: elapsed, frame_ready: crossed, tones }
    }

    /// Advances the console by one instruction, or by the taking of one
    /// interrupt, and by the work that the picture and sound processors do
    /// in that time.
    ///
    /// A fault that the bus has latched, before the step or in it, or an
    /// opcode that names no instruction, ends the step with that fault; the
    /// picture and sound processors are then not advanced. Otherwise the
    /// step takes the cycles of the instruction and, where the instruction
    /// ran a sprite DMA, those of the DMA.
    pub fn step(&mut self) -> (r: Result<StepReport, Fault>)
        requires
            old(self)@.wf(),
        ensures
            final(self)@.wf(),
            old(self)@.bus.fault.is_some() ==> r == Err::<StepReport, Fault>(
                old(self)@.bus.fault.unwrap(),
            ) && final(self)@ == old(self)@,
            old(self)@.bus.fault.is_none() ==> ({
                let (ran, after) = old(self)@.cpu_stepped();
                match ran {
                    Err(fault) => r == Err::<StepReport, Fault>(fault) && final(self)@ == after,
                    Ok(cycles) => match after.bus.fault {
                        Some(fault) => r == Err::<StepReport, Fault>(fault) && final(self)@
                            == after,
                        None => {
                            let settled = NesState {
                                bus: BusState {
                                    ppu: PpuState { dma_enable: false, ..after.bus.ppu },
                                    ..after.bus
                                },
                                ..after
                            };
                            let elapsed = if after.bus.ppu.dma_enable {
                                (cycles + after.dma_stall()) as u16
                            } else {
                                cycles as u16
                            };
                            &&& r.is_ok()
                            &&& r.unwrap().cycles == elapsed
                            &&& (r.unwrap().frame_ready, final(self)@) == settled.caught_up(
                                elapsed,
                            )
                            &&& r.unwrap().tones@ == final(self)@.bus.apu.tones()
                        },
                    },
                }
            }),
    {
        if let Some(fault) = self.mmu.fault() {
            return Err(fault);
        }
        let cycles = match self.step_cpu() {
            Ok(cycles) => cycles,
            Err(fault) => {
                return Err(fault);
            },
        };
        if let Some(fault) = self.mmu.fault() {
            return Err(fault);
        }
        let stall: u16 = if self.mmu.ppu.inner.dma_enable() {
            if self.cycles % 2 == 1 {
                514
            } else {
                513
            }
        } else {
            0
        };
        Ok(self.catch_up(cycles as u16 + stall))
    }

    /// Takes over what the host has sampled of the two controllers, if it
    /// differs from what the port holds.
    pub fn update_pads(&mut self, first: JoypadButton, second: JoypadButton)
        ensures
            final(self)@ == (NesState {
                bus: BusState {
                    pad: joypad::JoypadState {
                        status: seq![first, second],
                        ..old(self)@.bus.pad
                    },
                    ..old(self)@.bus
                },
                ..old(self)@
            }),
    {
        if first.bits() != self.mmu.pad.inner.status[0].bits() || second.bits()
            != self.mmu.pad.inner.status[1].bits() {
            self.mmu.pad.inner.update(first, second);
        } else {
            assert(self.mmu.pad.inner.status@ =~= seq![first, second]);
        }
    }

    /// Tells whether the console is well formed, as every console is that
    /// was built by `new` and moved on by `step` alone.
    pub fn is_sound(&self) -> (r: bool)
        ensures
            r == self@.wf(),
    {
        let apu = &self.mmu.apu.inner;
        let ppu = &self.mmu.ppu.inner;
        apu.pulse_1.duty < 4 && apu.pulse_1.sweep.shift < 16 && apu.pulse_1.sequence.sequence != 0
            && apu.pulse_2.duty < 4 && apu.pulse_2.sweep.shift < 16
            && apu.pulse_2.sequence.sequence != 0 && apu.triangle.sequence.sequence != 0
            && apu.pulse_1.envelope.volume <= 15 && apu.pulse_1.envelope.decay_level <= 15
            && apu.pulse_2.envelope.volume <= 15 && apu.pulse_2.envelope.decay_level <= 15
            && apu.noise.envelope.volume <= 15 && apu.noise.envelope.decay_level <= 15
            && apu.frame_counter.timer <= 37281 && ppu.cycles < 341 && ppu.scanline < 262
            && ppu.chr_rom.len() >= 0x2000
    }

    /// The picture as last composed.
    pub fn frame(&self) -> (r: &Frame)
        ensures
            r.data@ == self@.bus.ppu.frame,
    {
        &self.mmu.ppu.inner.frame
    }

    /// The first fault that the bus has latched, if any.
    pub fn fault(&self) -> (r: Option<Fault>)
        ensures
            r == self@.bus.fault,
    {
        self.mmu.fault()
    }
}

} // verus!
