use vstd::prelude::*;
use crate::bits::lemma_low_mask_u16;
use crate::cartridge::Mirroring;
use crate::cpu::opcode::{branch_outcome, branch_target};
use crate::cpu::{offset_address, page_crossed, AddressingMode, Cpu2A03};
use crate::memory::{ram_index, BusState, Fault, MemoryRead};
use crate::ppu::addr::lemma_two_writes_load_address;
use crate::ppu::{nametable_offset, palette_twin, PpuState};

verus! {

/// No handler is registered for `address`.
pub open spec fn unhandled(bus: BusState, address: u16) -> bool {
    !bus.handlers.contains_key(address) || bus.handlers[address].len() == 0
}

/// A read of an address that no handler has taken returns the byte in the
/// backing memory and changes nothing.
pub proof fn lemma_plain_read(bus: BusState, address: u16)
    requires
        unhandled(bus, address),
    ensures
        bus.read(address) == (bus.memory[ram_index(address)], bus),
{
    reveal(BusState::read_as);
}

/// A write to an address that no handler has taken changes the backing
/// memory at that address, folded into the internal RAM where it lies in
/// the first 8 KiB, and nothing else.
pub proof fn lemma_plain_write(bus: BusState, address: u16, value: u8)
    requires
        unhandled(bus, address),
    ensures
        bus.write(address, value) == (BusState {
            memory: bus.memory.update(ram_index(address), value),
            ..bus
        }),
{
    reveal(BusState::write);
}

/// Internal RAM is mirrored every 2 KiB: a byte written anywhere in the
/// first 8 KiB is read back from every address there that differs by a
/// multiple of 0x800, as long as no handler has taken either address.
pub proof fn lemma_ram_mirror(bus: BusState, written: u16, read: u16, value: u8)
    requires
        bus.memory.len() == 0x10000,
        written < 0x2000,
        read < 0x2000,
        written % 0x800 == read % 0x800,
        unhandled(bus, written),
        unhandled(bus, read),
    ensures
        bus.write(written, value).read(read).0 == value,
{
    lemma_plain_write(bus, written, value);
    lemma_plain_read(bus.write(written, value), read);
    lemma_low_mask_u16(written);
    lemma_low_mask_u16(read);
}

/// A branch that is not taken costs two cycles; a taken one costs one more,
/// and yet one more where its target lies on another page than the
/// instruction after the branch.
pub proof fn lemma_branch_cost(cpu: Cpu2A03, bus: BusState, mode: AddressingMode, taken: bool)
    ensures
        !taken ==> branch_outcome(cpu, bus, mode, taken).cycles == 2,
        taken ==> branch_outcome(cpu, bus, mode, taken).cycles == 2 + 1 + (if page_crossed(
            branch_target(cpu.pc, mode.operand(cpu, bus).0) as int,
            offset_address(cpu.pc, 2) as int,
        ) {
            1int
        } else {
            0int
        }),
        branch_outcome(cpu, bus, mode, taken).branched == taken,
{
    reveal(branch_outcome);
}

/// Nametable mirroring: under horizontal mirroring the second logical
/// table repeats the first and the fourth the third; under vertical
/// mirroring the third repeats the first and the fourth the second.
pub proof fn lemma_nametable_mirroring(offset: u16)
    requires
        offset < 0x400,
    ensures
        nametable_offset(Mirroring::Horizontal, (0x2400 + offset) as u16) == nametable_offset(
            Mirroring::Horizontal,
            (0x2000 + offset) as u16,
        ),
        nametable_offset(Mirroring::Horizontal, (0x2C00 + offset) as u16) == nametable_offset(
            Mirroring::Horizontal,
            (0x2800 + offset) as u16,
        ),
        nametable_offset(Mirroring::Vertical, (0x2800 + offset) as u16) == nametable_offset(
            Mirroring::Vertical,
            (0x2000 + offset) as u16,
        ),
        nametable_offset(Mirroring::Vertical, (0x2C00 + offset) as u16) == nametable_offset(
            Mirroring::Vertical,
            (0x2400 + offset) as u16,
        ),
        nametable_offset(Mirroring::Horizontal, (0x2000 + offset) as u16) == offset,
        nametable_offset(Mirroring::Vertical, (0x2000 + offset) as u16) == offset,
{
}

/// What mirroring means for the data port: with the address register at
/// two nametable addresses that fold onto the same byte, a read refills the
/// buffer with the same value, and a write at one is seen at the other.
pub proof fn lemma_mirrored_reads_agree(ppu: PpuState, first: u16, second: u16, value: u8)
    requires
        0x2000 <= first < 0x3F00,
        0x2000 <= second < 0x3F00,
        nametable_offset(ppu.mirroring, first) == nametable_offset(ppu.mirroring, second),
        nametable_offset(ppu.mirroring, first) < ppu.vram.len(),
    ensures
        ({
            let at_first = PpuState {
                addr_reg: crate::ppu::addr::AddressRegister { value: first, ..ppu.addr_reg },
                ..ppu
            };
            let at_second = PpuState {
                addr_reg: crate::ppu::addr::AddressRegister { value: second, ..ppu.addr_reg },
                ..ppu
            };
            let written = PpuState {
                addr_reg: crate::ppu::addr::AddressRegister { value: second, ..ppu.addr_reg },
                ..at_first.write_data(value)
            };
            &&& at_first.read_data().1.internal_data_buf == at_second.read_data().1.internal_data_buf
            &&& written.read_data().1.internal_data_buf == value
        }),
{
}

/// The palette's twins: a write through the data port to an entry that is
/// a multiple of four, wherever in 0x3F00..0x4000 the address names it,
/// also lands in the entry sixteen away, so that a read of either returns
/// the byte written.
pub proof fn lemma_palette_twins(ppu: PpuState, write_at: u16, read_at: u16, value: u8)
    requires
        ppu.palette_table.len() == 32,
        0x3F00 <= write_at < 0x4000,
        0x3F00 <= read_at < 0x4000,
        (write_at - 0x3F00) % 4 == 0,
        (read_at - 0x3F00) % 0x20 == (write_at - 0x3F00) % 0x20 || (read_at - 0x3F00) % 0x20
            == palette_twin((write_at - 0x3F00) % 0x20),
        ppu.addr_reg.value == write_at,
    ensures
        ({
            let written = ppu.write_data(value);
            let index = (write_at - 0x3F00) % 0x20;
            let reading = PpuState {
                addr_reg: crate::ppu::addr::AddressRegister { value: read_at, ..written.addr_reg },
                ..written
            };
            &&& written.palette_table[index] == value
            &&& written.palette_table[palette_twin(index)] == value
            &&& reading.read_data().0 == value
        }),
{
}

/// The byte that the picture processor holds at a data-port address below
/// the palette: character memory below 0x2000, a nametable byte above, where
/// 0x3000..0x3F00 repeats the nametables.
pub open spec fn data_at(ppu: PpuState, address: u16) -> u8 {
    if address < 0x2000 {
        ppu.chr_rom[address as int]
    } else {
        ppu.vram[nametable_offset(ppu.mirroring, address)]
    }
}

/// Two writes to 0x2006 behind a reset latch load the address register with
/// `(hi << 8 | lo) & 0x3FFF` and change nothing else.
pub proof fn lemma_address_loaded(ppu: PpuState, hi: u8, lo: u8)
    requires
        ppu.addr_reg.hi_ptr,
    ensures
        ppu.write(0x2006, hi).1.write(0x2006, lo).1 == (PpuState {
            addr_reg: crate::ppu::addr::AddressRegister {
                value: (((hi as u16) << 8) | (lo as u16)) & 0x3FFF,
                hi_ptr: true,
            },
            ..ppu
        }),
{
    lemma_two_writes_load_address(ppu.addr_reg, hi, lo);
    let once = ppu.write(0x2006, hi).1;
    assert(once == (PpuState { addr_reg: ppu.addr_reg.updated(hi), ..ppu }));
}

/// Below the palette a read of 0x2007 returns what the buffer held, fills
/// the buffer from the address, and moves the address on.
pub proof fn lemma_buffered_read(ppu: PpuState)
    requires
        ppu.addr_reg.value < 0x3F00,
        ppu.data_fault(false).is_none(),
    ensures
        ppu.read(0x2007).0 == Ok::<MemoryRead, Fault>(MemoryRead::Value(ppu.internal_data_buf)),
        ppu.read(0x2007).1 == (PpuState {
            internal_data_buf: data_at(ppu, ppu.addr_reg.value),
            addr_reg: ppu.addr_reg.incremented(ppu.ctrl_reg.increment()),
            ..ppu
        }),
{
}

/// The data port's delay: after the address was loaded with two writes to
/// 0x2006, high byte first, behind a reset latch, the first read of 0x2007
/// returns what the buffer held, and the second returns the byte at the
/// address loaded, `(hi << 8 | lo) & 0x3FFF`; each read moves the address
/// on by the control register's increment. This holds below the palette,
/// where the data port can be used at both addresses.
pub proof fn lemma_data_read_is_delayed(ppu: PpuState, hi: u8, lo: u8)
    requires
        ppu.addr_reg.hi_ptr,
        ({
            let loaded = ppu.write(0x2006, hi).1.write(0x2006, lo).1;
            let moved = loaded.read(0x2007).1;
            &&& loaded.addr_reg.value < 0x3F00
            &&& loaded.data_fault(false).is_none()
            &&& moved.addr_reg.value < 0x3F00
            &&& moved.data_fault(false).is_none()
        }),
    ensures
        ({
            let address = (((hi as u16) << 8) | (lo as u16)) & 0x3FFF;
            let loaded = ppu.write(0x2006, hi).1.write(0x2006, lo).1;
            let (first, buffered) = loaded.read(0x2007);
            let (second, after) = buffered.read(0x2007);
            &&& loaded.addr_reg.value == address
            &&& first == Ok::<MemoryRead, Fault>(MemoryRead::Value(ppu.internal_data_buf))
            &&& second == Ok::<MemoryRead, Fault>(MemoryRead::Value(data_at(ppu, address)))
            &&& after.addr_reg == loaded.addr_reg.incremented(ppu.ctrl_reg.increment()).incremented(
                ppu.ctrl_reg.increment(),
            )
        }),
{
    lemma_address_loaded(ppu, hi, lo);
    let loaded = ppu.write(0x2006, hi).1.write(0x2006, lo).1;
    lemma_buffered_read(loaded);
    lemma_buffered_read(loaded.read(0x2007).1);
}

/// A value on the stack: a byte or a word.
pub enum StackValue {
    Byte(u8),
    Word(u16),
}

/// How many bytes the values take on the stack.
pub open spec fn stack_bytes(values: Seq<StackValue>) -> nat
    decreases values.len(),
{
    if values.len() == 0 {
        0
    } else {
        stack_bytes(values.drop_last()) + (match values.last() {
            StackValue::Byte(_) => 1nat,
            StackValue::Word(_) => 2nat,
        })
    }
}

/// The processor and the bus after the values were pushed, the first one
/// first.
pub open spec fn pushed_all(cpu: Cpu2A03, bus: BusState, values: Seq<StackValue>) -> (
    Cpu2A03,
    BusState,
)
    decreases values.len(),
{
    if values.len() == 0 {
        (cpu, bus)
    } else {
        let (before, below) = pushed_all(cpu, bus, values.drop_last());
        match values.last() {
            StackValue::Byte(value) => before.pushed8(below, value),
            StackValue::Word(value) => before.pushed16(below, value),
        }
    }
}

/// Whether popping as many bytes and words as `values` holds, the last one
/// first, brings back each of them, and the processor and the bus after the
/// pops.
pub open spec fn popped_all(cpu: Cpu2A03, bus: BusState, values: Seq<StackValue>) -> (
    bool,
    Cpu2A03,
    BusState,
)
    decreases values.len(),
{
    if values.len() == 0 {
        (true, cpu, bus)
    } else {
        match values.last() {
            StackValue::Byte(value) => {
                let (popped, after, next) = cpu.popped8(bus);
                let (rest, last, end) = popped_all(after, next, values.drop_last());
                (popped == value && rest, last, end)
            },
            StackValue::Word(value) => {
                let (popped, after, next) = cpu.popped16(bus);
                let (rest, last, end) = popped_all(after, next, values.drop_last());
                (popped == value && rest, last, end)
            },
        }
    }
}

/// No handler has taken any address of the stack page.
pub open spec fn stack_unhandled(handlers: Map<u16, Seq<crate::device::DevHandler>>) -> bool {
    forall|a: u16|
        0x0100 <= a < 0x0200 ==> !(#[trigger] handlers.contains_key(a)) || handlers[a].len() == 0
}

/// The stack page is plain memory: no handler has taken any of its
/// addresses.
pub open spec fn plain_stack(bus: BusState) -> bool {
    bus.memory.len() == 0x10000 && stack_unhandled(bus.handlers)
}

/// The address of the stack cell that lies `depth` bytes below the cell at
/// which a stack pointer of `top` points.
pub open spec fn depth_cell(top: u8, depth: int) -> int {
    0x0100 + (top + 256 - depth) % 256
}

/// The stack pointer after `bytes` bytes were pushed from `top`.
pub open spec fn sunk(top: u8, bytes: int) -> u8 {
    ((top + 256 - bytes) % 256) as u8
}

/// The values lie in `memory` as pushes from a stack pointer of `top` leave
/// them: each below the ones before it, a word with its high byte on top.
pub open spec fn laid(memory: Seq<u8>, top: u8, values: Seq<StackValue>) -> bool
    decreases values.len(),
{
    if values.len() == 0 {
        true
    } else {
        let depth = stack_bytes(values.drop_last()) as int;
        &&& laid(memory, top, values.drop_last())
        &&& match values.last() {
            StackValue::Byte(value) => memory[depth_cell(top, depth)] == value,
            StackValue::Word(value) => memory[depth_cell(top, depth)] == (value >> 8) as u8
                && memory[depth_cell(top, depth + 1)] == (value & 0xFF) as u8,
        }
    }
}

/// Stack cells at different depths within the page are different cells, and
/// the cell at the pointer that `depth` pushes leave is the cell at that
/// depth.
pub proof fn lemma_cells(top: u8, depth: int, other: int)
    requires
        0 <= depth < 256,
        0 <= other < 256,
    ensures
        depth != other ==> depth_cell(top, depth) != depth_cell(top, other),
        0x0100 <= depth_cell(top, depth) < 0x0200,
        depth_cell(sunk(top, depth), 0) == depth_cell(top, depth),
        sunk(sunk(top, depth), 1) == sunk(top, depth + 1),
        depth_cell(sunk(top, depth + 1), -1) == depth_cell(top, depth),
        sunk(sunk(top, depth + 1), -1) == sunk(top, depth),
        sunk(top, 0) == top,
{
}

/// On a plain stack a push writes the byte into the cell at the stack
/// pointer and moves the pointer down.
pub proof fn lemma_push_on_plain_stack(cpu: Cpu2A03, bus: BusState, value: u8)
    requires
        plain_stack(bus),
    ensures
        cpu.pushed8(bus, value) == (
            Cpu2A03 { sp: sunk(cpu.sp, 1), ..cpu },
            BusState { memory: bus.memory.update(depth_cell(cpu.sp, 0), value), ..bus },
        ),
        plain_stack(cpu.pushed8(bus, value).1),
{
    let address = cpu.stack_address();
    assert(bus.handlers.contains_key(address) ==> bus.handlers[address].len() == 0);
    lemma_plain_write(bus, address, value);
    lemma_low_mask_u16(address);
}

/// On a plain stack a pop moves the pointer up and reads the cell that it
/// then points at; the bus stays as it is.
pub proof fn lemma_pop_on_plain_stack(cpu: Cpu2A03, bus: BusState)
    requires
        plain_stack(bus),
    ensures
        cpu.popped8(bus) == (
            bus.memory[depth_cell(cpu.sp, -1)],
            Cpu2A03 { sp: sunk(cpu.sp, -1), ..cpu },
            bus,
        ),
{
    let up = Cpu2A03 { sp: crate::cpu::wrap8(cpu.sp + 1), ..cpu };
    let address = up.stack_address();
    assert(bus.handlers.contains_key(address) ==> bus.handlers[address].len() == 0);
    lemma_plain_read(bus, address);
    lemma_low_mask_u16(address);
}

/// Whether values lie in a memory depends only on the cells that they take.
pub proof fn lemma_laid_frame(first: Seq<u8>, second: Seq<u8>, top: u8, values: Seq<StackValue>)
    requires
        forall|depth: int|
            0 <= depth < stack_bytes(values) ==> first[#[trigger] depth_cell(top, depth)]
                == second[depth_cell(top, depth)],
    ensures
        laid(first, top, values) == laid(second, top, values),
    decreases values.len(),
{
    if values.len() > 0 {
        let depth = stack_bytes(values.drop_last()) as int;
        lemma_laid_frame(first, second, top, values.drop_last());
        assert(first[depth_cell(top, depth)] == second[depth_cell(top, depth)]);
        if values.last() is Word {
            assert(first[depth_cell(top, depth + 1)] == second[depth_cell(top, depth + 1)]);
        }
    }
}

/// Values that lie in a memory still lie there after a byte was written
/// into a cell below them.
pub proof fn lemma_laid_under_write(
    memory: Seq<u8>,
    top: u8,
    values: Seq<StackValue>,
    depth: int,
    value: u8,
)
    requires
        memory.len() == 0x10000,
        stack_bytes(values) <= depth < 256,
        laid(memory, top, values),
    ensures
        laid(memory.update(depth_cell(top, depth), value), top, values),
{
    let written = memory.update(depth_cell(top, depth), value);
    lemma_cells(top, depth, depth);
    assert forall|shallow: int| 0 <= shallow < stack_bytes(values) implies memory[#[trigger] depth_cell(
        top,
        shallow,
    )] == written[depth_cell(top, shallow)] by {
        lemma_cells(top, shallow, depth);
        lemma_cells(top, shallow, shallow);
    }
    lemma_laid_frame(memory, written, top, values);
}

/// One more value pushed on a plain stack on which values lie leaves them
/// all lying there.
pub proof fn lemma_push_lays_value(
    cpu: Cpu2A03,
    bus: BusState,
    top: u8,
    values: Seq<StackValue>,
)
    requires
        values.len() > 0,
        plain_stack(bus),
        stack_bytes(values) <= 256,
        cpu.sp == sunk(top, stack_bytes(values.drop_last()) as int),
        laid(bus.memory, top, values.drop_last()),
    ensures
        ({
            let (after, next) = match values.last() {
                StackValue::Byte(value) => cpu.pushed8(bus, value),
                StackValue::Word(value) => cpu.pushed16(bus, value),
            };
            &&& after == (Cpu2A03 { sp: sunk(top, stack_bytes(values) as int), ..cpu })
            &&& next == (BusState { memory: next.memory, ..bus })
            &&& plain_stack(next)
            &&& laid(next.memory, top, values)
        }),
{
    let below = values.drop_last();
    let depth = stack_bytes(below) as int;
    lemma_cells(top, depth, depth);
    match values.last() {
        StackValue::Byte(value) => {
            lemma_push_on_plain_stack(cpu, bus, value);
            lemma_laid_under_write(bus.memory, top, below, depth, value);
        },
        StackValue::Word(value) => {
            let high = (value >> 8) as u8;
            let low = (value & 0xFF) as u8;
            lemma_cells(top, depth + 1, depth);
            lemma_push_on_plain_stack(cpu, bus, high);
            let (middle, between) = cpu.pushed8(bus, high);
            lemma_push_on_plain_stack(middle, between, low);
            lemma_laid_under_write(bus.memory, top, below, depth, high);
            lemma_laid_under_write(between.memory, top, below, depth + 1, low);
        },
    }
}

/// Pushes on a plain stack lay the values down below the starting stack
/// pointer and change nothing but memory and the stack pointer.
pub proof fn lemma_pushes_lay_values(cpu: Cpu2A03, bus: BusState, values: Seq<StackValue>)
    requires
        plain_stack(bus),
        stack_bytes(values) <= 256,
    ensures
        ({
            let (after, next) = pushed_all(cpu, bus, values);
            &&& after == (Cpu2A03 { sp: sunk(cpu.sp, stack_bytes(values) as int), ..cpu })
            &&& next == (BusState { memory: next.memory, ..bus })
            &&& plain_stack(next)
            &&& laid(next.memory, cpu.sp, values)
        }),
    decreases values.len(),
{
    if values.len() > 0 {
        lemma_pushes_lay_values(cpu, bus, values.drop_last());
        let (before, under) = pushed_all(cpu, bus, values.drop_last());
        lemma_push_lays_value(before, under, cpu.sp, values);
    } else {
        lemma_cells(cpu.sp, 0, 0);
    }
}

/// On a plain stack on which values lie, with the stack pointer just below
/// them, a pop brings back the last of them and leaves the pointer just
/// below the others.
pub proof fn lemma_pop_returns_value(cpu: Cpu2A03, bus: BusState, top: u8, values: Seq<StackValue>)
    requires
        values.len() > 0,
        plain_stack(bus),
        stack_bytes(values) <= 256,
        cpu.sp == sunk(top, stack_bytes(values) as int),
        laid(bus.memory, top, values),
    ensures
        ({
            let after = Cpu2A03 { sp: sunk(top, stack_bytes(values.drop_last()) as int), ..cpu };
            match values.last() {
                StackValue::Byte(value) => cpu.popped8(bus) == (value, after, bus),
                StackValue::Word(value) => cpu.popped16(bus) == (value, after, bus),
            }
        }),
{
    let depth = stack_bytes(values.drop_last()) as int;
    lemma_cells(top, depth, depth);
    match values.last() {
        StackValue::Byte(value) => {
            lemma_pop_on_plain_stack(cpu, bus);
        },
        StackValue::Word(value) => {
            lemma_cells(top, depth + 1, depth);
            lemma_pop_on_plain_stack(cpu, bus);
            let (low, middle, between) = cpu.popped8(bus);
            lemma_pop_on_plain_stack(middle, between);
            crate::bits::lemma_split_word(value);
        },
    }
}

/// Pops on a plain stack bring back the values that lie below the stack
/// pointer, the last one first, and leave the pointer where the first one
/// began.
pub proof fn lemma_pops_return_values(
    cpu: Cpu2A03,
    bus: BusState,
    top: u8,
    values: Seq<StackValue>,
)
    requires
        plain_stack(bus),
        stack_bytes(values) <= 256,
        cpu.sp == sunk(top, stack_bytes(values) as int),
        laid(bus.memory, top, values),
    ensures
        popped_all(cpu, bus, values) == (true, Cpu2A03 { sp: top, ..cpu }, bus),
    decreases values.len(),
{
    if values.len() > 0 {
        lemma_pop_returns_value(cpu, bus, top, values);
        let after = Cpu2A03 { sp: sunk(top, stack_bytes(values.drop_last()) as int), ..cpu };
        lemma_pops_return_values(after, bus, top, values.drop_last());
    } else {
        lemma_cells(top, 0, 0);
    }
}

/// The stack is last-in, first-out: after any values were pushed, bytes and
/// words mixed, pops in the reverse order bring each of them back and leave
/// the processor, stack pointer and all, as it was before the pushes. This
/// holds while the stack page is plain memory and the values fit into its
/// 256 bytes.
pub proof fn lemma_stack_is_lifo(cpu: Cpu2A03, bus: BusState, values: Seq<StackValue>)
    requires
        plain_stack(bus),
        stack_bytes(values) <= 256,
    ensures
        ({
            let (pushed, full) = pushed_all(cpu, bus, values);
            popped_all(pushed, full, values) == (true, cpu, full)
        }),
{
    lemma_pushes_lay_values(cpu, bus, values);
    let (pushed, full) = pushed_all(cpu, bus, values);
    lemma_pops_return_values(pushed, full, cpu.sp, values);
}

/// No handler has taken any address of the page.
pub open spec fn plain_page(bus: BusState, page: u8) -> bool {
    bus.memory.len() == 0x10000 && forall|a: u16|
        a / 256 == page ==> !(#[trigger] bus.handlers.contains_key(a)) || bus.handlers[a].len() == 0
}

/// Byte `i` of a page of plain memory.
pub open spec fn page_byte(memory: Seq<u8>, page: u8, i: int) -> u8 {
    memory[ram_index((page * 256 + i) as u16)]
}

/// A read that a busy device makes of an address that no handler has taken
/// returns the byte in the backing memory and changes nothing.
pub proof fn lemma_plain_nested_read(bus: BusState, active: crate::device::DeviceKind, address: u16)
    requires
        unhandled(bus, address),
    ensures
        bus.read_as(Some(active), address) == (bus.memory[ram_index(address)], bus),
{
    reveal(BusState::read_as);
}

/// The first `n` bytes of a sprite DMA from a plain page: byte `i` of the
/// page lies `i` places on from where the sprite address began, wrapping
/// within sprite memory; the sprite address has moved on by `n`; and nothing
/// else on the bus has changed.
pub proof fn lemma_dma_walk_copies(bus: BusState, page: u8, n: nat)
    requires
        plain_page(bus, page),
        bus.ppu.oam_data.len() == 256,
        n <= 256,
    ensures
        ({
            let walked = bus.dma_walk((page * 256) as u16, n);
            let start = bus.ppu.oam_addr_reg as int;
            &&& walked == (BusState {
                ppu: PpuState {
                    oam_data: walked.ppu.oam_data,
                    oam_addr_reg: ((start + n) % 256) as u8,
                    ..bus.ppu
                },
                ..bus
            })
            &&& walked.ppu.oam_data.len() == 256
            &&& forall|i: int|
                0 <= i < n ==> walked.ppu.oam_data[(start + i) % 256] == #[trigger] page_byte(
                    bus.memory,
                    page,
                    i,
                )
        }),
    decreases n,
{
    let base = (page * 256) as u16;
    let start = bus.ppu.oam_addr_reg as int;
    if n > 0 {
        let done = (n - 1) as nat;
        lemma_dma_walk_copies(bus, page, done);
        let before = bus.dma_walk(base, done);
        let address = ((base + done) % 0x10000) as u16;
        assert(address == page * 256 + done);
        assert(address / 256 == page);
        assert(before.handlers.contains_key(address) ==> before.handlers[address].len() == 0);
        lemma_plain_nested_read(before, crate::device::DeviceKind::Ppu, address);
        let walked = bus.dma_walk(base, n);
        assert(walked.ppu == before.ppu.oam_stored(bus.memory[ram_index(address)]));
        assert forall|i: int| 0 <= i < n implies walked.ppu.oam_data[(start + i) % 256]
            == #[trigger] page_byte(bus.memory, page, i) by {
            if i < done {
                assert((start + i) % 256 != (start + done) % 256);
            }
        }
    }
}

/// Sprite DMA from a plain page: after the write of `page` to 0x4014 has run
/// the DMA, the 256 bytes of the page lie in sprite memory from where the
/// sprite address stood, wrapping round; the sprite address is back where
/// it began; the picture processor notes that a DMA has run; and nothing
/// else on the bus has changed.
pub proof fn lemma_oam_dma_copies_page(bus: BusState, page: u8)
    requires
        plain_page(bus, page),
        bus.ppu.oam_data.len() == 256,
    ensures
        ({
            let after = bus.oam_dma(page);
            &&& after == (BusState {
                ppu: PpuState { oam_data: after.ppu.oam_data, dma_enable: true, ..bus.ppu },
                ..bus
            })
            &&& forall|i: int|
                0 <= i < 256 ==> after.ppu.oam_data[(bus.ppu.oam_addr_reg + i) % 256]
                    == #[trigger] page_byte(bus.memory, page, i)
        }),
{
    crate::bits::lemma_page_base(page);
    lemma_dma_walk_copies(bus, page, 256);
}

/// Sprite DMA through its register: where the picture processor is the
/// first to answer at 0x4014, a write of `page` there copies that page, if it
/// is a plain one, into sprite memory from the sprite address on, wrapping
/// within sprite memory. The sprite address ends where it began, the byte
/// written is kept at 0x4014, and nothing else on the bus changes.
pub proof fn lemma_dma_register_copies_page(bus: BusState, page: u8)
    requires
        plain_page(bus, page),
        bus.ppu.oam_data.len() == 256,
        bus.handlers_at(0x4014).len() > 0,
        bus.handlers_at(0x4014)[0].kind == crate::device::DeviceKind::Ppu,
    ensures
        ({
            let after = bus.write(0x4014, page);
            &&& after == (BusState {
                ppu: PpuState { oam_data: after.ppu.oam_data, dma_enable: true, ..bus.ppu },
                memory: bus.memory.update(0x4014, page),
                ..bus
            })
            &&& forall|i: int|
                0 <= i < 256 ==> after.ppu.oam_data[(bus.ppu.oam_addr_reg + i) % 256]
                    == #[trigger] page_byte(bus.memory, page, i)
        }),
{
    reveal(BusState::write);
    lemma_oam_dma_copies_page(bus, page);
}

} // verus!
