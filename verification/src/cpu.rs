//! The 6502-derived CPU: register file, flag logic, addressing-mode
//! resolution, instruction dispatch with exact cycle accounting, and the
//! run loop that drives the whole machine's clock.

use vstd::prelude::*;
use crate::bus::{
    bus_advance_spec, bus_read_spec, bus_write_spec, Bus, BusView,
};
use crate::cartridge::{Cartridge, MapperKind, Mirroring};

verus! {

/// Carry flag, bit 0 of the status register.
pub const CARRY_FLAG: u8 = 0x01;

/// Zero flag, bit 1.
pub const ZERO_FLAG: u8 = 0x02;

/// Interrupt-disable flag, bit 2.
pub const INTERRUPT_FLAG: u8 = 0x04;

/// Decimal flag, bit 3 (unused by this console's CPU).
pub const DECIMAL_FLAG: u8 = 0x08;

/// Break flag, bit 4, only meaningful in pushed status copies.
pub const BREAK_FLAG: u8 = 0x10;

/// Bit 5, always read as 1.
pub const UNUSED_FLAG: u8 = 0x20;

/// Overflow flag, bit 6.
pub const OVERFLOW_FLAG: u8 = 0x40;

/// Negative flag, bit 7.
pub const NEGATIVE_FLAG: u8 = 0x80;

/// The addressing modes of the instruction set.
#[derive(Clone, Copy, PartialEq, Eq, Structural, Debug)]
#[allow(non_camel_case_types)]
pub enum AddressingMode {
    Immediate,
    ZeroPage,
    ZeroPage_X,
    ZeroPage_Y,
    Absolute,
    Absolute_X,
    Absolute_Y,
    Indirect_X,
    Indirect_Y,
    NonAddressing,
}

/// The register a load instruction targets.
#[derive(Clone, Copy, PartialEq, Eq, Structural, Debug)]
pub enum Reg {
    A,
    X,
    Y,
}

/// A bitwise operation an accumulator-logic instruction applies.
#[derive(Clone, Copy, PartialEq, Eq, Structural, Debug)]
pub enum LogicOp {
    And,
    Or,
    Xor,
}

/// The fatal condition the dispatcher reports for an opcode it does not
/// implement: enough context (address, opcode byte, machine cycle) to
/// diagnose the gap. Execution halts rather than desynchronizing.
#[derive(Clone, Copy, PartialEq, Eq, Structural, Debug)]
pub struct CpuFault {
    /// Where the opcode byte was fetched.
    pub address: u16,
    /// The unimplemented opcode byte.
    pub opcode: u8,
    /// The machine cycle count at the fault.
    pub cycle: u64,
}

/// Mathematical state of the CPU and, through the bus, the whole machine.
#[verifier::ext_equal]
pub ghost struct CpuView {
    pub a: u8,
    pub x: u8,
    pub y: u8,
    pub status: u8,
    pub pc: u16,
    pub sp: u8,
    pub halted: bool,
    /// CPU cycles consumed since power-on, as the run loop accounts them.
    pub cycles: u64,
    pub bus: BusView,
}

impl CpuView {
    /// Well-formedness: the machine hanging off the bus is well-formed.
    pub open spec fn wf(self) -> bool {
        self.bus.wf()
    }
}

/// Whether a status flag is set.
pub open spec fn flag(status: u8, mask: u8) -> bool {
    status & mask != 0
}

/// The status register with one flag forced on or off.
pub open spec fn set_flag(status: u8, mask: u8, on: bool) -> u8 {
    if on {
        status | mask
    } else {
        status & !mask
    }
}

/// The status register after the zero/negative update rule: zero iff the
/// result is 0, negative iff its bit 7 is set.
pub open spec fn update_zn(status: u8, result: u8) -> u8 {
    set_flag(set_flag(status, ZERO_FLAG, result == 0), NEGATIVE_FLAG, result >= 0x80)
}

/// Whether two addresses lie on different 256-byte pages.
pub open spec fn page_crossed(a: u16, b: u16) -> bool {
    a / 0x100 != b / 0x100
}

/// The operand bytes a mode consumes after the opcode.
pub open spec fn mode_len(mode: AddressingMode) -> u16 {
    match mode {
        AddressingMode::Immediate => 1,
        AddressingMode::ZeroPage => 1,
        AddressingMode::ZeroPage_X => 1,
        AddressingMode::ZeroPage_Y => 1,
        AddressingMode::Absolute => 2,
        AddressingMode::Absolute_X => 2,
        AddressingMode::Absolute_Y => 2,
        AddressingMode::Indirect_X => 1,
        AddressingMode::Indirect_Y => 1,
        AddressingMode::NonAddressing => 0,
    }
}

/// A machine-moving read: the bus may change (register read side effects),
/// the CPU registers do not.
pub open spec fn mem_read_spec(c: CpuView, addr: u16) -> (CpuView, u8) {
    let (b, v) = bus_read_spec(c.bus, addr);
    ((CpuView { bus: b, ..c }), v)
}

/// A machine-moving write; the second component is the stall the write
/// costs (sprite DMA).
pub open spec fn mem_write_spec(c: CpuView, addr: u16, value: u8) -> (CpuView, u64) {
    let (b, stall) = bus_write_spec(c.bus, addr, value);
    ((CpuView { bus: b, ..c }), stall)
}

/// A little-endian 16-bit read of `pos` and `pos + 1` (wrapping).
pub open spec fn read_u16_spec(c: CpuView, pos: u16) -> (CpuView, u16) {
    let (c1, lo) = mem_read_spec(c, pos);
    let (c2, hi) = mem_read_spec(c1, pos.wrapping_add(1));
    ((c2), (hi * 0x100 + lo) as u16)
}

/// A push onto the fixed page-one stack.
pub open spec fn push_spec(c: CpuView, value: u8) -> CpuView {
    let (c1, _stall) = mem_write_spec(c, (0x100 + c.sp) as u16, value);
    CpuView { sp: c.sp.wrapping_sub(1), ..c1 }
}

/// A pull from the fixed page-one stack.
pub open spec fn pull_spec(c: CpuView) -> (CpuView, u8) {
    let sp = c.sp.wrapping_add(1);
    let (c1, v) = mem_read_spec(CpuView { sp: sp, ..c }, (0x100 + sp) as u16);
    (c1, v)
}

/// Address resolution for each mode, with its reads off the program counter
/// and whether an index addition crossed a page (the cycle penalty of the
/// penalized modes). Zero-page indexing wraps within page zero; all 16-bit
/// arithmetic wraps. The non-addressing marker resolves to address 0 and is
/// never used by the dispatcher.
#[verifier::opaque]
pub open spec fn resolve_spec(c: CpuView, mode: AddressingMode) -> (CpuView, u16, bool) {
    match mode {
        AddressingMode::Immediate => (c, c.pc, false),
        AddressingMode::ZeroPage => {
            let (c1, v) = mem_read_spec(c, c.pc);
            (c1, v as u16, false)
        },
        AddressingMode::ZeroPage_X => {
            let (c1, v) = mem_read_spec(c, c.pc);
            (c1, v.wrapping_add(c.x) as u16, false)
        },
        AddressingMode::ZeroPage_Y => {
            let (c1, v) = mem_read_spec(c, c.pc);
            (c1, v.wrapping_add(c.y) as u16, false)
        },
        AddressingMode::Absolute => {
            let (c1, base) = read_u16_spec(c, c.pc);
            (c1, base, false)
        },
        AddressingMode::Absolute_X => {
            let (c1, base) = read_u16_spec(c, c.pc);
            let addr = base.wrapping_add(c.x as u16);
            (c1, addr, page_crossed(base, addr))
        },
        AddressingMode::Absolute_Y => {
            let (c1, base) = read_u16_spec(c, c.pc);
            let addr = base.wrapping_add(c.y as u16);
            (c1, addr, page_crossed(base, addr))
        },
        AddressingMode::Indirect_X => {
            let (c1, base) = mem_read_spec(c, c.pc);
            let ptr = base.wrapping_add(c.x);
            let (c2, lo) = mem_read_spec(c1, ptr as u16);
            let (c3, hi) = mem_read_spec(c2, ptr.wrapping_add(1) as u16);
            (c3, (hi * 0x100 + lo) as u16, false)
        },
        AddressingMode::Indirect_Y => {
            let (c1, base) = mem_read_spec(c, c.pc);
            let (c2, lo) = mem_read_spec(c1, base as u16);
            let (c3, hi) = mem_read_spec(c2, base.wrapping_add(1) as u16);
            let deref = ((hi * 0x100 + lo) as u16).wrapping_add(c.y as u16);
            (c3, deref, page_crossed((hi * 0x100 + lo) as u16, deref))
        },
        AddressingMode::NonAddressing => (c, 0, false),
    }
}

/// The machine after a program is copied into the test cartridge's PRG
/// space at the address 0x8000 maps to, with the reset vector pointed
/// there.
pub open spec fn loaded_prg_spec(c: CpuView, program: Seq<u8>) -> CpuView {
    CpuView {
        bus: BusView {
            cartridge: crate::cartridge::CartridgeView {
                prg: Seq::new(
                    0x8000,
                    |i: int|
                        if 0 <= i < program.len() {
                            program[i]
                        } else if i == 0x7FFC {
                            0u8
                        } else if i == 0x7FFD {
                            0x80u8
                        } else {
                            c.bus.cartridge.prg[i]
                        },
                ),
                ..c.bus.cartridge
            },
            ..c.bus
        },
        ..c
    }
}

/// The machine after a reset: registers at their power-on defaults,
/// interrupt-disable set, and the program counter fetched from the reset
/// vector at 0xFFFC.
pub open spec fn reset_spec(c: CpuView) -> CpuView {
    let (c1, pc) = read_u16_spec(c, 0xFFFC);
    CpuView {
        a: 0,
        x: 0,
        y: 0,
        sp: 0xFD,
        status: (INTERRUPT_FLAG | UNUSED_FLAG) as u8,
        halted: false,
        pc: pc,
        ..c1
    }
}

/// The CPU. It owns the bus, and with it the whole machine: every memory
/// access is routed through [`Bus`], and the run loop advances the picture
/// and audio clocks in proportion to the cycles each instruction consumes.
pub struct CPU {
    pub register_a: u8,
    pub register_x: u8,
    pub register_y: u8,
    pub status: u8,
    pub program_counter: u16,
    pub stack_pointer: u8,
    pub halted: bool,
    pub cycles: u64,
    pub bus: Bus,
}

impl View for CPU {
    type V = CpuView;

    open spec fn view(&self) -> CpuView {
        CpuView {
            a: self.register_a,
            x: self.register_x,
            y: self.register_y,
            status: self.status,
            pc: self.program_counter,
            sp: self.stack_pointer,
            halted: self.halted,
            cycles: self.cycles,
            bus: self.bus@,
        }
    }
}

impl CPU {
    /// A machine around the given cartridge, at power-on.
    pub fn with_cartridge(cartridge: Cartridge) -> (c: CPU)
        requires
            cartridge@.wf(),
        ensures
            c@.wf(),
            c@.a == 0 && c@.x == 0 && c@.y == 0 && c@.status == 0 && c@.pc == 0 && c@.sp == 0xFD
                && !c@.halted && c@.cycles == 0,
            c@.bus.ram == Seq::new(0x800, |i: int| 0u8),
            c@.bus.ppu == crate::ppu::ppu_poweron(),
            c@.bus.apu == crate::apu::apu_poweron(),
            c@.bus.controller == (crate::controller::ControllerView {
                buttons: 0,
                shift: 0,
                strobe: false,
                index: 0,
            }),
            c@.bus.cartridge == cartridge@,
            c@.bus.cycles == 0,
            c@.bus.audio == Seq::<crate::apu::ChannelOutput>::empty(),
    {
        CPU {
            register_a: 0,
            register_x: 0,
            register_y: 0,
            status: 0,
            program_counter: 0,
            stack_pointer: 0xFD,
            halted: false,
            cycles: 0,
            bus: Bus::new(cartridge),
        }
    }

    /// A machine around a blank test cartridge: 32 KiB of writable-by-load
    /// PRG space, fixed mapping. Every byte of the power-on machine is
    /// pinned: registers, RAM, the whole cartridge (PRG, CHR and battery
    /// RAM all zero), and every device in its power-on state.
    pub fn new() -> (c: CPU)
        ensures
            c@.wf(),
            c@.a == 0 && c@.x == 0 && c@.y == 0 && c@.status == 0 && c@.pc == 0 && c@.sp == 0xFD
                && !c@.halted && c@.cycles == 0,
            c@.bus.ram == Seq::new(0x800, |i: int| 0u8),
            c@.bus.cartridge == (crate::cartridge::CartridgeView {
                prg: Seq::new(0x8000, |i: int| 0u8),
                chr: Seq::new(0x2000, |i: int| 0u8),
                prg_ram: Seq::new(0x2000, |i: int| 0u8),
                kind: MapperKind::Fixed,
                prg_bank: 0,
                chr_bank: 0,
                mirroring: Mirroring::Horizontal,
            }),
            c@.bus.ppu == crate::ppu::ppu_poweron(),
            c@.bus.apu == crate::apu::apu_poweron(),
            c@.bus.controller == (crate::controller::ControllerView {
                buttons: 0,
                shift: 0,
                strobe: false,
                index: 0,
            }),
            c@.bus.cycles == 0,
            c@.bus.audio == Seq::<crate::apu::ChannelOutput>::empty(),
    {
        let prg: Vec<u8> = vec![0u8; 0x8000];
        let chr: Vec<u8> = vec![0u8; 0x2000];
        let prg_ram: Vec<u8> = vec![0u8; 0x2000];
        proof {
            assert(prg@ =~= Seq::new(0x8000, |i: int| 0u8));
            assert(chr@ =~= Seq::new(0x2000, |i: int| 0u8));
            assert(prg_ram@ =~= Seq::new(0x2000, |i: int| 0u8));
        }
        let cartridge = Cartridge {
            prg,
            chr,
            prg_ram,
            kind: MapperKind::Fixed,
            prg_bank: 0,
            chr_bank: 0,
            mirroring: Mirroring::Horizontal,
        };
        let c = CPU {
            register_a: 0,
            register_x: 0,
            register_y: 0,
            status: 0,
            program_counter: 0,
            stack_pointer: 0xFD,
            halted: false,
            cycles: 0,
            bus: Bus::new(cartridge),
        };
        proof {
            assert(c@.bus.cartridge =~= (crate::cartridge::CartridgeView {
                prg: Seq::new(0x8000, |i: int| 0u8),
                chr: Seq::new(0x2000, |i: int| 0u8),
                prg_ram: Seq::new(0x2000, |i: int| 0u8),
                kind: MapperKind::Fixed,
                prg_bank: 0,
                chr_bank: 0,
                mirroring: Mirroring::Horizontal,
            }));
        }
        c
    }

    /// Bus read, exactly as [`mem_read_spec`] states. Reads can move the
    /// machine (register-mapped devices have read side effects), so the
    /// receiver is exclusive.
    pub fn memory_read(&mut self, addr: u16) -> (r: u8)
        requires
            old(self)@.wf(),
        ensures
            (final(self)@, r) == mem_read_spec(old(self)@, addr),
            final(self)@.wf(),
    {
        let r = self.bus.read(addr);
        proof {
            assert(self@ =~= mem_read_spec(old(self)@, addr).0);
        }
        r
    }

    /// Bus write, exactly as [`mem_write_spec`] states; returns the stall
    /// cycles the write costs (sprite DMA).
    pub fn memory_write(&mut self, addr: u16, data: u8) -> (stall: u64)
        requires
            old(self)@.wf(),
        ensures
            (final(self)@, stall) == mem_write_spec(old(self)@, addr, data),
            final(self)@.wf(),
            stall <= 514,
    {
        let stall = self.bus.write(addr, data);
        proof {
            assert(self@ =~= mem_write_spec(old(self)@, addr, data).0);
        }
        stall
    }

    /// Little-endian 16-bit read, exactly as [`read_u16_spec`] states.
    pub fn mem_read_u16(&mut self, pos: u16) -> (r: u16)
        requires
            old(self)@.wf(),
        ensures
            (final(self)@, r) == read_u16_spec(old(self)@, pos),
            final(self)@.wf(),
    {
        let low = self.memory_read(pos);
        let high = self.memory_read(pos.wrapping_add(1));
        high as u16 * 0x100 + low as u16
    }

    /// Little-endian 16-bit write to `pos` and `pos + 1` (wrapping).
    pub fn mem_write_u16(&mut self, pos: u16, data: u16)
        requires
            old(self)@.wf(),
        ensures
            final(self)@ == ({
                let (c1, _s1) = mem_write_spec(old(self)@, pos, (data % 0x100) as u8);
                let (c2, _s2) = mem_write_spec(c1, pos.wrapping_add(1), (data / 0x100) as u8);
                c2
            }),
            final(self)@.wf(),
    {
        let high = (data / 0x100) as u8;
        let low = (data % 0x100) as u8;
        self.memory_write(pos, low);
        self.memory_write(pos.wrapping_add(1), high);
    }

    /// Push onto the page-one stack, exactly as [`push_spec`] states.
    fn push(&mut self, value: u8)
        requires
            old(self)@.wf(),
        ensures
            final(self)@ == push_spec(old(self)@, value),
            final(self)@.wf(),
    {
        self.memory_write(0x100 + self.stack_pointer as u16, value);
        self.stack_pointer = self.stack_pointer.wrapping_sub(1);
        proof {
            assert(self@ =~= push_spec(old(self)@, value));
        }
    }

    /// Pull from the page-one stack, exactly as [`pull_spec`] states.
    fn pull(&mut self) -> (r: u8)
        requires
            old(self)@.wf(),
        ensures
            (final(self)@, r) == pull_spec(old(self)@),
            final(self)@.wf(),
    {
        self.stack_pointer = self.stack_pointer.wrapping_add(1);
        let r = self.memory_read(0x100 + self.stack_pointer as u16);
        proof {
            assert(self@ =~= pull_spec(old(self)@).0);
        }
        r
    }

    /// Applies the zero/negative flag rule to a result, exactly as
    /// [`update_zn`] states: zero iff the result is 0, negative iff its
    /// bit 7 is set; all other flags keep their values.
    pub fn update_zero_and_negative_flags(&mut self, result: u8)
        ensures
            final(self)@ == (CpuView { status: update_zn(old(self)@.status, result), ..old(self)@ }),
    {
        if result == 0 {
            self.status = self.status | ZERO_FLAG;
        } else {
            self.status = self.status & !ZERO_FLAG;
        }
        if result >= 0x80 {
            self.status = self.status | NEGATIVE_FLAG;
        } else {
            self.status = self.status & !NEGATIVE_FLAG;
        }
    }

    /// Resolves the operand address of an addressing mode, exactly as
    /// [`resolve_spec`] states; also reports whether an index addition
    /// crossed a page boundary (the cycle penalty of the penalized modes).
    /// The non-addressing marker carries no operand: handing it here is a
    /// caller error, which the precondition rules out (the verified
    /// dispatcher never passes it).
    pub fn get_operand_address(&mut self, mode: &AddressingMode) -> (r: (u16, bool))
        requires
            old(self)@.wf(),
            !(*mode is NonAddressing),
        ensures
            (final(self)@, r.0, r.1) == resolve_spec(old(self)@, *mode),
            final(self)@.wf(),
    {
        proof {
            reveal(resolve_spec);
        }
        match mode {
            AddressingMode::Immediate => (self.program_counter, false),
            AddressingMode::ZeroPage => {
                let v = self.memory_read(self.program_counter);
                (v as u16, false)
            },
            AddressingMode::ZeroPage_X => {
                let v = self.memory_read(self.program_counter);
                (v.wrapping_add(self.register_x) as u16, false)
            },
            AddressingMode::ZeroPage_Y => {
                let v = self.memory_read(self.program_counter);
                (v.wrapping_add(self.register_y) as u16, false)
            },
            AddressingMode::Absolute => {
                let base = self.mem_read_u16(self.program_counter);
                (base, false)
            },
            AddressingMode::Absolute_X => {
                let base = self.mem_read_u16(self.program_counter);
                let addr = base.wrapping_add(self.register_x as u16);
                (addr, base / 0x100 != addr / 0x100)
            },
            AddressingMode::Absolute_Y => {
                let base = self.mem_read_u16(self.program_counter);
                let addr = base.wrapping_add(self.register_y as u16);
                (addr, base / 0x100 != addr / 0x100)
            },
            AddressingMode::Indirect_X => {
                let base = self.memory_read(self.program_counter);
                let ptr = base.wrapping_add(self.register_x);
                let lo = self.memory_read(ptr as u16);
                let hi = self.memory_read(ptr.wrapping_add(1) as u16);
                (hi as u16 * 0x100 + lo as u16, false)
            },
            AddressingMode::Indirect_Y => {
                let base = self.memory_read(self.program_counter);
                let lo = self.memory_read(base as u16);
                let hi = self.memory_read(base.wrapping_add(1) as u16);
                let deref = (hi as u16 * 0x100 + lo as u16).wrapping_add(self.register_y as u16);
                (deref, (hi as u16 * 0x100 + lo as u16) / 0x100 != deref / 0x100)
            },
            AddressingMode::NonAddressing => {
                proof {
                    assert(false);
                }
                (0, false)
            },
        }
    }

    /// Copies a program into the test cartridge's PRG space at the address
    /// 0x8000 maps to, and points the reset vector there.
    pub fn load(&mut self, program: Vec<u8>)
        requires
            old(self)@.wf(),
            old(self)@.bus.cartridge.prg.len() == 0x8000,
            program@.len() <= 0x7FFA,
        ensures
            final(self)@ == loaded_prg_spec(old(self)@, program@),
            final(self)@.wf(),
    {
        let ghost pre = self@;
        let mut i: usize = 0;
        while i < program.len()
            invariant
                pre.wf(),
                pre.bus.cartridge.prg.len() == 0x8000,
                program@.len() <= 0x7FFA,
                i <= program@.len(),
                self.bus.cartridge.prg@.len() == 0x8000,
                forall|j: int|
                    0 <= j < i ==> self.bus.cartridge.prg@[j] == program@[j],
                forall|j: int|
                    i <= j < 0x8000 ==> self.bus.cartridge.prg@[j] == pre.bus.cartridge.prg[j],
                self@ == (CpuView {
                    bus: BusView {
                        cartridge: crate::cartridge::CartridgeView {
                            prg: self.bus.cartridge.prg@,
                            ..pre.bus.cartridge
                        },
                        ..pre.bus
                    },
                    ..pre
                }),
            decreases program@.len() - i,
        {
            let b = program[i];
            self.bus.cartridge.prg.set(i, b);
            i = i + 1;
        }
        self.bus.cartridge.prg.set(0x7FFC, 0x00);
        self.bus.cartridge.prg.set(0x7FFD, 0x80);
        proof {
            assert(self.bus.cartridge.prg@ =~= Seq::new(
                0x8000,
                |i: int|
                    if 0 <= i < program@.len() {
                        program@[i]
                    } else if i == 0x7FFC {
                        0u8
                    } else if i == 0x7FFD {
                        0x80u8
                    } else {
                        pre.bus.cartridge.prg[i]
                    },
            ));
            assert(self@ =~= (CpuView {
                bus: BusView {
                    cartridge: crate::cartridge::CartridgeView {
                        prg: self.bus.cartridge.prg@,
                        ..pre.bus.cartridge
                    },
                    ..pre.bus
                },
                ..pre
            }));
            assert(self@ =~= loaded_prg_spec(pre, program@));
        }
    }

    /// Reset: registers to their power-on defaults, interrupt-disable set,
    /// and the program counter loaded from the reset vector at 0xFFFC.
    pub fn reset(&mut self)
        requires
            old(self)@.wf(),
        ensures
            final(self)@ == reset_spec(old(self)@),
            final(self)@.wf(),
    {
        self.register_a = 0;
        self.register_x = 0;
        self.register_y = 0;
        self.stack_pointer = 0xFD;
        self.status = INTERRUPT_FLAG | UNUSED_FLAG;
        self.halted = false;
        self.program_counter = self.mem_read_u16(0xFFFC);
    }
}

/// Base cycle count of a load (or accumulator-logic) instruction per mode;
/// the penalized modes add one cycle on a page cross.
pub open spec fn load_base(mode: AddressingMode) -> u64 {
    match mode {
        AddressingMode::Immediate => 2,
        AddressingMode::ZeroPage => 3,
        AddressingMode::ZeroPage_X => 4,
        AddressingMode::ZeroPage_Y => 4,
        AddressingMode::Absolute => 4,
        AddressingMode::Absolute_X => 4,
        AddressingMode::Absolute_Y => 4,
        AddressingMode::Indirect_X => 6,
        AddressingMode::Indirect_Y => 5,
        AddressingMode::NonAddressing => 0,
    }
}

/// Whether a mode pays the one-cycle page-cross penalty on reads.
pub open spec fn penalty_mode(mode: AddressingMode) -> bool {
    mode is Absolute_X || mode is Absolute_Y || mode is Indirect_Y
}

/// Base cycle count of a store instruction per mode (stores never pay the
/// page-cross penalty; the indexed modes always take the longer path).
pub open spec fn sta_base(mode: AddressingMode) -> u64 {
    match mode {
        AddressingMode::Immediate => 0,
        AddressingMode::ZeroPage => 3,
        AddressingMode::ZeroPage_X => 4,
        AddressingMode::ZeroPage_Y => 4,
        AddressingMode::Absolute => 4,
        AddressingMode::Absolute_X => 5,
        AddressingMode::Absolute_Y => 5,
        AddressingMode::Indirect_X => 6,
        AddressingMode::Indirect_Y => 6,
        AddressingMode::NonAddressing => 0,
    }
}

/// A load: resolve, read, set the target register, apply the zero/negative
/// rule, step the program counter past the operand; cycles are the mode's
/// base plus the page-cross penalty where the mode pays one.
pub open spec fn load_spec(c: CpuView, mode: AddressingMode, reg: Reg) -> (CpuView, u64) {
    let (c1, addr, crossed) = resolve_spec(c, mode);
    let (c2, m) = mem_read_spec(c1, addr);
    let c3 = match reg {
        Reg::A => CpuView { a: m, ..c2 },
        Reg::X => CpuView { x: m, ..c2 },
        Reg::Y => CpuView { y: m, ..c2 },
    };
    let c4 = CpuView {
        status: update_zn(c3.status, m),
        pc: c3.pc.wrapping_add(mode_len(mode)),
        ..c3
    };
    ((c4), (load_base(mode) + if penalty_mode(mode) && crossed {
        1int
    } else {
        0int
    }) as u64)
}

/// A store of the accumulator: resolve, write, step the program counter;
/// cycles are the mode's base plus whatever the write itself stalled
/// (sprite DMA when the store hits its trigger register).
pub open spec fn sta_spec(c: CpuView, mode: AddressingMode) -> (CpuView, u64) {
    let (c1, addr, crossed) = resolve_spec(c, mode);
    let (c2, stall) = mem_write_spec(c1, addr, c1.a);
    let c3 = CpuView { pc: c2.pc.wrapping_add(mode_len(mode)), ..c2 };
    ((c3), (sta_base(mode) + stall) as u64)
}

/// An accumulator-logic instruction: like a load, but the value combines
/// with the accumulator bitwise.
pub open spec fn logic_spec(c: CpuView, mode: AddressingMode, op: LogicOp) -> (CpuView, u64) {
    let (c1, addr, crossed) = resolve_spec(c, mode);
    let (c2, m) = mem_read_spec(c1, addr);
    let v = match op {
        LogicOp::And => c2.a & m,
        LogicOp::Or => c2.a | m,
        LogicOp::Xor => c2.a ^ m,
    };
    let c3 = CpuView {
        a: v,
        status: update_zn(c2.status, v),
        pc: c2.pc.wrapping_add(mode_len(mode)),
        ..c2
    };
    ((c3), (load_base(mode) + if penalty_mode(mode) && crossed {
        1int
    } else {
        0int
    }) as u64)
}

/// The add-with-carry core: binary addition of the accumulator, the
/// operand and the carry; carry out when the sum exceeds 255, overflow when
/// both operands share a sign that the result does not.
pub open spec fn adc_core_spec(c: CpuView, m: u8) -> CpuView {
    let carry: u16 = if flag(c.status, CARRY_FLAG) {
        1
    } else {
        0
    };
    let sum = c.a + m + carry;
    let result = (sum % 0x100) as u8;
    let s1 = set_flag(c.status, CARRY_FLAG, sum > 0xFF);
    let s2 = set_flag(s1, OVERFLOW_FLAG, ((c.a ^ result) & (m ^ result) & 0x80) != 0);
    CpuView { a: result, status: update_zn(s2, result), ..c }
}

/// Add-with-carry, immediate operand; 2 cycles.
pub open spec fn adc_spec(c: CpuView) -> (CpuView, u64) {
    let (c1, m) = mem_read_spec(c, c.pc);
    let c2 = adc_core_spec(c1, m);
    ((CpuView { pc: c2.pc.wrapping_add(1), ..c2 }), 2)
}

/// Subtract-with-carry, immediate operand: add-with-carry of the operand's
/// complement; 2 cycles.
pub open spec fn sbc_spec(c: CpuView) -> (CpuView, u64) {
    let (c1, m) = mem_read_spec(c, c.pc);
    let c2 = adc_core_spec(c1, (255 - m) as u8);
    ((CpuView { pc: c2.pc.wrapping_add(1), ..c2 }), 2)
}

/// Compare accumulator, immediate operand: carry iff no borrow, and the
/// zero/negative rule on the difference; 2 cycles.
pub open spec fn cmp_spec(c: CpuView) -> (CpuView, u64) {
    let (c1, m) = mem_read_spec(c, c.pc);
    let t = c1.a.wrapping_sub(m);
    let s1 = set_flag(c1.status, CARRY_FLAG, c1.a >= m);
    ((CpuView { status: update_zn(s1, t), pc: c1.pc.wrapping_add(1), ..c1 }), 2)
}

/// Arithmetic shift left of the accumulator: bit 7 into carry; 2 cycles.
pub open spec fn asl_a_spec(c: CpuView) -> (CpuView, u64) {
    let result = ((c.a * 2) % 0x100) as u8;
    let s1 = set_flag(c.status, CARRY_FLAG, c.a >= 0x80);
    ((CpuView { a: result, status: update_zn(s1, result), ..c }), 2)
}

/// Logical shift right of the accumulator: bit 0 into carry; 2 cycles.
pub open spec fn lsr_a_spec(c: CpuView) -> (CpuView, u64) {
    let result = (c.a / 2) as u8;
    let s1 = set_flag(c.status, CARRY_FLAG, c.a % 2 == 1);
    ((CpuView { a: result, status: update_zn(s1, result), ..c }), 2)
}

/// A register-to-register transfer or increment/decrement, with the
/// zero/negative rule on the moved value; 2 cycles.
pub open spec fn transfer_spec(c: CpuView, reg: Reg, v: u8) -> (CpuView, u64) {
    let c1 = match reg {
        Reg::A => CpuView { a: v, ..c },
        Reg::X => CpuView { x: v, ..c },
        Reg::Y => CpuView { y: v, ..c },
    };
    ((CpuView { status: update_zn(c1.status, v), ..c1 }), 2)
}

/// The target of a relative branch: the offset is signed.
pub open spec fn branch_target(pc: u16, off: u8) -> u16 {
    if off < 0x80 {
        pc.wrapping_add(off as u16)
    } else {
        pc.wrapping_add(off as u16).wrapping_sub(0x100)
    }
}

/// A conditional relative branch on one status flag: 2 cycles not taken,
/// 3 taken, and one more when the branch crosses a page.
pub open spec fn branch_spec(c: CpuView, mask: u8, want: bool) -> (CpuView, u64) {
    let (c1, off) = mem_read_spec(c, c.pc);
    let pc1 = c1.pc.wrapping_add(1);
    if flag(c1.status, mask) == want {
        let target = branch_target(pc1, off);
        ((CpuView { pc: target, ..c1 }), (3 + if page_crossed(pc1, target) {
            1int
        } else {
            0int
        }) as u64)
    } else {
        ((CpuView { pc: pc1, ..c1 }), 2)
    }
}

/// An absolute jump; 3 cycles.
pub open spec fn jmp_spec(c: CpuView) -> (CpuView, u64) {
    let (c1, target) = read_u16_spec(c, c.pc);
    ((CpuView { pc: target, ..c1 }), 3)
}

/// Jump to subroutine: pushes the address of the instruction's last byte,
/// high byte first; 6 cycles.
pub open spec fn jsr_spec(c: CpuView) -> (CpuView, u64) {
    let (c1, target) = read_u16_spec(c, c.pc);
    let ret = c.pc.wrapping_add(1);
    let c2 = push_spec(c1, (ret / 0x100) as u8);
    let c3 = push_spec(c2, (ret % 0x100) as u8);
    ((CpuView { pc: target, ..c3 }), 6)
}

/// Return from subroutine: pulls the saved address and resumes one past
/// it; 6 cycles.
pub open spec fn rts_spec(c: CpuView) -> (CpuView, u64) {
    let (c1, lo) = pull_spec(c);
    let (c2, hi) = pull_spec(c1);
    ((CpuView { pc: ((hi * 0x100 + lo) as u16).wrapping_add(1), ..c2 }), 6)
}

/// Push the accumulator; 3 cycles.
pub open spec fn pha_spec(c: CpuView) -> (CpuView, u64) {
    ((push_spec(c, c.a)), 3)
}

/// Pull the accumulator, with the zero/negative rule; 4 cycles.
pub open spec fn pla_spec(c: CpuView) -> (CpuView, u64) {
    let (c1, v) = pull_spec(c);
    ((CpuView { a: v, status: update_zn(c1.status, v), ..c1 }), 4)
}

/// Force one status flag on or off; 2 cycles.
pub open spec fn flag_op_spec(c: CpuView, mask: u8, on: bool) -> (CpuView, u64) {
    ((CpuView { status: set_flag(c.status, mask, on), ..c }), 2)
}

/// The break instruction stops the driver loop; 7 cycles.
pub open spec fn brk_spec(c: CpuView) -> (CpuView, u64) {
    ((CpuView { halted: true, ..c }), 7)
}

/// An interrupt entry: push the program counter and a status copy with the
/// break flag clear (bit 5 set), set interrupt-disable, and jump through
/// the vector; 7 cycles.
pub open spec fn interrupt_spec(c: CpuView, vector: u16) -> CpuView {
    let c1 = push_spec(c, (c.pc / 0x100) as u8);
    let c2 = push_spec(c1, (c.pc % 0x100) as u8);
    let c3 = push_spec(c2, set_flag(set_flag(c2.status, BREAK_FLAG, false), UNUSED_FLAG, true));
    let c4 = CpuView { status: set_flag(c3.status, INTERRUPT_FLAG, true), ..c3 };
    let (c5, target) = read_u16_spec(c4, vector);
    CpuView { pc: target, ..c5 }
}

impl CPU {
    /// Forces one status flag on or off.
    fn write_flag(&mut self, mask: u8, on: bool)
        ensures
            final(self)@ == (CpuView { status: set_flag(old(self)@.status, mask, on), ..old(self)@ }),
    {
        if on {
            self.status = self.status | mask;
        } else {
            self.status = self.status & !mask;
        }
    }

    /// Load accumulator, exactly as [`load_spec`] states.
    pub fn lda(&mut self, mode: &AddressingMode) -> (cy: u64)
        requires
            old(self)@.wf(),
            !(*mode is NonAddressing),
        ensures
            (final(self)@, cy) == load_spec(old(self)@, *mode, Reg::A),
            final(self)@.wf(),
    {
        let (addr, crossed) = self.get_operand_address(mode);
        let m = self.memory_read(addr);
        self.register_a = m;
        self.update_zero_and_negative_flags(m);
        self.program_counter = self.program_counter.wrapping_add(Self::operand_len(mode));
        proof {
            assert(self@ =~= load_spec(old(self)@, *mode, Reg::A).0);
        }
        Self::read_cycles(mode, crossed)
    }

    /// Load X, exactly as [`load_spec`] states.
    pub fn ldx(&mut self, mode: &AddressingMode) -> (cy: u64)
        requires
            old(self)@.wf(),
            !(*mode is NonAddressing),
        ensures
            (final(self)@, cy) == load_spec(old(self)@, *mode, Reg::X),
            final(self)@.wf(),
    {
        let (addr, crossed) = self.get_operand_address(mode);
        let m = self.memory_read(addr);
        self.register_x = m;
        self.update_zero_and_negative_flags(m);
        self.program_counter = self.program_counter.wrapping_add(Self::operand_len(mode));
        proof {
            assert(self@ =~= load_spec(old(self)@, *mode, Reg::X).0);
        }
        Self::read_cycles(mode, crossed)
    }

    /// Load Y, exactly as [`load_spec`] states.
    pub fn ldy(&mut self, mode: &AddressingMode) -> (cy: u64)
        requires
            old(self)@.wf(),
            !(*mode is NonAddressing),
        ensures
            (final(self)@, cy) == load_spec(old(self)@, *mode, Reg::Y),
            final(self)@.wf(),
    {
        let (addr, crossed) = self.get_operand_address(mode);
        let m = self.memory_read(addr);
        self.register_y = m;
        self.update_zero_and_negative_flags(m);
        self.program_counter = self.program_counter.wrapping_add(Self::operand_len(mode));
        proof {
            assert(self@ =~= load_spec(old(self)@, *mode, Reg::Y).0);
        }
        Self::read_cycles(mode, crossed)
    }

    /// Executable [`mode_len`].
    fn operand_len(mode: &AddressingMode) -> (r: u16)
        ensures
            r == mode_len(*mode),
    {
        match mode {
            AddressingMode::Immediate => 1,
            AddressingMode::ZeroPage => 1,
            AddressingMode::ZeroPage_X => 1,
            AddressingMode::ZeroPage_Y => 1,
            AddressingMode::Absolute => 2,
            AddressingMode::Absolute_X => 2,
            AddressingMode::Absolute_Y => 2,
            AddressingMode::Indirect_X => 1,
            AddressingMode::Indirect_Y => 1,
            AddressingMode::NonAddressing => 0,
        }
    }

    /// The cycles a read-class instruction costs in the given mode.
    fn read_cycles(mode: &AddressingMode, crossed: bool) -> (r: u64)
        ensures
            r == load_base(*mode) + if penalty_mode(*mode) && crossed {
                1int
            } else {
                0int
            },
    {
        let base: u64 = match mode {
            AddressingMode::Immediate => 2,
            AddressingMode::ZeroPage => 3,
            AddressingMode::ZeroPage_X => 4,
            AddressingMode::ZeroPage_Y => 4,
            AddressingMode::Absolute => 4,
            AddressingMode::Absolute_X => 4,
            AddressingMode::Absolute_Y => 4,
            AddressingMode::Indirect_X => 6,
            AddressingMode::Indirect_Y => 5,
            AddressingMode::NonAddressing => 0,
        };
        let penalized = matches!(mode, AddressingMode::Absolute_X) || matches!(
            mode,
            AddressingMode::Absolute_Y,
        ) || matches!(mode, AddressingMode::Indirect_Y);
        if penalized && crossed {
            base + 1
        } else {
            base
        }
    }

    /// Store accumulator, exactly as [`sta_spec`] states.
    pub fn sta(&mut self, mode: &AddressingMode) -> (cy: u64)
        requires
            old(self)@.wf(),
            !(*mode is NonAddressing),
        ensures
            (final(self)@, cy) == sta_spec(old(self)@, *mode),
            final(self)@.wf(),
    {
        let (addr, _crossed) = self.get_operand_address(mode);
        let stall = self.memory_write(addr, self.register_a);
        self.program_counter = self.program_counter.wrapping_add(Self::operand_len(mode));
        let base: u64 = match mode {
            AddressingMode::Immediate => 0,
            AddressingMode::ZeroPage => 3,
            AddressingMode::ZeroPage_X => 4,
            AddressingMode::ZeroPage_Y => 4,
            AddressingMode::Absolute => 4,
            AddressingMode::Absolute_X => 5,
            AddressingMode::Absolute_Y => 5,
            AddressingMode::Indirect_X => 6,
            AddressingMode::Indirect_Y => 6,
            AddressingMode::NonAddressing => 0,
        };
        proof {
            assert(self@ =~= sta_spec(old(self)@, *mode).0);
        }
        base + stall
    }

    /// An accumulator-logic instruction, exactly as [`logic_spec`] states.
    pub fn logic(&mut self, mode: &AddressingMode, op: LogicOp) -> (cy: u64)
        requires
            old(self)@.wf(),
            !(*mode is NonAddressing),
        ensures
            (final(self)@, cy) == logic_spec(old(self)@, *mode, op),
            final(self)@.wf(),
    {
        let (addr, crossed) = self.get_operand_address(mode);
        let m = self.memory_read(addr);
        let v = match op {
            LogicOp::And => self.register_a & m,
            LogicOp::Or => self.register_a | m,
            LogicOp::Xor => self.register_a ^ m,
        };
        self.register_a = v;
        self.update_zero_and_negative_flags(v);
        self.program_counter = self.program_counter.wrapping_add(Self::operand_len(mode));
        proof {
            assert(self@ =~= logic_spec(old(self)@, *mode, op).0);
        }
        Self::read_cycles(mode, crossed)
    }

    /// The add-with-carry core, exactly as [`adc_core_spec`] states.
    fn adc_core(&mut self, m: u8)
        ensures
            final(self)@ == adc_core_spec(old(self)@, m),
    {
        let carry: u16 = if self.status & CARRY_FLAG != 0 {
            1
        } else {
            0
        };
        let sum: u16 = self.register_a as u16 + m as u16 + carry;
        let result = (sum % 0x100) as u8;
        self.write_flag(CARRY_FLAG, sum > 0xFF);
        self.write_flag(OVERFLOW_FLAG, ((self.register_a ^ result) & (m ^ result) & 0x80) != 0);
        self.register_a = result;
        self.update_zero_and_negative_flags(result);
        proof {
            assert(self@ =~= adc_core_spec(old(self)@, m));
        }
    }

    /// Add-with-carry (immediate), exactly as [`adc_spec`] states.
    pub fn adc(&mut self) -> (cy: u64)
        requires
            old(self)@.wf(),
        ensures
            (final(self)@, cy) == adc_spec(old(self)@),
            final(self)@.wf(),
    {
        let m = self.memory_read(self.program_counter);
        self.adc_core(m);
        self.program_counter = self.program_counter.wrapping_add(1);
        proof {
            assert(self@ =~= adc_spec(old(self)@).0);
        }
        2
    }

    /// Subtract-with-carry (immediate), exactly as [`sbc_spec`] states.
    pub fn sbc(&mut self) -> (cy: u64)
        requires
            old(self)@.wf(),
        ensures
            (final(self)@, cy) == sbc_spec(old(self)@),
            final(self)@.wf(),
    {
        let m = self.memory_read(self.program_counter);
        self.adc_core(255 - m);
        self.program_counter = self.program_counter.wrapping_add(1);
        proof {
            assert(self@ =~= sbc_spec(old(self)@).0);
        }
        2
    }

    /// Compare accumulator (immediate), exactly as [`cmp_spec`] states.
    pub fn cmp(&mut self) -> (cy: u64)
        requires
            old(self)@.wf(),
        ensures
            (final(self)@, cy) == cmp_spec(old(self)@),
            final(self)@.wf(),
    {
        let m = self.memory_read(self.program_counter);
        let t = self.register_a.wrapping_sub(m);
        self.write_flag(CARRY_FLAG, self.register_a >= m);
        self.update_zero_and_negative_flags(t);
        self.program_counter = self.program_counter.wrapping_add(1);
        proof {
            assert(self@ =~= cmp_spec(old(self)@).0);
        }
        2
    }

    /// Shift the accumulator left, exactly as [`asl_a_spec`] states.
    pub fn asl_a(&mut self) -> (cy: u64)
        ensures
            (final(self)@, cy) == asl_a_spec(old(self)@),
    {
        let a = self.register_a;
        let result = ((a as u16 * 2) % 0x100) as u8;
        self.write_flag(CARRY_FLAG, a >= 0x80);
        self.register_a = result;
        self.update_zero_and_negative_flags(result);
        proof {
            assert(self@ =~= asl_a_spec(old(self)@).0);
        }
        2
    }

    /// Shift the accumulator right, exactly as [`lsr_a_spec`] states.
    pub fn lsr_a(&mut self) -> (cy: u64)
        ensures
            (final(self)@, cy) == lsr_a_spec(old(self)@),
    {
        let a = self.register_a;
        let result = a / 2;
        self.write_flag(CARRY_FLAG, a % 2 == 1);
        self.register_a = result;
        self.update_zero_and_negative_flags(result);
        proof {
            assert(self@ =~= lsr_a_spec(old(self)@).0);
        }
        2
    }

    /// Copy the accumulator into X, exactly as [`transfer_spec`] states.
    pub fn tax(&mut self) -> (cy: u64)
        ensures
            (final(self)@, cy) == transfer_spec(old(self)@, Reg::X, old(self)@.a),
    {
        self.register_x = self.register_a;
        self.update_zero_and_negative_flags(self.register_x);
        2
    }

    /// Copy the accumulator into Y, exactly as [`transfer_spec`] states.
    pub fn tay(&mut self) -> (cy: u64)
        ensures
            (final(self)@, cy) == transfer_spec(old(self)@, Reg::Y, old(self)@.a),
    {
        self.register_y = self.register_a;
        self.update_zero_and_negative_flags(self.register_y);
        2
    }

    /// Copy X into the accumulator, exactly as [`transfer_spec`] states.
    pub fn txa(&mut self) -> (cy: u64)
        ensures
            (final(self)@, cy) == transfer_spec(old(self)@, Reg::A, old(self)@.x),
    {
        self.register_a = self.register_x;
        self.update_zero_and_negative_flags(self.register_a);
        2
    }

    /// Copy Y into the accumulator, exactly as [`transfer_spec`] states.
    pub fn tya(&mut self) -> (cy: u64)
        ensures
            (final(self)@, cy) == transfer_spec(old(self)@, Reg::A, old(self)@.y),
    {
        self.register_a = self.register_y;
        self.update_zero_and_negative_flags(self.register_a);
        2
    }

    /// Increment X (wrapping), exactly as [`transfer_spec`] states.
    pub fn inx(&mut self) -> (cy: u64)
        ensures
            (final(self)@, cy) == transfer_spec(old(self)@, Reg::X, old(self)@.x.wrapping_add(1)),
    {
        self.register_x = self.register_x.wrapping_add(1);
        self.update_zero_and_negative_flags(self.register_x);
        2
    }

    /// Increment Y (wrapping), exactly as [`transfer_spec`] states.
    pub fn iny(&mut self) -> (cy: u64)
        ensures
            (final(self)@, cy) == transfer_spec(old(self)@, Reg::Y, old(self)@.y.wrapping_add(1)),
    {
        self.register_y = self.register_y.wrapping_add(1);
        self.update_zero_and_negative_flags(self.register_y);
        2
    }

    /// Decrement X (wrapping), exactly as [`transfer_spec`] states.
    pub fn dex(&mut self) -> (cy: u64)
        ensures
            (final(self)@, cy) == transfer_spec(old(self)@, Reg::X, old(self)@.x.wrapping_sub(1)),
    {
        self.register_x = self.register_x.wrapping_sub(1);
        self.update_zero_and_negative_flags(self.register_x);
        2
    }

    /// Decrement Y (wrapping), exactly as [`transfer_spec`] states.
    pub fn dey(&mut self) -> (cy: u64)
        ensures
            (final(self)@, cy) == transfer_spec(old(self)@, Reg::Y, old(self)@.y.wrapping_sub(1)),
    {
        self.register_y = self.register_y.wrapping_sub(1);
        self.update_zero_and_negative_flags(self.register_y);
        2
    }

    /// A conditional relative branch, exactly as [`branch_spec`] states.
    pub fn branch(&mut self, mask: u8, want: bool) -> (cy: u64)
        requires
            old(self)@.wf(),
        ensures
            (final(self)@, cy) == branch_spec(old(self)@, mask, want),
            final(self)@.wf(),
    {
        let off = self.memory_read(self.program_counter);
        self.program_counter = self.program_counter.wrapping_add(1);
        let taken = (self.status & mask != 0) == want;
        if taken {
            let pc1 = self.program_counter;
            let target = if off < 0x80 {
                pc1.wrapping_add(off as u16)
            } else {
                pc1.wrapping_add(off as u16).wrapping_sub(0x100)
            };
            self.program_counter = target;
            proof {
                assert(self@ =~= branch_spec(old(self)@, mask, want).0);
            }
            if pc1 / 0x100 != target / 0x100 {
                4
            } else {
                3
            }
        } else {
            proof {
                assert(self@ =~= branch_spec(old(self)@, mask, want).0);
            }
            2
        }
    }

    /// Absolute jump, exactly as [`jmp_spec`] states.
    pub fn jmp(&mut self) -> (cy: u64)
        requires
            old(self)@.wf(),
        ensures
            (final(self)@, cy) == jmp_spec(old(self)@),
            final(self)@.wf(),
    {
        let target = self.mem_read_u16(self.program_counter);
        self.program_counter = target;
        proof {
            assert(self@ =~= jmp_spec(old(self)@).0);
        }
        3
    }

    /// Jump to subroutine, exactly as [`jsr_spec`] states.
    pub fn jsr(&mut self) -> (cy: u64)
        requires
            old(self)@.wf(),
        ensures
            (final(self)@, cy) == jsr_spec(old(self)@),
            final(self)@.wf(),
    {
        let target = self.mem_read_u16(self.program_counter);
        let ret = self.program_counter.wrapping_sub(1).wrapping_add(2);
        self.push((ret / 0x100) as u8);
        self.push((ret % 0x100) as u8);
        self.program_counter = target;
        proof {
            assert(self@ =~= jsr_spec(old(self)@).0);
        }
        6
    }

    /// Return from subroutine, exactly as [`rts_spec`] states.
    pub fn rts(&mut self) -> (cy: u64)
        requires
            old(self)@.wf(),
        ensures
            (final(self)@, cy) == rts_spec(old(self)@),
            final(self)@.wf(),
    {
        let lo = self.pull();
        let hi = self.pull();
        self.program_counter = (hi as u16 * 0x100 + lo as u16).wrapping_add(1);
        proof {
            assert(self@ =~= rts_spec(old(self)@).0);
        }
        6
    }

    /// Push the accumulator, exactly as [`pha_spec`] states.
    pub fn pha(&mut self) -> (cy: u64)
        requires
            old(self)@.wf(),
        ensures
            (final(self)@, cy) == pha_spec(old(self)@),
            final(self)@.wf(),
    {
        self.push(self.register_a);
        3
    }

    /// Pull the accumulator, exactly as [`pla_spec`] states.
    pub fn pla(&mut self) -> (cy: u64)
        requires
            old(self)@.wf(),
        ensures
            (final(self)@, cy) == pla_spec(old(self)@),
            final(self)@.wf(),
    {
        let v = self.pull();
        self.register_a = v;
        self.update_zero_and_negative_flags(v);
        proof {
            assert(self@ =~= pla_spec(old(self)@).0);
        }
        4
    }

    /// An interrupt entry through the given vector, exactly as
    /// [`interrupt_spec`] states.
    fn interrupt(&mut self, vector: u16)
        requires
            old(self)@.wf(),
        ensures
            final(self)@ == interrupt_spec(old(self)@, vector),
            final(self)@.wf(),
    {
        let pc = self.program_counter;
        self.push((pc / 0x100) as u8);
        self.push((pc % 0x100) as u8);
        let pushed = (self.status & !BREAK_FLAG) | UNUSED_FLAG;
        self.push(pushed);
        self.write_flag(INTERRUPT_FLAG, true);
        self.program_counter = self.mem_read_u16(vector);
        proof {
            assert(self@ =~= interrupt_spec(old(self)@, vector));
        }
    }
}

/// The fault the dispatcher reports for an opcode it does not implement:
/// the machine is left as it stands (the opcode byte fetched, nothing
/// else), never silently desynchronized.
pub open spec fn op_fault(c: CpuView, op: u8) -> (CpuView, Result<u64, CpuFault>) {
    ((c), Err(CpuFault { address: c.pc.wrapping_sub(1), opcode: op, cycle: c.bus.cycles }))
}

/// Dispatch for opcodes 0x00..=0x3F.
#[verifier::opaque]
pub open spec fn exec_op_00_spec(c: CpuView, op: u8) -> (CpuView, Result<u64, CpuFault>) {
    if op == 0x00 {
        let (c1, cy) = brk_spec(c);
        (c1, Ok(cy))
    } else if op == 0x09 {
        let (c1, cy) = logic_spec(c, AddressingMode::Immediate, LogicOp::Or);
        (c1, Ok(cy))
    } else if op == 0x0A {
        let (c1, cy) = asl_a_spec(c);
        (c1, Ok(cy))
    } else if op == 0x18 {
        let (c1, cy) = flag_op_spec(c, CARRY_FLAG, false);
        (c1, Ok(cy))
    } else if op == 0x20 {
        let (c1, cy) = jsr_spec(c);
        (c1, Ok(cy))
    } else if op == 0x29 {
        let (c1, cy) = logic_spec(c, AddressingMode::Immediate, LogicOp::And);
        (c1, Ok(cy))
    } else if op == 0x38 {
        let (c1, cy) = flag_op_spec(c, CARRY_FLAG, true);
        (c1, Ok(cy))
    } else {
        op_fault(c, op)
    }
}

/// Dispatch for opcodes 0x40..=0x7F.
#[verifier::opaque]
pub open spec fn exec_op_40_spec(c: CpuView, op: u8) -> (CpuView, Result<u64, CpuFault>) {
    if op == 0x48 {
        let (c1, cy) = pha_spec(c);
        (c1, Ok(cy))
    } else if op == 0x49 {
        let (c1, cy) = logic_spec(c, AddressingMode::Immediate, LogicOp::Xor);
        (c1, Ok(cy))
    } else if op == 0x4A {
        let (c1, cy) = lsr_a_spec(c);
        (c1, Ok(cy))
    } else if op == 0x4C {
        let (c1, cy) = jmp_spec(c);
        (c1, Ok(cy))
    } else if op == 0x55 {
        let (c1, cy) = logic_spec(c, AddressingMode::ZeroPage_X, LogicOp::Xor);
        (c1, Ok(cy))
    } else if op == 0x58 {
        let (c1, cy) = flag_op_spec(c, INTERRUPT_FLAG, false);
        (c1, Ok(cy))
    } else if op == 0x60 {
        let (c1, cy) = rts_spec(c);
        (c1, Ok(cy))
    } else if op == 0x68 {
        let (c1, cy) = pla_spec(c);
        (c1, Ok(cy))
    } else if op == 0x69 {
        let (c1, cy) = adc_spec(c);
        (c1, Ok(cy))
    } else if op == 0x78 {
        let (c1, cy) = flag_op_spec(c, INTERRUPT_FLAG, true);
        (c1, Ok(cy))
    } else {
        op_fault(c, op)
    }
}

/// Dispatch for opcodes 0x80..=0x9F.
#[verifier::opaque]
pub open spec fn exec_op_80_spec(c: CpuView, op: u8) -> (CpuView, Result<u64, CpuFault>) {
    if op == 0x85 {
        let (c1, cy) = sta_spec(c, AddressingMode::ZeroPage);
        (c1, Ok(cy))
    } else if op == 0x88 {
        let (c1, cy) = transfer_spec(c, Reg::Y, c.y.wrapping_sub(1));
        (c1, Ok(cy))
    } else if op == 0x8A {
        let (c1, cy) = transfer_spec(c, Reg::A, c.x);
        (c1, Ok(cy))
    } else if op == 0x8D {
        let (c1, cy) = sta_spec(c, AddressingMode::Absolute);
        (c1, Ok(cy))
    } else if op == 0x90 {
        let (c1, cy) = branch_spec(c, CARRY_FLAG, false);
        (c1, Ok(cy))
    } else if op == 0x95 {
        let (c1, cy) = sta_spec(c, AddressingMode::ZeroPage_X);
        (c1, Ok(cy))
    } else if op == 0x98 {
        let (c1, cy) = transfer_spec(c, Reg::A, c.y);
        (c1, Ok(cy))
    } else if op == 0x9D {
        let (c1, cy) = sta_spec(c, AddressingMode::Absolute_X);
        (c1, Ok(cy))
    } else {
        op_fault(c, op)
    }
}

/// Dispatch for opcodes 0xA0..=0xBF.
#[verifier::opaque]
pub open spec fn exec_op_a0_spec(c: CpuView, op: u8) -> (CpuView, Result<u64, CpuFault>) {
    if op == 0xA0 {
        let (c1, cy) = load_spec(c, AddressingMode::Immediate, Reg::Y);
        (c1, Ok(cy))
    } else if op == 0xA1 {
        let (c1, cy) = load_spec(c, AddressingMode::Indirect_X, Reg::A);
        (c1, Ok(cy))
    } else if op == 0xA2 {
        let (c1, cy) = load_spec(c, AddressingMode::Immediate, Reg::X);
        (c1, Ok(cy))
    } else if op == 0xA4 {
        let (c1, cy) = load_spec(c, AddressingMode::ZeroPage, Reg::Y);
        (c1, Ok(cy))
    } else if op == 0xA5 {
        let (c1, cy) = load_spec(c, AddressingMode::ZeroPage, Reg::A);
        (c1, Ok(cy))
    } else if op == 0xA6 {
        let (c1, cy) = load_spec(c, AddressingMode::ZeroPage, Reg::X);
        (c1, Ok(cy))
    } else if op == 0xA8 {
        let (c1, cy) = transfer_spec(c, Reg::Y, c.a);
        (c1, Ok(cy))
    } else if op == 0xA9 {
        let (c1, cy) = load_spec(c, AddressingMode::Immediate, Reg::A);
        (c1, Ok(cy))
    } else if op == 0xAA {
        let (c1, cy) = transfer_spec(c, Reg::X, c.a);
        (c1, Ok(cy))
    } else if op == 0xAD {
        let (c1, cy) = load_spec(c, AddressingMode::Absolute, Reg::A);
        (c1, Ok(cy))
    } else if op == 0xB0 {
        let (c1, cy) = branch_spec(c, CARRY_FLAG, true);
        (c1, Ok(cy))
    } else if op == 0xB1 {
        let (c1, cy) = load_spec(c, AddressingMode::Indirect_Y, Reg::A);
        (c1, Ok(cy))
    } else if op == 0xB5 {
        let (c1, cy) = load_spec(c, AddressingMode::ZeroPage_X, Reg::A);
        (c1, Ok(cy))
    } else if op == 0xB6 {
        let (c1, cy) = load_spec(c, AddressingMode::ZeroPage_Y, Reg::X);
        (c1, Ok(cy))
    } else if op == 0xB9 {
        let (c1, cy) = load_spec(c, AddressingMode::Absolute_Y, Reg::A);
        (c1, Ok(cy))
    } else if op == 0xBD {
        let (c1, cy) = load_spec(c, AddressingMode::Absolute_X, Reg::A);
        (c1, Ok(cy))
    } else {
        op_fault(c, op)
    }
}

/// Dispatch for opcodes 0xC0..=0xFF.
#[verifier::opaque]
pub open spec fn exec_op_c0_spec(c: CpuView, op: u8) -> (CpuView, Result<u64, CpuFault>) {
    if op == 0xC8 {
        let (c1, cy) = transfer_spec(c, Reg::Y, c.y.wrapping_add(1));
        (c1, Ok(cy))
    } else if op == 0xC9 {
        let (c1, cy) = cmp_spec(c);
        (c1, Ok(cy))
    } else if op == 0xCA {
        let (c1, cy) = transfer_spec(c, Reg::X, c.x.wrapping_sub(1));
        (c1, Ok(cy))
    } else if op == 0xD0 {
        let (c1, cy) = branch_spec(c, ZERO_FLAG, false);
        (c1, Ok(cy))
    } else if op == 0xE8 {
        let (c1, cy) = transfer_spec(c, Reg::X, c.x.wrapping_add(1));
        (c1, Ok(cy))
    } else if op == 0xE9 {
        let (c1, cy) = sbc_spec(c);
        (c1, Ok(cy))
    } else if op == 0xEA {
        (c, Ok(2))
    } else if op == 0xF0 {
        let (c1, cy) = branch_spec(c, ZERO_FLAG, true);
        (c1, Ok(cy))
    } else {
        op_fault(c, op)
    }
}

/// Full opcode dispatch: the effect of executing one (already fetched)
/// opcode, or the fault for one the table does not hold.
pub open spec fn exec_op_spec(c: CpuView, op: u8) -> (CpuView, Result<u64, CpuFault>) {
    if op < 0x40 {
        exec_op_00_spec(c, op)
    } else if op < 0x80 {
        exec_op_40_spec(c, op)
    } else if op < 0xA0 {
        exec_op_80_spec(c, op)
    } else if op < 0xC0 {
        exec_op_a0_spec(c, op)
    } else {
        exec_op_c0_spec(c, op)
    }
}

/// One CPU step: a pending non-maskable interrupt is taken first; then a
/// pending (and not disabled) maskable interrupt; otherwise the opcode at
/// the program counter is fetched and dispatched. A halted machine does
/// not move.
#[verifier::opaque]
pub open spec fn step_spec(c: CpuView) -> (CpuView, Result<u64, CpuFault>) {
    if c.halted {
        (c, Ok(0))
    } else if c.bus.ppu.nmi_pending {
        let c1 = CpuView {
            bus: BusView {
                ppu: crate::ppu::PpuView { nmi_pending: false, ..c.bus.ppu },
                ..c.bus
            },
            ..c
        };
        ((interrupt_spec(c1, 0xFFFA)), Ok(7))
    } else if c.bus.apu.frame_irq && !flag(c.status, INTERRUPT_FLAG) {
        ((interrupt_spec(c, 0xFFFE)), Ok(7))
    } else {
        let (c1, op) = mem_read_spec(c, c.pc);
        let c2 = CpuView { pc: c1.pc.wrapping_add(1), ..c1 };
        exec_op_spec(c2, op)
    }
}

/// One whole driver iteration: a CPU step, then the picture clock advances
/// three dots and the audio clock one cycle for every CPU cycle consumed.
/// A fault advances nothing: the driver halts rather than desynchronize.
#[verifier::opaque]
pub open spec fn machine_step_spec(c: CpuView) -> (CpuView, Result<u64, CpuFault>) {
    let (c1, r) = step_spec(c);
    match r {
        Ok(n) => ((CpuView {
            bus: bus_advance_spec(c1.bus, n as int),
            cycles: c1.cycles.wrapping_add(n),
            ..c1
        }), Ok(n)),
        Err(e) => (c1, Err(e)),
    }
}

/// The machine after `n` driver iterations (a halted or faulted machine
/// stays put).
pub open spec fn run_steps_spec(c: CpuView, n: nat) -> CpuView
    decreases n,
{
    if n == 0 {
        c
    } else {
        run_steps_spec(machine_step_spec(c).0, (n - 1) as nat)
    }
}

/// The driver loop's whole outcome, as a total function of the starting
/// state and the iteration budget: iterate whole driver steps until the
/// machine halts, a step faults, or the budget runs out. A fault ends the
/// run at the very state the faulting step left, with that step's own
/// fault as the result: it is reported, never skipped and never invented.
pub open spec fn run_loop_spec(c: CpuView, fuel: nat) -> (CpuView, Result<(), CpuFault>)
    decreases fuel,
{
    if fuel == 0 || c.halted {
        (c, Ok(()))
    } else {
        let (c1, r) = machine_step_spec(c);
        match r {
            Ok(_) => run_loop_spec(c1, (fuel - 1) as nat),
            Err(e) => (c1, Err(e)),
        }
    }
}

/// Unfolding the driver iteration count from the back: one more iteration
/// is one machine step applied to the result of the first `n`.
pub proof fn lemma_run_steps_snoc(c: CpuView, n: nat)
    ensures
        run_steps_spec(c, n + 1) == machine_step_spec(run_steps_spec(c, n)).0,
    decreases n,
{
    reveal_with_fuel(run_steps_spec, 2);
    if n > 0 {
        lemma_run_steps_snoc(machine_step_spec(c).0, (n - 1) as nat);
    }
}

/// A run that ends without a fault lands exactly where the full iteration
/// budget of [`run_steps_spec`] lands: stopping at a halt loses nothing,
/// because a halted machine no longer moves.
pub proof fn lemma_run_loop_ok_reaches(c: CpuView, fuel: nat)
    ensures
        run_loop_spec(c, fuel).1 is Ok ==> run_loop_spec(c, fuel).0 == run_steps_spec(c, fuel),
    decreases fuel,
{
    if fuel > 0 {
        if c.halted {
            lemma_run_steps_halted(c, fuel);
        } else {
            let (c1, r) = machine_step_spec(c);
            if r is Ok {
                lemma_run_loop_ok_reaches(c1, (fuel - 1) as nat);
            }
        }
    }
}

impl CPU {
    /// Dispatch for opcodes 0x00..=0x3F.
    fn exec_op_00(&mut self, op: u8) -> (r: Result<u64, CpuFault>)
        requires
            old(self)@.wf(),
            op < 0x40,
        ensures
            (final(self)@, r) == exec_op_00_spec(old(self)@, op),
            final(self)@.wf(),
    {
        proof {
            reveal(exec_op_00_spec);
        }
        if op == 0x00 {
            self.halted = true;
            proof {
                assert(self@ =~= brk_spec(old(self)@).0);
            }
            Ok(7)
        } else if op == 0x09 {
            Ok(self.logic(&AddressingMode::Immediate, LogicOp::Or))
        } else if op == 0x0A {
            Ok(self.asl_a())
        } else if op == 0x18 {
            self.write_flag(CARRY_FLAG, false);
            Ok(2)
        } else if op == 0x20 {
            Ok(self.jsr())
        } else if op == 0x29 {
            Ok(self.logic(&AddressingMode::Immediate, LogicOp::And))
        } else if op == 0x38 {
            self.write_flag(CARRY_FLAG, true);
            Ok(2)
        } else {
            Err(CpuFault {
                address: self.program_counter.wrapping_sub(1),
                opcode: op,
                cycle: self.bus.cycles,
            })
        }
    }

    /// Dispatch for opcodes 0x40..=0x7F.
    fn exec_op_40(&mut self, op: u8) -> (r: Result<u64, CpuFault>)
        requires
            old(self)@.wf(),
            0x40 <= op < 0x80,
        ensures
            (final(self)@, r) == exec_op_40_spec(old(self)@, op),
            final(self)@.wf(),
    {
        proof {
            reveal(exec_op_40_spec);
        }
        if op == 0x48 {
            Ok(self.pha())
        } else if op == 0x49 {
            Ok(self.logic(&AddressingMode::Immediate, LogicOp::Xor))
        } else if op == 0x4A {
            Ok(self.lsr_a())
        } else if op == 0x4C {
            Ok(self.jmp())
        } else if op == 0x55 {
            Ok(self.logic(&AddressingMode::ZeroPage_X, LogicOp::Xor))
        } else if op == 0x58 {
            self.write_flag(INTERRUPT_FLAG, false);
            Ok(2)
        } else if op == 0x60 {
            Ok(self.rts())
        } else if op == 0x68 {
            Ok(self.pla())
        } else if op == 0x69 {
            Ok(self.adc())
        } else if op == 0x78 {
            self.write_flag(INTERRUPT_FLAG, true);
            Ok(2)
        } else {
            Err(CpuFault {
                address: self.program_counter.wrapping_sub(1),
                opcode: op,
                cycle: self.bus.cycles,
            })
        }
    }

    /// Dispatch for opcodes 0x80..=0x9F.
    fn exec_op_80(&mut self, op: u8) -> (r: Result<u64, CpuFault>)
        requires
            old(self)@.wf(),
            0x80 <= op < 0xA0,
        ensures
            (final(self)@, r) == exec_op_80_spec(old(self)@, op),
            final(self)@.wf(),
    {
        proof {
            reveal(exec_op_80_spec);
        }
        if op == 0x85 {
            Ok(self.sta(&AddressingMode::ZeroPage))
        } else if op == 0x88 {
            Ok(self.dey())
        } else if op == 0x8A {
            Ok(self.txa())
        } else if op == 0x8D {
            Ok(self.sta(&AddressingMode::Absolute))
        } else if op == 0x90 {
            Ok(self.branch(CARRY_FLAG, false))
        } else if op == 0x95 {
            Ok(self.sta(&AddressingMode::ZeroPage_X))
        } else if op == 0x98 {
            Ok(self.tya())
        } else if op == 0x9D {
            Ok(self.sta(&AddressingMode::Absolute_X))
        } else {
            Err(CpuFault {
                address: self.program_counter.wrapping_sub(1),
                opcode: op,
                cycle: self.bus.cycles,
            })
        }
    }

    /// Dispatch for opcodes 0xA0..=0xBF.
    fn exec_op_a0(&mut self, op: u8) -> (r: Result<u64, CpuFault>)
        requires
            old(self)@.wf(),
            0xA0 <= op < 0xC0,
        ensures
            (final(self)@, r) == exec_op_a0_spec(old(self)@, op),
            final(self)@.wf(),
    {
        proof {
            reveal(exec_op_a0_spec);
        }
        if op == 0xA0 {
            Ok(self.ldy(&AddressingMode::Immediate))
        } else if op == 0xA1 {
            Ok(self.lda(&AddressingMode::Indirect_X))
        } else if op == 0xA2 {
            Ok(self.ldx(&AddressingMode::Immediate))
        } else if op == 0xA4 {
            Ok(self.ldy(&AddressingMode::ZeroPage))
        } else if op == 0xA5 {
            Ok(self.lda(&AddressingMode::ZeroPage))
        } else if op == 0xA6 {
            Ok(self.ldx(&AddressingMode::ZeroPage))
        } else if op == 0xA8 {
            Ok(self.tay())
        } else if op == 0xA9 {
            Ok(self.lda(&AddressingMode::Immediate))
        } else if op == 0xAA {
            Ok(self.tax())
        } else if op == 0xAD {
            Ok(self.lda(&AddressingMode::Absolute))
        } else if op == 0xB0 {
            Ok(self.branch(CARRY_FLAG, true))
        } else if op == 0xB1 {
            Ok(self.lda(&AddressingMode::Indirect_Y))
        } else if op == 0xB5 {
            Ok(self.lda(&AddressingMode::ZeroPage_X))
        } else if op == 0xB6 {
            Ok(self.ldx(&AddressingMode::ZeroPage_Y))
        } else if op == 0xB9 {
            Ok(self.lda(&AddressingMode::Absolute_Y))
        } else if op == 0xBD {
            Ok(self.lda(&AddressingMode::Absolute_X))
        } else {
            Err(CpuFault {
                address: self.program_counter.wrapping_sub(1),
                opcode: op,
                cycle: self.bus.cycles,
            })
        }
    }

    /// Dispatch for opcodes 0xC0..=0xFF.
    fn exec_op_c0(&mut self, op: u8) -> (r: Result<u64, CpuFault>)
        requires
            old(self)@.wf(),
            op >= 0xC0,
        ensures
            (final(self)@, r) == exec_op_c0_spec(old(self)@, op),
            final(self)@.wf(),
    {
        proof {
            reveal(exec_op_c0_spec);
        }
        if op == 0xC8 {
            Ok(self.iny())
        } else if op == 0xC9 {
            Ok(self.cmp())
        } else if op == 0xCA {
            Ok(self.dex())
        } else if op == 0xD0 {
            Ok(self.branch(ZERO_FLAG, false))
        } else if op == 0xE8 {
            Ok(self.inx())
        } else if op == 0xE9 {
            Ok(self.sbc())
        } else if op == 0xEA {
            Ok(2)
        } else if op == 0xF0 {
            Ok(self.branch(ZERO_FLAG, true))
        } else {
            Err(CpuFault {
                address: self.program_counter.wrapping_sub(1),
                opcode: op,
                cycle: self.bus.cycles,
            })
        }
    }

    /// One CPU step, exactly as [`step_spec`] states: service a pending
    /// interrupt, or fetch and execute one instruction, returning the
    /// cycles it consumed (stall included) or the fault for an
    /// unimplemented opcode.
    #[verifier::rlimit(100)]
    #[verifier::spinoff_prover]
    pub fn step(&mut self) -> (r: Result<u64, CpuFault>)
        requires
            old(self)@.wf(),
        ensures
            (final(self)@, r) == step_spec(old(self)@),
            final(self)@.wf(),
    {
        if self.halted {
            proof {
                reveal(step_spec);
            }
            return Ok(0);
        }
        let nmi = self.bus.ppu.take_nmi();
        if nmi {
            proof {
                assert(self@ =~= (CpuView {
                    bus: BusView {
                        ppu: crate::ppu::PpuView {
                            nmi_pending: false,
                            ..old(self)@.bus.ppu
                        },
                        ..old(self)@.bus
                    },
                    ..old(self)@
                }));
            }
            self.interrupt(0xFFFA);
            proof {
                reveal(step_spec);
                assert((self@, Ok::<u64, CpuFault>(7)) == step_spec(old(self)@));
            }
            return Ok(7);
        }
        if self.bus.apu.frame_irq && self.status & INTERRUPT_FLAG == 0 {
            proof {
                assert(self@ =~= old(self)@);
            }
            self.interrupt(0xFFFE);
            proof {
                reveal(step_spec);
                assert((self@, Ok::<u64, CpuFault>(7)) == step_spec(old(self)@));
            }
            return Ok(7);
        }
        let op = self.memory_read(self.program_counter);
        self.program_counter = self.program_counter.wrapping_add(1);
        let ghost c2 = self@;
        let r = if op < 0x40 {
            self.exec_op_00(op)
        } else if op < 0x80 {
            self.exec_op_40(op)
        } else if op < 0xA0 {
            self.exec_op_80(op)
        } else if op < 0xC0 {
            self.exec_op_a0(op)
        } else {
            self.exec_op_c0(op)
        };
        proof {
            assert((self@, r) == exec_op_spec(c2, op));
            reveal(step_spec);
            assert((self@, r) == step_spec(old(self)@));
        }
        r
    }

    /// One whole driver iteration, exactly as [`machine_step_spec`] states:
    /// a CPU step, then three picture dots and one audio cycle per CPU
    /// cycle consumed.
    pub fn step_machine(&mut self) -> (r: Result<u64, CpuFault>)
        requires
            old(self)@.wf(),
        ensures
            (final(self)@, r) == machine_step_spec(old(self)@),
            final(self)@.wf(),
    {
        proof {
            reveal(machine_step_spec);
        }
        let r = self.step();
        match r {
            Ok(n) => {
                self.bus.advance(n);
                self.cycles = self.cycles.wrapping_add(n);
                proof {
                    assert(self@ =~= machine_step_spec(old(self)@).0);
                }
                Ok(n)
            },
            Err(e) => Err(e),
        }
    }

    /// The driver loop, bounded: repeats whole driver iterations until the
    /// machine halts (the break instruction), a fault surfaces, or
    /// `max_steps` iterations have run. The whole outcome — final state and
    /// result alike — is exactly what [`run_loop_spec`] says, so a fault is
    /// the genuine fault of the first failing step, reported from the very
    /// state that step left; it is never skipped and never invented. On
    /// success the machine is also exactly what [`run_steps_spec`] says
    /// `max_steps` iterations produce (a halted machine no longer moves, so
    /// stopping at the halt loses nothing).
    pub fn run_for(&mut self, max_steps: u64) -> (r: Result<(), CpuFault>)
        requires
            old(self)@.wf(),
        ensures
            final(self)@.wf(),
            (final(self)@, r) == run_loop_spec(old(self)@, max_steps as nat),
            r is Ok ==> final(self)@ == run_steps_spec(old(self)@, max_steps as nat),
            r matches Err(e) ==> exists|n: nat|
                n < max_steps as nat
                    && #[trigger] machine_step_spec(run_steps_spec(old(self)@, n)).1 == Err::<
                    u64,
                    CpuFault,
                >(e) && final(self)@ == machine_step_spec(run_steps_spec(old(self)@, n)).0
                    && !run_steps_spec(old(self)@, n).halted,
    {
        let ghost c0 = self@;
        let mut i: u64 = 0;
        while i < max_steps
            invariant
                c0 == old(self)@,
                self@.wf(),
                i <= max_steps,
                self@ == run_steps_spec(c0, i as nat),
                run_loop_spec(c0, max_steps as nat) == run_loop_spec(
                    self@,
                    (max_steps - i) as nat,
                ),
                run_steps_spec(c0, max_steps as nat) == run_steps_spec(
                    self@,
                    (max_steps - i) as nat,
                ),
            decreases max_steps - i,
        {
            if self.halted {
                proof {
                    lemma_run_steps_halted(self@, (max_steps - i) as nat);
                    assert(run_loop_spec(self@, (max_steps - i) as nat) == (self@, Ok::<
                        (),
                        CpuFault,
                    >(())));
                    assert(run_steps_spec(c0, max_steps as nat) == self@);
                }
                return Ok(());
            }
            let ghost pre = self@;
            match self.step_machine() {
                Ok(_) => {
                    proof {
                        lemma_run_steps_snoc(c0, i as nat);
                        assert(run_steps_spec(pre, (max_steps - i) as nat) == run_steps_spec(
                            self@,
                            (max_steps - i - 1) as nat,
                        ));
                    }
                },
                Err(e) => {
                    proof {
                        assert(run_loop_spec(pre, (max_steps - i) as nat) == (self@, Err::<
                            (),
                            CpuFault,
                        >(e)));
                        assert(machine_step_spec(run_steps_spec(c0, i as nat)).1 == Err::<
                            u64,
                            CpuFault,
                        >(e));
                    }
                    return Err(e);
                },
            }
            i = i + 1;
        }
        Ok(())
    }

    /// The driver loop: as [`run_for`], with a practically inexhaustible
    /// iteration budget.
    pub fn run(&mut self) -> (r: Result<(), CpuFault>)
        requires
            old(self)@.wf(),
        ensures
            final(self)@.wf(),
            (final(self)@, r) == run_loop_spec(old(self)@, 0xFFFF_FFFF_FFFF_FFFF as nat),
            r is Ok ==> final(self)@ == run_steps_spec(
                old(self)@,
                0xFFFF_FFFF_FFFF_FFFF as nat,
            ),
            r matches Err(e) ==> exists|n: nat|
                n < 0xFFFF_FFFF_FFFF_FFFF
                    && #[trigger] machine_step_spec(run_steps_spec(old(self)@, n)).1 == Err::<
                    u64,
                    CpuFault,
                >(e) && final(self)@ == machine_step_spec(run_steps_spec(old(self)@, n)).0
                    && !run_steps_spec(old(self)@, n).halted,
    {
        self.run_for(0xFFFF_FFFF_FFFF_FFFF)
    }

    /// Loads a program into the test cartridge, resets, and runs until the
    /// machine halts or faults; the whole outcome is pinned by
    /// [`run_loop_spec`] from the freshly reset machine.
    pub fn load_and_run(&mut self, program: Vec<u8>) -> (r: Result<(), CpuFault>)
        requires
            old(self)@.wf(),
            old(self)@.bus.cartridge.prg.len() == 0x8000,
            program@.len() <= 0x7FFA,
        ensures
            final(self)@.wf(),
            (final(self)@, r) == run_loop_spec(
                reset_spec(loaded_prg_spec(old(self)@, program@)),
                0xFFFF_FFFF_FFFF_FFFF as nat,
            ),
            r is Ok ==> final(self)@ == run_steps_spec(
                reset_spec(loaded_prg_spec(old(self)@, program@)),
                0xFFFF_FFFF_FFFF_FFFF as nat,
            ),
            r matches Err(e) ==> exists|n: nat|
                #[trigger] machine_step_spec(
                    run_steps_spec(reset_spec(loaded_prg_spec(old(self)@, program@)), n),
                ).1 == Err::<u64, CpuFault>(e) && final(self)@ == machine_step_spec(
                    run_steps_spec(reset_spec(loaded_prg_spec(old(self)@, program@)), n),
                ).0 && !run_steps_spec(reset_spec(loaded_prg_spec(old(self)@, program@)), n).halted,
    {
        self.load(program);
        self.reset();
        self.run()
    }
}

/// A halted machine no longer moves: any number of driver iterations leave
/// it exactly as it stands.
pub proof fn lemma_run_steps_halted(c: CpuView, n: nat)
    requires
        c.halted,
    ensures
        run_steps_spec(c, n) == c,
    decreases n,
{
    reveal(step_spec);
    reveal(machine_step_spec);
    if n > 0 {
        assert(machine_step_spec(c).0 =~= c);
        lemma_run_steps_halted(machine_step_spec(c).0, (n - 1) as nat);
    }
}

/// A bit-exact copy of the whole machine state, for saving and restoring.
pub struct Snapshot {
    pub state: CPU,
}

impl View for Snapshot {
    type V = CpuView;

    open spec fn view(&self) -> CpuView {
        self.state@
    }
}

/// An exact byte-for-byte copy of a byte vector.
fn copy_bytes(v: &Vec<u8>) -> (r: Vec<u8>)
    ensures
        r@ == v@,
{
    let mut r: Vec<u8> = Vec::new();
    let mut i: usize = 0;
    while i < v.len()
        invariant
            i <= v@.len(),
            r@ == v@.subrange(0, i as int),
        decreases v@.len() - i,
    {
        r.push(v[i]);
        proof {
            assert(r@ =~= v@.subrange(0, i + 1));
        }
        i = i + 1;
    }
    proof {
        assert(r@ =~= v@);
    }
    r
}

/// An exact copy of an audio-output vector.
fn copy_outputs(v: &Vec<crate::apu::ChannelOutput>) -> (r: Vec<crate::apu::ChannelOutput>)
    ensures
        r@ == v@,
{
    let mut r: Vec<crate::apu::ChannelOutput> = Vec::new();
    let mut i: usize = 0;
    while i < v.len()
        invariant
            i <= v@.len(),
            r@ == v@.subrange(0, i as int),
        decreases v@.len() - i,
    {
        r.push(v[i]);
        proof {
            assert(r@ =~= v@.subrange(0, i + 1));
        }
        i = i + 1;
    }
    proof {
        assert(r@ =~= v@);
    }
    r
}

impl CPU {
    /// A machine with exactly this machine's observable state.
    fn duplicate(&self) -> (c: CPU)
        ensures
            c@ == self@,
    {
        let c = CPU {
            register_a: self.register_a,
            register_x: self.register_x,
            register_y: self.register_y,
            status: self.status,
            program_counter: self.program_counter,
            stack_pointer: self.stack_pointer,
            halted: self.halted,
            cycles: self.cycles,
            bus: Bus {
                ram: copy_bytes(&self.bus.ram),
                ppu: crate::ppu::Ppu {
                    ctrl: self.bus.ppu.ctrl,
                    mask: self.bus.ppu.mask,
                    vblank: self.bus.ppu.vblank,
                    sprite_zero_hit: self.bus.ppu.sprite_zero_hit,
                    sprite_overflow: self.bus.ppu.sprite_overflow,
                    oam_addr: self.bus.ppu.oam_addr,
                    oam: copy_bytes(&self.bus.ppu.oam),
                    palette: copy_bytes(&self.bus.ppu.palette),
                    vram: copy_bytes(&self.bus.ppu.vram),
                    v: self.bus.ppu.v,
                    t: self.bus.ppu.t,
                    fine_x: self.bus.ppu.fine_x,
                    w: self.bus.ppu.w,
                    read_buffer: self.bus.ppu.read_buffer,
                    scanline: self.bus.ppu.scanline,
                    cycle: self.bus.ppu.cycle,
                    nmi_pending: self.bus.ppu.nmi_pending,
                    frame: copy_bytes(&self.bus.ppu.frame),
                    frame_ready: self.bus.ppu.frame_ready,
                },
                apu: self.bus.apu,
                controller: self.bus.controller,
                cartridge: Cartridge {
                    prg: copy_bytes(&self.bus.cartridge.prg),
                    chr: copy_bytes(&self.bus.cartridge.chr),
                    prg_ram: copy_bytes(&self.bus.cartridge.prg_ram),
                    kind: self.bus.cartridge.kind,
                    prg_bank: self.bus.cartridge.prg_bank,
                    chr_bank: self.bus.cartridge.chr_bank,
                    mirroring: self.bus.cartridge.mirroring,
                },
                cycles: self.bus.cycles,
                audio: copy_outputs(&self.bus.audio),
            },
        };
        proof {
            assert(c@ =~= self@);
        }
        c
    }

    /// Takes a snapshot: a machine state equal, bit for bit, to this one.
    pub fn save(&self) -> (s: Snapshot)
        ensures
            s@ == self@,
    {
        Snapshot { state: self.duplicate() }
    }

    /// Restores a snapshot: afterwards this machine's state equals the
    /// snapshot, bit for bit, so subsequent execution reproduces what the
    /// saved machine would have done ([`lemma_snapshot_replay`]).
    pub fn restore(&mut self, s: &Snapshot)
        ensures
            final(self)@ == s@,
    {
        *self = s.state.duplicate();
    }
}

/// Law: an indexed zero-page operand wraps within page zero: the operand
/// byte plus the index register is reduced modulo 0x100, so a base of 0xFF
/// with index 0x01 resolves to 0x0000, never 0x0100.
pub proof fn lemma_zero_page_wraparound(c: CpuView)
    ensures
        ({
            let (c1, addr, crossed) = resolve_spec(c, AddressingMode::ZeroPage_X);
            addr == (mem_read_spec(c, c.pc).1 + c.x) % 0x100
        }),
        ({
            let (c1, addr, crossed) = resolve_spec(c, AddressingMode::ZeroPage_Y);
            addr == (mem_read_spec(c, c.pc).1 + c.y) % 0x100
        }),
{
    reveal(resolve_spec);
}

/// Law: an absolute-indexed load costs one cycle more exactly when the
/// index addition crosses a page boundary, and the same instruction
/// without a cross does not pay it.
pub proof fn lemma_page_cross_penalty(c: CpuView, reg: Reg)
    ensures
        ({
            let (c1, addr, crossed) = resolve_spec(c, AddressingMode::Absolute_X);
            load_spec(c, AddressingMode::Absolute_X, reg).1 == if crossed {
                5int
            } else {
                4int
            }
        }),
        ({
            let (c1, addr, crossed) = resolve_spec(c, AddressingMode::Absolute_Y);
            load_spec(c, AddressingMode::Absolute_Y, reg).1 == if crossed {
                5int
            } else {
                4int
            }
        }),
{
}

/// Law: the zero/negative update rule sets the zero flag exactly when the
/// result is 0 and the negative flag exactly when its bit 7 is set, and
/// moves no other flag.
pub proof fn lemma_zn_rule(s: u8, r: u8)
    by (bit_vector)
    ensures
        (update_zn(s, r) & ZERO_FLAG != 0) == (r == 0),
        (update_zn(s, r) & NEGATIVE_FLAG != 0) == (r >= 0x80),
        update_zn(s, r) & CARRY_FLAG == s & CARRY_FLAG,
        update_zn(s, r) & OVERFLOW_FLAG == s & OVERFLOW_FLAG,
        update_zn(s, r) & INTERRUPT_FLAG == s & INTERRUPT_FLAG,
        update_zn(s, r) & DECIMAL_FLAG == s & DECIMAL_FLAG,
{
}

/// Law: execution is a function of the observable machine state alone, so
/// two machines in equal states — such as one that saved a snapshot and one
/// that restored it — step to equal states for any number of further driver
/// iterations: the replay is bit-identical.
pub proof fn lemma_snapshot_replay(c1: CpuView, c2: CpuView, n: nat)
    requires
        c1 == c2,
    ensures
        run_steps_spec(c1, n) == run_steps_spec(c2, n),
{
}

/// Law: the driver loop's whole outcome — final state and result alike,
/// fault or no fault — is a function of the machine state alone: two
/// bit-identical machines, such as one restored from the other's snapshot,
/// reproduce the same run over any iteration budget.
pub proof fn lemma_run_replay(c1: CpuView, c2: CpuView, fuel: nat)
    requires
        c1 == c2,
    ensures
        run_loop_spec(c1, fuel) == run_loop_spec(c2, fuel),
{
}

/// Law: every read-class instruction costs exactly its documented cycle
/// count — immediate 2, zero page 3, indexed zero page 4, absolute 4,
/// indexed absolute 4 plus 1 exactly on a page cross, indexed-indirect 6,
/// indirect-indexed 5 plus 1 exactly on a page cross — a store of the
/// accumulator costs its fixed table (zero page 3, indexed zero page 4)
/// plus only what the write itself stalled, and every instruction leaves
/// the program counter just past its opcode and operand bytes.
#[verifier::rlimit(100)]
#[verifier::spinoff_prover]
pub proof fn lemma_documented_cycle_counts(c: CpuView, mode: AddressingMode, reg: Reg)
    ensures
        load_spec(c, AddressingMode::Immediate, reg).1 == 2,
        load_spec(c, AddressingMode::ZeroPage, reg).1 == 3,
        load_spec(c, AddressingMode::ZeroPage_X, reg).1 == 4,
        load_spec(c, AddressingMode::ZeroPage_Y, reg).1 == 4,
        load_spec(c, AddressingMode::Absolute, reg).1 == 4,
        load_spec(c, AddressingMode::Absolute_X, reg).1 == 4 + (if resolve_spec(
            c,
            AddressingMode::Absolute_X,
        ).2 {
            1int
        } else {
            0int
        }),
        load_spec(c, AddressingMode::Absolute_Y, reg).1 == 4 + (if resolve_spec(
            c,
            AddressingMode::Absolute_Y,
        ).2 {
            1int
        } else {
            0int
        }),
        load_spec(c, AddressingMode::Indirect_X, reg).1 == 6,
        load_spec(c, AddressingMode::Indirect_Y, reg).1 == 5 + (if resolve_spec(
            c,
            AddressingMode::Indirect_Y,
        ).2 {
            1int
        } else {
            0int
        }),
        sta_spec(c, AddressingMode::ZeroPage).1 == 3 + ({
            let (c1, addr, _crossed) = resolve_spec(c, AddressingMode::ZeroPage);
            mem_write_spec(c1, addr, c1.a).1
        }),
        sta_spec(c, AddressingMode::ZeroPage_X).1 == 4 + ({
            let (c1, addr, _crossed) = resolve_spec(c, AddressingMode::ZeroPage_X);
            mem_write_spec(c1, addr, c1.a).1
        }),
        !(mode is NonAddressing) ==> load_spec(c, mode, reg).0.pc == c.pc.wrapping_add(
            mode_len(mode),
        ),
        !(mode is NonAddressing) && !(mode is Immediate) ==> sta_spec(c, mode).0.pc
            == c.pc.wrapping_add(mode_len(mode)),
{
    reveal(resolve_spec);
    // The write's stall is 0 or the bounded sprite-DMA cost, so the store's
    // cycle sum stays far below the counter's width.
    reveal(bus_write_spec);
}

/// Law: the cycles a successful step consumes drive the rest of the
/// machine in lock-step — [`bus_advance_spec`] applies one whole machine
/// cycle (three picture dots and one audio cycle, [`bus_cycle_spec`]) per
/// CPU cycle — and a faulted step drives nothing: the machine stands
/// exactly where the CPU step left it.
pub proof fn lemma_step_drives_clocks(c: CpuView)
    ensures
        machine_step_spec(c).1 matches Ok(n) ==> machine_step_spec(c).0.bus == bus_advance_spec(
            step_spec(c).0.bus,
            n as int,
        ),
        machine_step_spec(c).1 is Err ==> machine_step_spec(c).0 == step_spec(c).0,
{
    reveal(machine_step_spec);
}

} // verus!
