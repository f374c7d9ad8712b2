//! The memory bus: the single point of truth for the 16-bit address space.
//! It owns internal RAM and the picture processor, audio unit, controller
//! and cartridge, routes every CPU access, performs sprite-memory DMA, and
//! advances the picture and audio clocks in lock-step with CPU cycles.

use vstd::prelude::*;
use crate::apu::{
    apu_status_spec, apu_tick_spec, apu_write_spec, lemma_apu_write_wf, ApuView, ChannelOutput,
    APU,
};
use crate::cartridge::{
    cart_cpu_read_spec, cart_cpu_write_spec, Cartridge, CartridgeView,
};
use crate::controller::{controller_read_spec, controller_write_spec, Controller, ControllerView};
use crate::ppu::{
    ppu_read_reg_spec, ppu_tick_spec, ppu_write_reg_spec, render_scanline_spec, Ppu, PpuView,
};

verus! {

/// The most channel-output samples the audio buffer holds before it stops
/// growing (the embedding program is expected to drain it).
pub const AUDIO_CAP: usize = 65536;

/// Mathematical state of the bus and everything it owns.
#[verifier::ext_equal]
pub ghost struct BusView {
    pub ram: Seq<u8>,
    pub ppu: PpuView,
    pub apu: ApuView,
    pub controller: ControllerView,
    pub cartridge: CartridgeView,
    /// CPU cycles the machine has executed since power-on.
    pub cycles: u64,
    /// Undrained per-cycle channel outputs.
    pub audio: Seq<ChannelOutput>,
}

impl BusView {
    /// Well-formedness of the bus and of everything it owns.
    pub open spec fn wf(self) -> bool {
        &&& self.ram.len() == 0x800
        &&& self.ppu.wf()
        &&& self.apu.wf()
        &&& self.cartridge.wf()
    }
}

/// A side-effect-free read of the address space, used by sprite-memory DMA:
/// RAM and cartridge data read as usual; everything register-mapped reads 0
/// rather than triggering its read side effects.
pub open spec fn bus_peek_spec(b: BusView, addr: u16) -> u8 {
    if addr < 0x2000 {
        b.ram[addr as int % 0x800]
    } else if addr >= 0x4020 {
        cart_cpu_read_spec(b.cartridge, addr)
    } else {
        0
    }
}

/// What a CPU read returns and how it moves the machine: RAM is mirrored
/// every 0x800 bytes; the picture processor's registers every 8 bytes, with
/// their read side effects; the audio status read clears the frame
/// interrupt; a controller read shifts its serial register; write-only
/// registers read 0.
#[verifier::opaque]
pub open spec fn bus_read_spec(b: BusView, addr: u16) -> (BusView, u8) {
    if addr < 0x2000 {
        (b, b.ram[addr as int % 0x800])
    } else if addr < 0x4000 {
        let (p, r) = ppu_read_reg_spec(b.ppu, b.cartridge, addr % 8);
        ((BusView { ppu: p, ..b }), r)
    } else if addr == 0x4015 {
        ((BusView { apu: ApuView { frame_irq: false, ..b.apu }, ..b }), apu_status_spec(b.apu))
    } else if addr == 0x4016 {
        let (c, r) = controller_read_spec(b.controller);
        ((BusView { controller: c, ..b }), r)
    } else if addr >= 0x4020 {
        (b, cart_cpu_read_spec(b.cartridge, addr))
    } else {
        (b, 0)
    }
}

/// The sprite memory after `n` bytes of DMA from the given source page:
/// byte `i` of the page lands at `oam_addr + i`, wrapping within the
/// 256-byte table.
pub open spec fn dma_oam_spec(b: BusView, page: u8, n: int) -> Seq<u8>
    decreases n,
{
    if n <= 0 {
        b.ppu.oam
    } else {
        dma_oam_spec(b, page, n - 1).update(
            (b.ppu.oam_addr + n - 1) % 256,
            bus_peek_spec(b, (page * 0x100 + n - 1) as u16),
        )
    }
}

/// What a CPU write does and what it costs: RAM and register routing as for
/// reads; a write to 0x4014 performs whole-page sprite-memory DMA and
/// stalls the CPU for 513 cycles, or 514 when it lands on an odd cycle;
/// every other write costs nothing extra.
#[verifier::opaque]
pub open spec fn bus_write_spec(b: BusView, addr: u16, value: u8) -> (BusView, u64) {
    if addr < 0x2000 {
        ((BusView { ram: b.ram.update(addr as int % 0x800, value), ..b }), 0)
    } else if addr < 0x4000 {
        ((BusView {
            ppu: ppu_write_reg_spec(b.ppu, b.cartridge.mirroring, addr % 8, value),
            ..b
        }), 0)
    } else if addr == 0x4014 {
        ((BusView { ppu: PpuView { oam: dma_oam_spec(b, value, 256), ..b.ppu }, ..b }), (513 + b.cycles
            % 2) as u64)
    } else if addr == 0x4016 {
        ((BusView { controller: controller_write_spec(b.controller, value), ..b }), 0)
    } else if addr < 0x4020 {
        ((BusView { apu: apu_write_spec(b.apu, addr, value), ..b }), 0)
    } else {
        ((BusView { cartridge: cart_cpu_write_spec(b.cartridge, addr, value), ..b }), 0)
    }
}

/// One dot of the picture processor: the timing machine advances, and the
/// dot that moves a visible scanline past its last drawn pixel renders that
/// line whole (when rendering is enabled) — a conceptual stand-in for the
/// dot-by-dot pixel pipeline that keeps register writes during the line
/// from reaching back into lines already drawn.
pub open spec fn ppu_dot_spec(p: PpuView, c: CartridgeView) -> PpuView {
    let p1 = ppu_tick_spec(p).0;
    if p1.scanline < 240 && p1.cycle == 257 && p1.rendering_enabled() {
        render_scanline_spec(p1, c, p1.scanline as int)
    } else {
        p1
    }
}

/// One CPU cycle of the rest of the machine: the picture processor advances
/// three dots, the audio unit one cycle whose output joins the audio buffer
/// (unless full), and the cycle counter moves on.
pub open spec fn bus_cycle_spec(b: BusView) -> BusView {
    let p1 = ppu_dot_spec(b.ppu, b.cartridge);
    let p2 = ppu_dot_spec(p1, b.cartridge);
    let p3 = ppu_dot_spec(p2, b.cartridge);
    let (a1, out) = apu_tick_spec(b.apu);
    BusView {
        ppu: p3,
        apu: a1,
        cycles: b.cycles.wrapping_add(1),
        audio: if b.audio.len() < AUDIO_CAP {
            b.audio.push(out)
        } else {
            b.audio
        },
        ..b
    }
}

/// The machine after `n` whole CPU cycles of picture and audio advancement.
pub open spec fn bus_advance_spec(b: BusView, n: int) -> BusView
    decreases n,
{
    if n <= 0 {
        b
    } else {
        bus_cycle_spec(bus_advance_spec(b, n - 1))
    }
}

/// The bus and everything it owns.
pub struct Bus {
    pub ram: Vec<u8>,
    pub ppu: Ppu,
    pub apu: APU,
    pub controller: Controller,
    pub cartridge: Cartridge,
    pub cycles: u64,
    pub audio: Vec<ChannelOutput>,
}

impl View for Bus {
    type V = BusView;

    open spec fn view(&self) -> BusView {
        BusView {
            ram: self.ram@,
            ppu: self.ppu@,
            apu: self.apu@,
            controller: self.controller@,
            cartridge: self.cartridge@,
            cycles: self.cycles,
            audio: self.audio@,
        }
    }
}

impl Bus {
    /// A bus at power-on around the given cartridge: RAM zeroed, every
    /// device in its power-on state, the cycle counter at zero.
    pub fn new(cartridge: Cartridge) -> (b: Bus)
        requires
            cartridge@.wf(),
        ensures
            b@.wf(),
            b@.ram == Seq::new(0x800, |i: int| 0u8),
            b@.ppu == crate::ppu::ppu_poweron(),
            b@.apu == crate::apu::apu_poweron(),
            b@.controller == (ControllerView { buttons: 0, shift: 0, strobe: false, index: 0 }),
            b@.cartridge == cartridge@,
            b@.cycles == 0,
            b@.audio == Seq::<ChannelOutput>::empty(),
    {
        let ram: Vec<u8> = vec![0u8; 0x800];
        let audio: Vec<ChannelOutput> = Vec::new();
        proof {
            assert(ram@ =~= Seq::new(0x800, |i: int| 0u8));
            assert(audio@ =~= Seq::<ChannelOutput>::empty());
        }
        Bus {
            ram,
            ppu: Ppu::new(),
            apu: APU::new(),
            controller: Controller::new(),
            cartridge,
            cycles: 0,
            audio,
        }
    }

    /// Side-effect-free read, exactly as [`bus_peek_spec`] states.
    pub fn peek(&self, addr: u16) -> (r: u8)
        requires
            self@.wf(),
        ensures
            r == bus_peek_spec(self@, addr),
    {
        if addr < 0x2000 {
            self.ram[(addr % 0x800) as usize]
        } else if addr >= 0x4020 {
            self.cartridge.cpu_read(addr)
        } else {
            0
        }
    }

    /// CPU read, exactly as [`bus_read_spec`] states.
    pub fn read(&mut self, addr: u16) -> (r: u8)
        requires
            old(self)@.wf(),
        ensures
            (final(self)@, r) == bus_read_spec(old(self)@, addr),
            final(self)@.wf(),
    {
        proof {
            reveal(bus_read_spec);
        }
        if addr < 0x2000 {
            self.ram[(addr % 0x800) as usize]
        } else if addr < 0x4000 {
            let r = self.ppu.read_register(&self.cartridge, addr % 8);
            proof {
                assert(self@ =~= (BusView {
                    ppu: ppu_read_reg_spec(old(self)@.ppu, old(self)@.cartridge, addr % 8).0,
                    ..old(self)@
                }));
            }
            r
        } else if addr == 0x4015 {
            self.apu.read_register(addr)
        } else if addr == 0x4016 {
            self.controller.read()
        } else if addr >= 0x4020 {
            self.cartridge.cpu_read(addr)
        } else {
            0
        }
    }

    /// Sprite-memory DMA: copies the 256 bytes of the given source page
    /// into sprite memory, starting at the current sprite address.
    fn oam_dma(&mut self, page: u8)
        requires
            old(self)@.wf(),
        ensures
            final(self)@ == (BusView {
                ppu: PpuView { oam: dma_oam_spec(old(self)@, page, 256), ..old(self)@.ppu },
                ..old(self)@
            }),
            final(self)@.wf(),
    {
        let ghost pre = self@;
        let mut i: usize = 0;
        while i < 256
            invariant
                pre.wf(),
                i <= 256,
                self.ppu.oam@.len() == 256,
                self@ == (BusView {
                    ppu: PpuView { oam: dma_oam_spec(pre, page, i as int), ..pre.ppu },
                    ..pre
                }),
            decreases 256 - i,
        {
            let byte = self.peek(page as u16 * 0x100 + i as u16);
            let dst = (self.ppu.oam_addr as usize + i) % 256;
            self.ppu.oam.set(dst, byte);
            proof {
                assert(self@ =~= (BusView {
                    ppu: PpuView { oam: dma_oam_spec(pre, page, i + 1), ..pre.ppu },
                    ..pre
                }));
            }
            i = i + 1;
        }
    }

    /// CPU write, exactly as [`bus_write_spec`] states; returns the number
    /// of stall cycles the write costs the CPU (nonzero only for
    /// sprite-memory DMA).
    pub fn write(&mut self, addr: u16, value: u8) -> (stall: u64)
        requires
            old(self)@.wf(),
        ensures
            (final(self)@, stall) == bus_write_spec(old(self)@, addr, value),
            final(self)@.wf(),
            stall <= 514,
    {
        proof {
            reveal(bus_write_spec);
        }
        if addr < 0x2000 {
            self.ram.set((addr % 0x800) as usize, value);
            proof {
                assert(self@ =~= (BusView {
                    ram: old(self)@.ram.update(addr as int % 0x800, value),
                    ..old(self)@
                }));
            }
            0
        } else if addr < 0x4000 {
            self.ppu.write_register(self.cartridge.mirroring, addr % 8, value);
            proof {
                assert(self@ =~= (BusView {
                    ppu: ppu_write_reg_spec(
                        old(self)@.ppu,
                        old(self)@.cartridge.mirroring,
                        addr % 8,
                        value,
                    ),
                    ..old(self)@
                }));
            }
            0
        } else if addr == 0x4014 {
            self.oam_dma(value);
            513 + self.cycles % 2
        } else if addr == 0x4016 {
            self.controller.write(value);
            proof {
                assert(self@ =~= (BusView {
                    controller: controller_write_spec(old(self)@.controller, value),
                    ..old(self)@
                }));
            }
            0
        } else if addr < 0x4020 {
            self.apu.write_register(addr, value);
            proof {
                lemma_apu_write_wf(old(self)@.apu, addr, value);
                assert(self@ =~= (BusView {
                    apu: apu_write_spec(old(self)@.apu, addr, value),
                    ..old(self)@
                }));
            }
            0
        } else {
            self.cartridge.cpu_write(addr, value);
            proof {
                assert(self@ =~= (BusView {
                    cartridge: cart_cpu_write_spec(old(self)@.cartridge, addr, value),
                    ..old(self)@
                }));
            }
            0
        }
    }

    /// One CPU cycle of the rest of the machine, exactly as
    /// [`bus_cycle_spec`] states.
    /// One picture dot, exactly as [`ppu_dot_spec`] states.
    fn ppu_dot(&mut self)
        requires
            old(self)@.wf(),
        ensures
            final(self)@ == (BusView {
                ppu: ppu_dot_spec(old(self)@.ppu, old(self)@.cartridge),
                ..old(self)@
            }),
            final(self)@.wf(),
    {
        self.ppu.tick();
        if self.ppu.scanline < 240 && self.ppu.cycle == 257 && self.ppu.rendering_on() {
            self.ppu.render_scanline(&self.cartridge);
        }
        proof {
            assert(self@ =~= (BusView {
                ppu: ppu_dot_spec(old(self)@.ppu, old(self)@.cartridge),
                ..old(self)@
            }));
        }
    }

    fn cycle(&mut self)
        requires
            old(self)@.wf(),
        ensures
            final(self)@ == bus_cycle_spec(old(self)@),
            final(self)@.wf(),
    {
        self.ppu_dot();
        self.ppu_dot();
        self.ppu_dot();
        let out = self.apu.tick();
        self.cycles = self.cycles.wrapping_add(1);
        if self.audio.len() < AUDIO_CAP {
            self.audio.push(out);
        }
        proof {
            assert(self@ =~= bus_cycle_spec(old(self)@));
        }
    }

    /// Advances the picture and audio clocks by `n` whole CPU cycles,
    /// exactly as [`bus_advance_spec`] states.
    pub fn advance(&mut self, n: u64)
        requires
            old(self)@.wf(),
        ensures
            final(self)@ == bus_advance_spec(old(self)@, n as int),
            final(self)@.wf(),
    {
        let ghost pre = self@;
        let mut i: u64 = 0;
        while i < n
            invariant
                i <= n,
                self@ == bus_advance_spec(pre, i as int),
                self@.wf(),
            decreases n - i,
        {
            self.cycle();
            i = i + 1;
        }
    }

    /// Hands the undrained channel outputs to the embedding program and
    /// empties the buffer.
    pub fn take_audio(&mut self) -> (out: Vec<ChannelOutput>)
        ensures
            out@ == old(self)@.audio,
            final(self)@ == (BusView { audio: Seq::<ChannelOutput>::empty(), ..old(self)@ }),
    {
        let mut out: Vec<ChannelOutput> = Vec::new();
        let mut i: usize = 0;
        while i < self.audio.len()
            invariant
                i <= self.audio@.len(),
                out@ == self.audio@.subrange(0, i as int),
                self@ == old(self)@,
            decreases self.audio@.len() - i,
        {
            out.push(self.audio[i]);
            proof {
                assert(out@ =~= self.audio@.subrange(0, i + 1));
            }
            i = i + 1;
        }
        self.audio.clear();
        proof {
            assert(out@ =~= old(self)@.audio);
            assert(self@ =~= (BusView { audio: Seq::<ChannelOutput>::empty(), ..old(self)@ }));
        }
        out
    }
}

/// Law: internal RAM is mirrored every 0x800 bytes: a write anywhere below
/// 0x2000 is observable, unchanged, at every alias of that address.
pub proof fn lemma_ram_mirroring(b: BusView, a: u16, alias: u16, v: u8)
    requires
        b.wf(),
        a < 0x2000,
        alias < 0x2000,
        a % 0x800 == alias % 0x800,
    ensures
        bus_read_spec(bus_write_spec(b, a, v).0, alias).1 == v,
{
    reveal(bus_read_spec);
    reveal(bus_write_spec);
}

/// Law: triggering sprite-memory DMA costs exactly 513 cycles, or 514 when
/// the trigger lands on an odd machine cycle.
pub proof fn lemma_dma_cost(b: BusView, page: u8)
    ensures
        bus_write_spec(b, 0x4014, page).1 == 513 + b.cycles % 2,
{
    reveal(bus_write_spec);
}

} // verus!
