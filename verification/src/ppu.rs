//! The picture processor: its CPU-visible registers with their read side
//! effects, object attribute memory, nametable and palette memory, and the
//! scanline/cycle timing state machine that raises the vertical-blank
//! interrupt.

use vstd::prelude::*;
use crate::cartridge::{cart_chr_read_spec, Cartridge, CartridgeView, Mirroring};

verus! {

/// Pixels per frame line.
pub const FRAME_WIDTH: u16 = 256;

/// Visible lines per frame.
pub const FRAME_HEIGHT: u16 = 240;

/// The last scanline (the pre-render line).
pub const LAST_SCANLINE: u16 = 261;

/// The last cycle within a scanline.
pub const LAST_CYCLE: u16 = 340;

/// The scanline whose first cycle enters vertical blank.
pub const VBLANK_SCANLINE: u16 = 241;

/// Maps a nametable-space address (0x2000..=0x3EFF) to an index into the
/// 2 KiB of internal video RAM, according to the cartridge's mirroring.
/// With only two physical tables, the four-screen arrangement falls back to
/// the vertical layout.
pub open spec fn mirror_vram_spec(addr: u16, m: Mirroring) -> int {
    let idx = (addr - 0x2000) % 0x1000;
    let table = idx / 0x400;
    let off = idx % 0x400;
    let phys = match m {
        Mirroring::Horizontal => table / 2,
        Mirroring::Vertical => table % 2,
        Mirroring::SingleScreen => 0,
        Mirroring::FourScreen => table % 2,
    };
    phys * 0x400 + off
}

/// Maps a palette-space address (0x3F00..=0x3FFF) to an index into the 32
/// bytes of palette RAM: 32-byte mirroring, with the sprite background
/// entries 0x10/0x14/0x18/0x1C aliasing the background set.
pub open spec fn palette_index_spec(addr: u16) -> int {
    let p = (addr - 0x3F00) % 0x20;
    if p % 4 == 0 && p >= 0x10 {
        p - 0x10
    } else {
        p as int
    }
}

/// Mathematical state of the picture processor.
#[verifier::ext_equal]
pub ghost struct PpuView {
    pub ctrl: u8,
    pub mask: u8,
    pub vblank: bool,
    pub sprite_zero_hit: bool,
    pub sprite_overflow: bool,
    pub oam_addr: u8,
    pub oam: Seq<u8>,
    pub palette: Seq<u8>,
    pub vram: Seq<u8>,
    /// Current 15-bit video-memory address.
    pub v: u16,
    /// Temporary 15-bit address assembled by the latched writes.
    pub t: u16,
    pub fine_x: u8,
    /// The shared write toggle of the scroll and address latches.
    pub w: bool,
    pub read_buffer: u8,
    pub scanline: u16,
    pub cycle: u16,
    pub nmi_pending: bool,
    pub frame: Seq<u8>,
    pub frame_ready: bool,
}

impl PpuView {
    /// Field ranges every reachable picture-processor state satisfies.
    pub open spec fn wf(self) -> bool {
        &&& self.oam.len() == 256
        &&& self.palette.len() == 32
        &&& self.vram.len() == 0x800
        &&& self.frame.len() == FRAME_WIDTH * FRAME_HEIGHT
        &&& self.v < 0x8000
        &&& self.t < 0x8000
        &&& self.fine_x < 8
        &&& self.scanline <= LAST_SCANLINE
        &&& self.cycle <= LAST_CYCLE
    }

    /// The address increment a data-port access applies: 32 in column mode,
    /// 1 otherwise, selected by control bit 2.
    pub open spec fn vram_increment(self) -> u16 {
        if (self.ctrl / 4) % 2 == 1 { 32 } else { 1 }
    }

    /// Whether the control register enables the vertical-blank interrupt.
    pub open spec fn nmi_enabled(self) -> bool {
        self.ctrl >= 128
    }

    /// Whether the mask register has background or sprite rendering on.
    pub open spec fn rendering_enabled(self) -> bool {
        (self.mask / 8) % 2 == 1 || (self.mask / 16) % 2 == 1
    }

    /// Sprite height: 16 rows when control bit 5 is set, 8 otherwise.
    pub open spec fn sprite_height(self) -> int {
        if (self.ctrl / 32) % 2 == 1 {
            16
        } else {
            8
        }
    }
}

/// What the picture processor's own memory space holds at `addr % 0x4000`
/// (reads only; pattern space comes from the cartridge).
pub open spec fn ppu_mem_read_spec(p: PpuView, c: CartridgeView, addr: u16) -> u8 {
    let a = addr % 0x4000;
    if a < 0x2000 {
        cart_chr_read_spec(c, a)
    } else if a < 0x3F00 {
        p.vram[mirror_vram_spec(a, c.mirroring)]
    } else {
        p.palette[palette_index_spec(a)]
    }
}

/// Effect of a write into the picture processor's own memory space:
/// nametables and palette accept the byte; pattern space is cartridge data
/// and ignores it.
pub open spec fn ppu_mem_write_spec(p: PpuView, m: Mirroring, addr: u16, value: u8) -> PpuView {
    let a = addr % 0x4000;
    if a < 0x2000 {
        p
    } else if a < 0x3F00 {
        PpuView { vram: p.vram.update(mirror_vram_spec(a, m), value), ..p }
    } else {
        PpuView { palette: p.palette.update(palette_index_spec(a), value), ..p }
    }
}

/// The status byte: vblank, sprite-zero hit and sprite overflow in the top
/// three bits.
pub open spec fn ppu_status_byte(p: PpuView) -> u8 {
    ((if p.vblank { 128u16 } else { 0u16 }) + (if p.sprite_zero_hit { 64u16 } else { 0u16 }) + (
    if p.sprite_overflow { 32u16 } else { 0u16 })) as u8
}

/// Effect of a CPU read of register `reg` (0..=7). Reading the status
/// register reports the flags, then clears vblank and the write toggle;
/// reading object attribute memory does not advance the address; reading
/// the data port goes through the buffered-read rule and advances the
/// video-memory address. Everything else reads 0 with no effect.
#[verifier::opaque]
pub open spec fn ppu_read_reg_spec(p: PpuView, c: CartridgeView, reg: u16) -> (PpuView, u8) {
    if reg == 2 {
        ((PpuView { vblank: false, w: false, ..p }), ppu_status_byte(p))
    } else if reg == 4 {
        (p, p.oam[p.oam_addr as int])
    } else if reg == 7 {
        let a = p.v % 0x4000;
        let fetched = ppu_mem_read_spec(p, c, a);
        let r: u8 = if a < 0x3F00 {
            p.read_buffer
        } else {
            fetched
        };
        ((PpuView {
            read_buffer: fetched,
            v: ((p.v + p.vram_increment()) % 0x8000) as u16,
            ..p
        }), r)
    } else {
        (p, 0)
    }
}

/// The coarse horizontal tile index held in an assembled address.
pub open spec fn coarse_x(t: u16) -> u16 {
    t % 0x20
}

/// The coarse vertical tile index held in an assembled address.
pub open spec fn coarse_y(t: u16) -> u16 {
    (t / 0x20) % 0x20
}

/// The nametable selection held in an assembled address.
pub open spec fn nt_select(t: u16) -> u16 {
    (t / 0x400) % 4
}

/// The fine vertical scroll held in an assembled address.
pub open spec fn fine_y(t: u16) -> u16 {
    (t / 0x1000) % 8
}

/// Reassembles a 15-bit address from its scroll components.
pub open spec fn compose_addr(fy: u16, nt: u16, cy: u16, cx: u16) -> u16 {
    (fy * 0x1000 + nt * 0x400 + cy * 0x20 + cx) as u16
}

/// Effect of a CPU write to register `reg` (0..=7). The scroll and address
/// registers share the write toggle; the second address write copies the
/// assembled temporary address into the live one; a data-port write stores
/// through the current address and advances it.
#[verifier::opaque]
pub open spec fn ppu_write_reg_spec(p: PpuView, m: Mirroring, reg: u16, value: u8) -> PpuView {
    if reg == 0 {
        PpuView {
            ctrl: value,
            t: compose_addr(fine_y(p.t), (value % 4) as u16, coarse_y(p.t), coarse_x(p.t)),
            ..p
        }
    } else if reg == 1 {
        PpuView { mask: value, ..p }
    } else if reg == 3 {
        PpuView { oam_addr: value, ..p }
    } else if reg == 4 {
        PpuView {
            oam: p.oam.update(p.oam_addr as int, value),
            oam_addr: p.oam_addr.wrapping_add(1),
            ..p
        }
    } else if reg == 5 {
        if !p.w {
            PpuView {
                t: compose_addr(fine_y(p.t), nt_select(p.t), coarse_y(p.t), (value / 8) as u16),
                fine_x: (value % 8) as u8,
                w: true,
                ..p
            }
        } else {
            PpuView {
                t: compose_addr((value % 8) as u16, nt_select(p.t), (value / 8) as u16, coarse_x(p.t)),
                w: false,
                ..p
            }
        }
    } else if reg == 6 {
        if !p.w {
            PpuView { t: (p.t % 0x100 + (value % 0x40) * 0x100) as u16, w: true, ..p }
        } else {
            let nt = ((p.t / 0x100) * 0x100 + value) as u16;
            PpuView { t: nt, v: nt, w: false, ..p }
        }
    } else if reg == 7 {
        let p2 = ppu_mem_write_spec(p, m, p.v % 0x4000, value);
        PpuView { v: ((p.v + p.vram_increment()) % 0x8000) as u16, ..p2 }
    } else {
        p
    }
}

/// One dot of the timing state machine: the cycle counter advances, wrapping
/// into scanlines and frames; entering cycle 1 of the vblank scanline sets
/// the vblank flag, marks the frame ready, and raises the interrupt line if
/// enabled; cycle 1 of the pre-render scanline clears the frame's flags.
pub open spec fn ppu_tick_spec(p: PpuView) -> (PpuView, bool) {
    let p1 = if p.cycle >= LAST_CYCLE {
        if p.scanline >= LAST_SCANLINE {
            PpuView { cycle: 0, scanline: 0, ..p }
        } else {
            PpuView { cycle: 0, scanline: (p.scanline + 1) as u16, ..p }
        }
    } else {
        PpuView { cycle: (p.cycle + 1) as u16, ..p }
    };
    if p1.scanline == VBLANK_SCANLINE && p1.cycle == 1 {
        if p1.nmi_enabled() {
            ((PpuView { vblank: true, frame_ready: true, nmi_pending: true, ..p1 }), true)
        } else {
            ((PpuView { vblank: true, frame_ready: true, ..p1 }), false)
        }
    } else if p1.scanline == LAST_SCANLINE && p1.cycle == 1 {
        ((PpuView {
            vblank: false,
            sprite_zero_hit: false,
            sprite_overflow: false,
            frame_ready: false,
            ..p1
        }), false)
    } else {
        (p1, false)
    }
}

/// The picture processor's power-on state: all memories zeroed, the timing
/// machine at the top of the frame.
pub open spec fn ppu_poweron() -> PpuView {
    PpuView {
        ctrl: 0,
        mask: 0,
        vblank: false,
        sprite_zero_hit: false,
        sprite_overflow: false,
        oam_addr: 0,
        oam: Seq::new(256, |i: int| 0u8),
        palette: Seq::new(32, |i: int| 0u8),
        vram: Seq::new(0x800, |i: int| 0u8),
        v: 0,
        t: 0,
        fine_x: 0,
        w: false,
        read_buffer: 0,
        scanline: 0,
        cycle: 0,
        nmi_pending: false,
        frame: Seq::new((FRAME_WIDTH * FRAME_HEIGHT) as nat, |i: int| 0u8),
        frame_ready: false,
    }
}

/// The picture processor.
pub struct Ppu {
    pub ctrl: u8,
    pub mask: u8,
    pub vblank: bool,
    pub sprite_zero_hit: bool,
    pub sprite_overflow: bool,
    pub oam_addr: u8,
    pub oam: Vec<u8>,
    pub palette: Vec<u8>,
    pub vram: Vec<u8>,
    pub v: u16,
    pub t: u16,
    pub fine_x: u8,
    pub w: bool,
    pub read_buffer: u8,
    pub scanline: u16,
    pub cycle: u16,
    pub nmi_pending: bool,
    pub frame: Vec<u8>,
    pub frame_ready: bool,
}

impl View for Ppu {
    type V = PpuView;

    open spec fn view(&self) -> PpuView {
        PpuView {
            ctrl: self.ctrl,
            mask: self.mask,
            vblank: self.vblank,
            sprite_zero_hit: self.sprite_zero_hit,
            sprite_overflow: self.sprite_overflow,
            oam_addr: self.oam_addr,
            oam: self.oam@,
            palette: self.palette@,
            vram: self.vram@,
            v: self.v,
            t: self.t,
            fine_x: self.fine_x,
            w: self.w,
            read_buffer: self.read_buffer,
            scanline: self.scanline,
            cycle: self.cycle,
            nmi_pending: self.nmi_pending,
            frame: self.frame@,
            frame_ready: self.frame_ready,
        }
    }
}

impl Ppu {
    /// The picture processor at power-on: all memories zeroed, the timing
    /// machine at the top of the frame.
    pub fn new() -> (p: Ppu)
        ensures
            p@ == ppu_poweron(),
            p@.wf(),
    {
        let oam: Vec<u8> = vec![0u8; 256];
        let palette: Vec<u8> = vec![0u8; 32];
        let vram: Vec<u8> = vec![0u8; 0x800];
        let frame: Vec<u8> = vec![0u8; 256 * 240];
        proof {
            assert(oam@ =~= Seq::new(256, |i: int| 0u8));
            assert(palette@ =~= Seq::new(32, |i: int| 0u8));
            assert(vram@ =~= Seq::new(0x800, |i: int| 0u8));
            assert(frame@ =~= Seq::new((FRAME_WIDTH * FRAME_HEIGHT) as nat, |i: int| 0u8));
        }
        let p = 
        Ppu {
            ctrl: 0,
            mask: 0,
            vblank: false,
            sprite_zero_hit: false,
            sprite_overflow: false,
            oam_addr: 0,
            oam,
            palette,
            vram,
            v: 0,
            t: 0,
            fine_x: 0,
            w: false,
            read_buffer: 0,
            scanline: 0,
            cycle: 0,
            nmi_pending: false,
            frame,
            frame_ready: false,
        };
        proof {
            assert(p@ =~= ppu_poweron());
        }
        p
    }

    /// Executable nametable mirroring.
    pub fn mirror_vram(addr: u16, m: Mirroring) -> (idx: usize)
        requires
            0x2000 <= addr < 0x4000,
        ensures
            idx == mirror_vram_spec(addr, m),
            idx < 0x800,
    {
        let idx = (addr - 0x2000) % 0x1000;
        let table = idx / 0x400;
        let off = idx % 0x400;
        let phys: u16 = match m {
            Mirroring::Horizontal => table / 2,
            Mirroring::Vertical => table % 2,
            Mirroring::SingleScreen => 0,
            Mirroring::FourScreen => table % 2,
        };
        (phys * 0x400 + off) as usize
    }

    /// Executable palette indexing.
    pub fn palette_index(addr: u16) -> (idx: usize)
        requires
            0x3F00 <= addr < 0x4000,
        ensures
            idx == palette_index_spec(addr),
            idx < 32,
    {
        let p = (addr - 0x3F00) % 0x20;
        if p % 4 == 0 && p >= 0x10 {
            (p - 0x10) as usize
        } else {
            p as usize
        }
    }

    /// Read of the picture processor's own memory space, exactly as
    /// [`ppu_mem_read_spec`] states.
    pub fn mem_read(&self, cart: &Cartridge, addr: u16) -> (r: u8)
        requires
            self@.wf(),
            cart@.wf(),
        ensures
            r == ppu_mem_read_spec(self@, cart@, addr),
    {
        let a = addr % 0x4000;
        if a < 0x2000 {
            cart.chr_read(a)
        } else if a < 0x3F00 {
            let idx = Self::mirror_vram(a, cart.mirroring);
            self.vram[idx]
        } else {
            let idx = Self::palette_index(a);
            self.palette[idx]
        }
    }

    /// Write into the picture processor's own memory space, exactly as
    /// [`ppu_mem_write_spec`] states.
    pub fn mem_write(&mut self, m: Mirroring, addr: u16, value: u8)
        requires
            old(self)@.wf(),
        ensures
            final(self)@ == ppu_mem_write_spec(old(self)@, m, addr, value),
            final(self)@.wf(),
    {
        let a = addr % 0x4000;
        if a < 0x2000 {
        } else if a < 0x3F00 {
            let idx = Self::mirror_vram(a, m);
            self.vram.set(idx, value);
            proof {
                assert(self@ =~= ppu_mem_write_spec(old(self)@, m, addr, value));
            }
        } else {
            let idx = Self::palette_index(a);
            self.palette.set(idx, value);
            proof {
                assert(self@ =~= ppu_mem_write_spec(old(self)@, m, addr, value));
            }
        }
    }

    /// CPU read of register `reg` (0..=7), exactly as [`ppu_read_reg_spec`]
    /// states.
    pub fn read_register(&mut self, cart: &Cartridge, reg: u16) -> (r: u8)
        requires
            old(self)@.wf(),
            cart@.wf(),
            reg < 8,
        ensures
            (final(self)@, r) == ppu_read_reg_spec(old(self)@, cart@, reg),
            final(self)@.wf(),
    {
        proof {
            reveal(ppu_read_reg_spec);
        }
        if reg == 2 {
            let mut status: u8 = 0;
            if self.vblank {
                status = status + 128;
            }
            if self.sprite_zero_hit {
                status = status + 64;
            }
            if self.sprite_overflow {
                status = status + 32;
            }
            self.vblank = false;
            self.w = false;
            status
        } else if reg == 4 {
            self.oam[self.oam_addr as usize]
        } else if reg == 7 {
            let a = self.v % 0x4000;
            let fetched = self.mem_read(cart, a);
            let r: u8 = if a < 0x3F00 {
                self.read_buffer
            } else {
                fetched
            };
            self.read_buffer = fetched;
            let inc: u16 = if (self.ctrl / 4) % 2 == 1 { 32 } else { 1 };
            self.v = (self.v + inc) % 0x8000;
            r
        } else {
            0
        }
    }

    /// Write to the control register: the byte is stored and the nametable
    /// selection enters the temporary address.
    fn write_ctrl(&mut self, value: u8)
        requires
            old(self)@.wf(),
        ensures
            final(self)@ == ppu_write_reg_spec(old(self)@, Mirroring::Horizontal, 0, value),
            final(self)@.wf(),
    {
        self.ctrl = value;
        self.t = ((self.t / 0x1000) % 8) * 0x1000 + (value % 4) as u16 * 0x400 + ((self.t / 0x20)
            % 0x20) * 0x20 + self.t % 0x20;
        proof {
            reveal(ppu_write_reg_spec);
            assert(self@.t == compose_addr(
                fine_y(old(self)@.t),
                (value % 4) as u16,
                coarse_y(old(self)@.t),
                coarse_x(old(self)@.t),
            ));
        }
    }

    /// Write to the scroll register, on either side of the write toggle.
    fn write_scroll(&mut self, value: u8)
        requires
            old(self)@.wf(),
        ensures
            final(self)@ == ppu_write_reg_spec(old(self)@, Mirroring::Horizontal, 5, value),
            final(self)@.wf(),
    {
        proof {
            reveal(ppu_write_reg_spec);
        }
        if !self.w {
            self.t = ((self.t / 0x1000) % 8) * 0x1000 + ((self.t / 0x400) % 4) * 0x400 + ((self.t
                / 0x20) % 0x20) * 0x20 + (value / 8) as u16;
            self.fine_x = value % 8;
            self.w = true;
            proof {
                assert(self@.t == compose_addr(
                    fine_y(old(self)@.t),
                    nt_select(old(self)@.t),
                    coarse_y(old(self)@.t),
                    (value / 8) as u16,
                ));
            }
        } else {
            self.t = (value % 8) as u16 * 0x1000 + ((self.t / 0x400) % 4) * 0x400 + (value
                / 8) as u16 * 0x20 + self.t % 0x20;
            self.w = false;
            proof {
                assert(self@.t == compose_addr(
                    (value % 8) as u16,
                    nt_select(old(self)@.t),
                    (value / 8) as u16,
                    coarse_x(old(self)@.t),
                ));
            }
        }
    }

    /// Write to the address register, on either side of the write toggle;
    /// the second write arms the live video-memory address.
    fn write_addr(&mut self, value: u8)
        requires
            old(self)@.wf(),
        ensures
            final(self)@ == ppu_write_reg_spec(old(self)@, Mirroring::Horizontal, 6, value),
            final(self)@.wf(),
    {
        proof {
            reveal(ppu_write_reg_spec);
        }
        if !self.w {
            self.t = self.t % 0x100 + (value % 0x40) as u16 * 0x100;
            self.w = true;
        } else {
            self.t = (self.t / 0x100) * 0x100 + value as u16;
            self.v = self.t;
            self.w = false;
        }
    }

    /// Write to the data port: stores through the current video-memory
    /// address and advances it.
    fn write_data(&mut self, m: Mirroring, value: u8)
        requires
            old(self)@.wf(),
        ensures
            final(self)@ == ppu_write_reg_spec(old(self)@, m, 7, value),
            final(self)@.wf(),
    {
        let ghost pre = self@;
        let a = self.v % 0x4000;
        let inc: u16 = if (self.ctrl / 4) % 2 == 1 { 32 } else { 1 };
        self.mem_write(m, a, value);
        self.v = (self.v + inc) % 0x8000;
        proof {
            reveal(ppu_write_reg_spec);
            assert(self@ =~= (PpuView {
                v: ((pre.v + pre.vram_increment()) % 0x8000) as u16,
                ..ppu_mem_write_spec(pre, m, pre.v % 0x4000, value)
            }));
        }
    }

    /// CPU write to register `reg` (0..=7), exactly as
    /// [`ppu_write_reg_spec`] states. Register writes while a frame is in
    /// progress only latch state for later dots: nothing here reaches back
    /// into lines already rendered.
    pub fn write_register(&mut self, m: Mirroring, reg: u16, value: u8)
        requires
            old(self)@.wf(),
            reg < 8,
        ensures
            final(self)@ == ppu_write_reg_spec(old(self)@, m, reg, value),
            final(self)@.wf(),
    {
        if reg == 0 {
            self.write_ctrl(value);
            proof {
                reveal(ppu_write_reg_spec);
            }
        } else if reg == 1 {
            self.mask = value;
            proof {
                reveal(ppu_write_reg_spec);
                assert(self@ == ppu_write_reg_spec(old(self)@, m, reg, value));
            }
        } else if reg == 3 {
            self.oam_addr = value;
            proof {
                reveal(ppu_write_reg_spec);
                assert(self@ == ppu_write_reg_spec(old(self)@, m, reg, value));
            }
        } else if reg == 4 {
            self.oam.set(self.oam_addr as usize, value);
            self.oam_addr = self.oam_addr.wrapping_add(1);
            proof {
                reveal(ppu_write_reg_spec);
                assert(self@ =~= ppu_write_reg_spec(old(self)@, m, reg, value));
            }
        } else if reg == 5 {
            self.write_scroll(value);
            proof {
                reveal(ppu_write_reg_spec);
            }
        } else if reg == 6 {
            self.write_addr(value);
            proof {
                reveal(ppu_write_reg_spec);
            }
        } else if reg == 7 {
            self.write_data(m, value);
        } else {
            proof {
                reveal(ppu_write_reg_spec);
                assert(self@ == ppu_write_reg_spec(old(self)@, m, reg, value));
            }
        }
    }

    /// One dot of the timing machine, exactly as [`ppu_tick_spec`] states.
    /// Returns whether the interrupt line was newly asserted by this dot.
    pub fn tick(&mut self) -> (nmi: bool)
        requires
            old(self)@.wf(),
        ensures
            (final(self)@, nmi) == ppu_tick_spec(old(self)@),
            final(self)@.wf(),
    {
        if self.cycle >= 340 {
            self.cycle = 0;
            if self.scanline >= 261 {
                self.scanline = 0;
            } else {
                self.scanline = self.scanline + 1;
            }
        } else {
            self.cycle = self.cycle + 1;
        }
        if self.scanline == 241 && self.cycle == 1 {
            self.vblank = true;
            self.frame_ready = true;
            if self.ctrl >= 128 {
                self.nmi_pending = true;
                return true;
            }
            false
        } else if self.scanline == 261 && self.cycle == 1 {
            self.vblank = false;
            self.sprite_zero_hit = false;
            self.sprite_overflow = false;
            self.frame_ready = false;
            false
        } else {
            false
        }
    }

    /// Hands the interrupt request to the CPU: reports whether one is
    /// pending and clears it.
    pub fn take_nmi(&mut self) -> (r: bool)
        ensures
            r == old(self)@.nmi_pending,
            final(self)@ == (PpuView { nmi_pending: false, ..old(self)@ }),
    {
        let r = self.nmi_pending;
        self.nmi_pending = false;
        r
    }
}

/// Law: the dot that enters cycle 1 of the vblank scanline sets the vblank
/// flag and marks the frame ready, and asserts the interrupt line exactly
/// when the control register enables it.
pub proof fn lemma_vblank_sets(p: PpuView)
    requires
        p.scanline == VBLANK_SCANLINE,
        p.cycle == 0,
    ensures
        ppu_tick_spec(p).0.vblank,
        ppu_tick_spec(p).0.frame_ready,
        ppu_tick_spec(p).1 == p.nmi_enabled(),
{
}

/// Law: reading the status register while the vblank flag is set reports
/// bit 7 set and clears the flag, so an immediately repeated read reports
/// it clear.
pub proof fn lemma_vblank_read_clears(p: PpuView, c: CartridgeView)
    requires
        p.vblank,
    ensures
        ({
            let (p1, r) = ppu_read_reg_spec(p, c, 2);
            r >= 0x80 && !p1.vblank && ppu_read_reg_spec(p1, c, 2).1 < 0x80
        }),
{
    reveal(ppu_read_reg_spec);
}


/// Bounds of masked bit extractions, used when pattern bits index the
/// palette.
pub proof fn lemma_masked_bits_bounded()
    by (bit_vector)
    ensures
        forall|b: u8, sh: u32| sh < 8 ==> #[trigger] ((b >> sh) & 1) <= 1,
        forall|b: u8, sh: u32| sh < 8 ==> #[trigger] ((b >> sh) & 3) <= 3,
        forall|b: u8| #[trigger] (b & 3) <= 3,
{
}

/// The horizontal position in scrolled nametable space that frame column
/// `x` samples.
pub open spec fn scrolled_x(p: PpuView, x: int) -> int {
    x + coarse_x(p.t) * 8 + p.fine_x
}

/// The vertical position in scrolled nametable space that frame row `y`
/// samples.
pub open spec fn scrolled_y(p: PpuView, y: int) -> int {
    y + coarse_y(p.t) * 8 + fine_y(p.t)
}

/// The nametable-space address of the tile under scrolled position
/// (nx, ny): the scroll's base nametable, wrapped into its horizontal and
/// vertical neighbours where the position runs off the table.
pub open spec fn bg_tile_addr_spec(p: PpuView, nx: int, ny: int) -> int {
    let ntx = (nt_select(p.t) % 2 + nx / 256) % 2;
    let nty = (nt_select(p.t) / 2 + ny / 240) % 2;
    let base = 0x2000 + (nty * 2 + ntx) * 0x400;
    base + ((ny % 240) / 8) * 32 + (nx % 256) / 8
}

/// The 2-bit background pattern value at frame position (x, y): the tile
/// named by the nametable, its pattern row from the cartridge, and the
/// column's bit from each plane.
#[verifier::opaque]
pub open spec fn bg_pattern_spec(p: PpuView, c: CartridgeView, x: int, y: int) -> u8 {
    let nx = scrolled_x(p, x);
    let ny = scrolled_y(p, y);
    let tile = p.vram[mirror_vram_spec(bg_tile_addr_spec(p, nx, ny) as u16, c.mirroring)];
    let pat = ((p.ctrl / 16) % 2) * 0x1000;
    let addr = (pat + tile * 16 + ny % 8) as u16;
    let low = cart_chr_read_spec(c, addr);
    let high = cart_chr_read_spec(c, (addr + 8) as u16);
    let bitpos = (7 - nx % 8) as u32;
    (((low >> bitpos) & 1) + 2 * ((high >> bitpos) & 1)) as u8
}

/// The 2-bit background palette selection at frame position (x, y), from
/// the attribute table's byte for the tile's 4x4 block and the quadrant's
/// bit pair within it.
#[verifier::opaque]
pub open spec fn bg_attr_spec(p: PpuView, c: CartridgeView, x: int, y: int) -> u8 {
    let nx = scrolled_x(p, x);
    let ny = scrolled_y(p, y);
    let ntx = (nt_select(p.t) % 2 + nx / 256) % 2;
    let nty = (nt_select(p.t) / 2 + ny / 240) % 2;
    let base = 0x2000 + (nty * 2 + ntx) * 0x400;
    let tile_col = (nx % 256) / 8;
    let tile_row = (ny % 240) / 8;
    let attr_addr = (base + 0x3C0 + (tile_row / 4) * 8 + tile_col / 4) as u16;
    let attr = p.vram[mirror_vram_spec(attr_addr, c.mirroring)];
    let quad = ((tile_row % 4) / 2) * 2 + (tile_col % 4) / 2;
    (attr >> (2 * quad) as u32) & 3
}

/// The background pixel at frame position (x, y): its pattern value and
/// palette selection.
pub open spec fn bg_pixel_spec(p: PpuView, c: CartridgeView, x: int, y: int) -> (u8, u8) {
    ((bg_pattern_spec(p, c, x, y)), bg_attr_spec(p, c, x, y))
}

/// What one selected sprite contributes at a pixel: its pattern value,
/// palette selection, priority, and whether it is sprite 0.
pub ghost struct SpritePix {
    pub bits: u8,
    pub pal: u8,
    pub behind: bool,
    pub zero: bool,
}

/// Whether sprite `i` of object attribute memory covers scanline `y`.
pub open spec fn sprite_covers(p: PpuView, i: int, y: int) -> bool {
    p.oam[i * 4] <= y < p.oam[i * 4] + p.sprite_height()
}

/// The sprites selected for a scanline: of the 64 entries, in table order,
/// the first 8 whose row range covers it.
#[verifier::opaque]
pub open spec fn selected_sprites_spec(p: PpuView, y: int, n: int) -> Seq<usize>
    decreases n,
{
    if n <= 0 {
        Seq::empty()
    } else {
        let prev = selected_sprites_spec(p, y, n - 1);
        if sprite_covers(p, n - 1, y) && prev.len() < 8 {
            prev.push((n - 1) as usize)
        } else {
            prev
        }
    }
}

/// How many of the first `n` sprites cover the scanline (a 9th sets the
/// overflow flag).
#[verifier::opaque]
pub open spec fn covering_count_spec(p: PpuView, y: int, n: int) -> int
    decreases n,
{
    if n <= 0 {
        0
    } else {
        covering_count_spec(p, y, n - 1) + if sprite_covers(p, n - 1, y) {
            1int
        } else {
            0int
        }
    }
}

/// What sprite `i` of object attribute memory contributes at frame column
/// `x` of the scanline it covers: its pattern value (with horizontal and
/// vertical flips from the attribute byte; tall sprites take their bank
/// from the tile byte), palette selection, priority, and whether it is
/// sprite 0. None where the column misses it or its pattern is
/// transparent.
#[verifier::opaque]
pub open spec fn sprite_pix_one_spec(p: PpuView, c: CartridgeView, i: int, x: int, y: int) -> Option<
    SpritePix,
> {
    let sy = p.oam[i * 4] as int;
    let tile = p.oam[i * 4 + 1];
    let attr = p.oam[i * 4 + 2];
    let sx = p.oam[i * 4 + 3] as int;
    if sx <= x < sx + 8 {
        let h = p.sprite_height();
        let row0 = if sy <= y < sy + h {
            y - sy
        } else {
            0
        };
        let row1 = if attr >= 0x80 {
            h - 1 - row0
        } else {
            row0
        };
        let col = if (attr / 0x40) % 2 == 1 {
            7 - (x - sx)
        } else {
            x - sx
        };
        let bank = if h == 16 {
            (tile % 2) * 0x1000
        } else {
            ((p.ctrl / 8) % 2) * 0x1000
        };
        let tidx = if h == 16 {
            (tile / 2) * 2 + row1 / 8
        } else {
            tile as int
        };
        let addr = (bank + tidx * 16 + row1 % 8) as u16;
        let low = cart_chr_read_spec(c, addr);
        let high = cart_chr_read_spec(c, (addr + 8) as u16);
        let bp = (7 - col) as u32;
        let bits = (((low >> bp) & 1) + 2 * ((high >> bp) & 1)) as u8;
        if bits != 0 {
            Some(
                SpritePix {
                    bits: bits,
                    pal: attr & 3,
                    behind: (attr / 0x20) % 2 == 1,
                    zero: i == 0,
                },
            )
        } else {
            None
        }
    } else {
        None
    }
}

/// The first selected sprite, from position `k` of the selection onward,
/// with an opaque pattern value at frame column `x`: the sprite pixel the
/// compositor uses.
#[verifier::opaque]
pub open spec fn sprite_hit_spec(
    p: PpuView,
    c: CartridgeView,
    sel: Seq<usize>,
    k: int,
    x: int,
    y: int,
) -> Option<SpritePix>
    decreases sel.len() - k,
{
    if k < 0 || k >= sel.len() {
        None
    } else {
        match sprite_pix_one_spec(p, c, sel[k] as int, x, y) {
            Some(s) => Some(s),
            None => sprite_hit_spec(p, c, sel, k + 1, x, y),
        }
    }
}

/// The composited pixel at (x, y): the sprite pixel wins over an opaque
/// background only when its priority bit puts it in front; a transparent
/// background shows the sprite, or the universal background colour. The
/// second component reports a sprite-zero hit: sprite 0 opaque over an
/// opaque background, away from the last column.
#[verifier::opaque]
pub open spec fn pixel_spec(p: PpuView, c: CartridgeView, sel: Seq<usize>, x: int, y: int) -> (
    u8,
    bool,
) {
    let bg = if (p.mask / 8) % 2 == 1 {
        bg_pixel_spec(p, c, x, y)
    } else {
        (0u8, 0u8)
    };
    let sp = if (p.mask / 16) % 2 == 1 {
        sprite_hit_spec(p, c, sel, 0, x, y)
    } else {
        None
    };
    let bg_color = if bg.0 == 0 {
        p.palette[0]
    } else {
        p.palette[bg.1 * 4 + bg.0]
    };
    let color = match sp {
        Some(s) => if bg.0 == 0 || !s.behind {
            p.palette[16 + s.pal * 4 + s.bits]
        } else {
            bg_color
        },
        None => bg_color,
    };
    let hit = match sp {
        Some(s) => s.zero && bg.0 != 0 && x < 255,
        None => false,
    };
    ((color), hit)
}

/// Whether any of the first `n` columns of the scanline scores a
/// sprite-zero hit.
#[verifier::opaque]
pub open spec fn line_hit_spec(p: PpuView, c: CartridgeView, sel: Seq<usize>, y: int, n: int) -> bool
    decreases n,
{
    if n <= 0 {
        false
    } else {
        line_hit_spec(p, c, sel, y, n - 1) || pixel_spec(p, c, sel, n - 1, y).1
    }
}

/// One whole scanline rendered into the frame buffer: every column of row
/// `y` becomes its composited pixel, the sprite-zero-hit flag latches any
/// hit on the line, and the overflow flag latches a 9th covering sprite.
/// Nothing else moves: rendering never reaches back into other lines.
#[verifier::opaque]
pub open spec fn render_scanline_spec(p: PpuView, c: CartridgeView, y: int) -> PpuView {
    let sel = selected_sprites_spec(p, y, 64);
    PpuView {
        frame: Seq::new(
            p.frame.len(),
            |i: int|
                if y * 256 <= i < y * 256 + 256 {
                    pixel_spec(p, c, sel, i - y * 256, y).0
                } else {
                    p.frame[i]
                },
        ),
        sprite_zero_hit: p.sprite_zero_hit || line_hit_spec(p, c, sel, y, 256),
        sprite_overflow: p.sprite_overflow || covering_count_spec(p, y, 64) > 8,
        ..p
    }
}

impl Ppu {
    /// Whether the mask register has background or sprite rendering on.
    pub fn rendering_on(&self) -> (r: bool)
        ensures
            r == self@.rendering_enabled(),
    {
        (self.mask / 8) % 2 == 1 || (self.mask / 16) % 2 == 1
    }

    /// Sprite evaluation for a scanline: the first 8 covering sprites in
    /// table order, and whether a 9th would have qualified.
    fn select_sprites(&self, y: u16) -> (r: (Vec<usize>, bool))
        requires
            self@.wf(),
            y < 240,
        ensures
            r.0@ == selected_sprites_spec(self@, y as int, 64),
            r.1 == (covering_count_spec(self@, y as int, 64) > 8),
            r.0@.len() <= 8,
            forall|k: int| 0 <= k < r.0@.len() ==> r.0@[k] < 64,
    {
        let h: u16 = if (self.ctrl / 32) % 2 == 1 {
            16
        } else {
            8
        };
        let mut sel: Vec<usize> = Vec::new();
        let mut count: u16 = 0;
        let mut i: usize = 0;
        proof {
            reveal(selected_sprites_spec);
            reveal(covering_count_spec);
            assert(sel@ =~= selected_sprites_spec(self@, y as int, 0));
        }
        while i < 64
            invariant
                self@.wf(),
                y < 240,
                h == self@.sprite_height(),
                i <= 64,
                count <= i,
                sel@ == selected_sprites_spec(self@, y as int, i as int),
                count == covering_count_spec(self@, y as int, i as int),
                sel@.len() <= 8,
                forall|k: int| 0 <= k < sel@.len() ==> sel@[k] < 64,
            decreases 64 - i,
        {
            proof {
                reveal(selected_sprites_spec);
                reveal(covering_count_spec);
            }
            let sy = self.oam[i * 4] as u16;
            if sy <= y && y < sy + h {
                count = count + 1;
                if sel.len() < 8 {
                    sel.push(i);
                }
            }
            i = i + 1;
        }
        (sel, count > 8)
    }

    /// The background pattern value at (x, y), exactly as
    /// [`bg_pattern_spec`] states.
    #[verifier::rlimit(100)]
    #[verifier::spinoff_prover]
    fn bg_pattern(&self, cart: &Cartridge, x: u16, y: u16) -> (r: u8)
        requires
            self@.wf(),
            cart@.wf(),
            x < 256,
            y < 240,
        ensures
            r == bg_pattern_spec(self@, cart@, x as int, y as int),
            r <= 3,
    {
        proof {
            reveal(bg_pattern_spec);
            lemma_masked_bits_bounded();
        }
        let sx: u16 = (self.t % 0x20) * 8 + self.fine_x as u16;
        let sy: u16 = ((self.t / 0x20) % 0x20) * 8 + (self.t / 0x1000) % 8;
        let nx: u16 = x + sx;
        let ny: u16 = y + sy;
        let ntx: u16 = ((self.t / 0x400) % 2 + nx / 256) % 2;
        let nty: u16 = (((self.t / 0x400) % 4) / 2 + ny / 240) % 2;
        let base: u16 = 0x2000 + (nty * 2 + ntx) * 0x400;
        let tile_addr: u16 = base + ((ny % 240) / 8) * 32 + (nx % 256) / 8;
        let tile_idx = Self::mirror_vram(tile_addr, cart.mirroring);
        let tile = self.vram[tile_idx];
        let pat: u16 = ((self.ctrl as u16 / 16) % 2) * 0x1000;
        let addr: u16 = pat + tile as u16 * 16 + ny % 8;
        let low = cart.chr_read(addr);
        let high = cart.chr_read(addr + 8);
        let bitpos: u32 = (7 - nx % 8) as u32;
        ((low >> bitpos) & 1) + 2 * ((high >> bitpos) & 1)
    }

    /// The background palette selection at (x, y), exactly as
    /// [`bg_attr_spec`] states.
    #[verifier::rlimit(100)]
    #[verifier::spinoff_prover]
    fn bg_attr(&self, cart: &Cartridge, x: u16, y: u16) -> (r: u8)
        requires
            self@.wf(),
            cart@.wf(),
            x < 256,
            y < 240,
        ensures
            r == bg_attr_spec(self@, cart@, x as int, y as int),
            r <= 3,
    {
        proof {
            reveal(bg_attr_spec);
            lemma_masked_bits_bounded();
        }
        let sx: u16 = (self.t % 0x20) * 8 + self.fine_x as u16;
        let sy: u16 = ((self.t / 0x20) % 0x20) * 8 + (self.t / 0x1000) % 8;
        let nx: u16 = x + sx;
        let ny: u16 = y + sy;
        let ntx: u16 = ((self.t / 0x400) % 2 + nx / 256) % 2;
        let nty: u16 = (((self.t / 0x400) % 4) / 2 + ny / 240) % 2;
        let base: u16 = 0x2000 + (nty * 2 + ntx) * 0x400;
        let tile_col: u16 = (nx % 256) / 8;
        let tile_row: u16 = (ny % 240) / 8;
        let attr_addr: u16 = base + 0x3C0 + (tile_row / 4) * 8 + tile_col / 4;
        let attr_idx = Self::mirror_vram(attr_addr, cart.mirroring);
        let attr = self.vram[attr_idx];
        let quad: u16 = ((tile_row % 4) / 2) * 2 + (tile_col % 4) / 2;
        (attr >> (2 * quad) as u32) & 3
    }

    /// What sprite `i` contributes at (x, y), exactly as
    /// [`sprite_pix_one_spec`] states.
    #[verifier::rlimit(100)]
    #[verifier::spinoff_prover]
    fn sprite_pix_one(&self, cart: &Cartridge, i: usize, x: u16, y: u16) -> (r: Option<
        (u8, u8, bool, bool),
    >)
        requires
            self@.wf(),
            cart@.wf(),
            x < 256,
            y < 240,
            i < 64,
        ensures
            r matches Some(t) ==> sprite_pix_one_spec(self@, cart@, i as int, x as int, y as int)
                == Some(SpritePix { bits: t.0, pal: t.1, behind: t.2, zero: t.3 }) && 1 <= t.0 <= 3
                && t.1 <= 3,
            r is None ==> sprite_pix_one_spec(self@, cart@, i as int, x as int, y as int) is None,
    {
        proof {
            reveal(sprite_pix_one_spec);
            lemma_masked_bits_bounded();
        }
        let h: u16 = if (self.ctrl / 32) % 2 == 1 {
            16
        } else {
            8
        };
        let sy = self.oam[i * 4] as u16;
        let tile = self.oam[i * 4 + 1];
        let attr = self.oam[i * 4 + 2];
        let sx = self.oam[i * 4 + 3] as u16;
        if sx <= x && x < sx + 8 {
            let row0: u16 = if sy <= y && y < sy + h {
                y - sy
            } else {
                0
            };
            let row1: u16 = if attr >= 0x80 {
                h - 1 - row0
            } else {
                row0
            };
            let col: u16 = if (attr / 0x40) % 2 == 1 {
                7 - (x - sx)
            } else {
                x - sx
            };
            let bank: u16 = if h == 16 {
                (tile as u16 % 2) * 0x1000
            } else {
                ((self.ctrl as u16 / 8) % 2) * 0x1000
            };
            let tidx: u16 = if h == 16 {
                (tile as u16 / 2) * 2 + row1 / 8
            } else {
                tile as u16
            };
            let addr: u16 = bank + tidx * 16 + row1 % 8;
            let low = cart.chr_read(addr);
            let high = cart.chr_read(addr + 8);
            let bp: u32 = (7 - col) as u32;
            let bits: u8 = ((low >> bp) & 1) + 2 * ((high >> bp) & 1);
            if bits != 0 {
                Some((bits, attr & 3, (attr / 0x20) % 2 == 1, i == 0))
            } else {
                None
            }
        } else {
            None
        }
    }

    /// The winning sprite pixel at (x, y), exactly as [`sprite_hit_spec`]
    /// states for the whole selection.
    fn sprite_pixel(&self, cart: &Cartridge, sel: &Vec<usize>, x: u16, y: u16) -> (r: Option<
        (u8, u8, bool, bool),
    >)
        requires
            self@.wf(),
            cart@.wf(),
            x < 256,
            y < 240,
            sel@.len() <= 8,
            forall|k: int| 0 <= k < sel@.len() ==> sel@[k] < 64,
        ensures
            r matches Some(t) ==> sprite_hit_spec(self@, cart@, sel@, 0, x as int, y as int)
                == Some(SpritePix { bits: t.0, pal: t.1, behind: t.2, zero: t.3 }) && 1 <= t.0 <= 3
                && t.1 <= 3,
            r is None ==> sprite_hit_spec(self@, cart@, sel@, 0, x as int, y as int) is None,
    {
        let mut k: usize = 0;
        while k < sel.len()
            invariant
                self@.wf(),
                cart@.wf(),
                x < 256,
                y < 240,
                k <= sel@.len(),
                sel@.len() <= 8,
                forall|j: int| 0 <= j < sel@.len() ==> sel@[j] < 64,
                sprite_hit_spec(self@, cart@, sel@, 0, x as int, y as int) == sprite_hit_spec(
                    self@,
                    cart@,
                    sel@,
                    k as int,
                    x as int,
                    y as int,
                ),
            decreases sel@.len() - k,
        {
            proof {
                reveal(sprite_hit_spec);
            }
            let i = sel[k];
            let one = self.sprite_pix_one(cart, i, x, y);
            match one {
                Some(t) => {
                    return Some(t);
                },
                None => {
                },
            }
            k = k + 1;
        }
        proof {
            reveal(sprite_hit_spec);
        }
        None
    }

    /// The composited pixel at (x, y) and its sprite-zero hit, exactly as
    /// [`pixel_spec`] states.
    fn pixel_at(&self, cart: &Cartridge, sel: &Vec<usize>, x: u16, y: u16) -> (r: (u8, bool))
        requires
            self@.wf(),
            cart@.wf(),
            x < 256,
            y < 240,
            sel@.len() <= 8,
            forall|k: int| 0 <= k < sel@.len() ==> sel@[k] < 64,
        ensures
            r == pixel_spec(self@, cart@, sel@, x as int, y as int),
    {
        proof {
            reveal(pixel_spec);
        }
        let bg: (u8, u8) = if (self.mask / 8) % 2 == 1 {
            (self.bg_pattern(cart, x, y), self.bg_attr(cart, x, y))
        } else {
            (0, 0)
        };
        let sp: Option<(u8, u8, bool, bool)> = if (self.mask / 16) % 2 == 1 {
            self.sprite_pixel(cart, sel, x, y)
        } else {
            None
        };
        let bg_color: u8 = if bg.0 == 0 {
            self.palette[0]
        } else {
            self.palette[(bg.1 * 4 + bg.0) as usize]
        };
        match sp {
            Some(t) => {
                let color = if bg.0 == 0 || !t.2 {
                    self.palette[(16 + t.1 * 4 + t.0) as usize]
                } else {
                    bg_color
                };
                (color, t.3 && bg.0 != 0 && x < 255)
            },
            None => (bg_color, false),
        }
    }

    /// Renders the current scanline into the frame buffer, exactly as
    /// [`render_scanline_spec`] states: sprite evaluation, background
    /// sampling, compositing per priority, and the hit and overflow flags.
    #[verifier::rlimit(100)]
    #[verifier::spinoff_prover]
    pub fn render_scanline(&mut self, cart: &Cartridge)
        requires
            old(self)@.wf(),
            cart@.wf(),
            old(self)@.scanline < 240,
        ensures
            final(self)@ == render_scanline_spec(old(self)@, cart@, old(self)@.scanline as int),
            final(self)@.wf(),
    {
        let ghost pre = self@;
        let y = self.scanline;
        let (sel, overflow) = self.select_sprites(y);
        let mut line: Vec<u8> = Vec::new();
        let mut hit = false;
        let mut x: u16 = 0;
        proof {
            reveal(line_hit_spec);
        }
        while x < 256
            invariant
                pre.wf(),
                self@ == pre,
                cart@.wf(),
                y == pre.scanline,
                y < 240,
                sel@ == selected_sprites_spec(pre, y as int, 64),
                sel@.len() <= 8,
                forall|k: int| 0 <= k < sel@.len() ==> sel@[k] < 64,
                x <= 256,
                line@.len() == x,
                forall|j: int|
                    0 <= j < x ==> line@[j] == pixel_spec(pre, cart@, sel@, j, y as int).0,
                hit == line_hit_spec(pre, cart@, sel@, y as int, x as int),
            decreases 256 - x,
        {
            proof {
                reveal(line_hit_spec);
            }
            let (color, h) = self.pixel_at(cart, &sel, x, y);
            line.push(color);
            hit = hit || h;
            x = x + 1;
        }
        let mut j: usize = 0;
        while j < 256
            invariant
                pre.wf(),
                y == pre.scanline,
                y < 240,
                j <= 256,
                line@.len() == 256,
                forall|k: int|
                    0 <= k < 256 ==> line@[k] == pixel_spec(
                        pre,
                        cart@,
                        selected_sprites_spec(pre, y as int, 64),
                        k,
                        y as int,
                    ).0,
                self.frame@.len() == pre.frame.len(),
                forall|i: int|
                    0 <= i < pre.frame.len() && !(y * 256 <= i < y * 256 + j) ==> self.frame@[i]
                        == pre.frame[i],
                forall|i: int|
                    y * 256 <= i < y * 256 + j ==> self.frame@[i] == line@[i - y * 256],
                self@ == (PpuView { frame: self.frame@, ..pre }),
            decreases 256 - j,
        {
            self.frame.set(y as usize * 256 + j, line[j]);
            j = j + 1;
        }
        self.sprite_zero_hit = self.sprite_zero_hit || hit;
        self.sprite_overflow = self.sprite_overflow || overflow;
        proof {
            reveal(render_scanline_spec);
            assert(self.frame@ =~= render_scanline_spec(pre, cart@, y as int).frame);
            assert(self@ =~= render_scanline_spec(pre, cart@, y as int));
        }
    }
}

} // verus!
