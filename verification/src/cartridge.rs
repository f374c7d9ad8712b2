//! The cartridge: PRG/CHR storage, battery RAM, and the mapper that
//! translates bus addresses into bank-relative offsets.

use vstd::prelude::*;

verus! {

/// Nametable mirroring arrangement, declared by the cartridge.
#[derive(Clone, Copy, PartialEq, Eq, Structural, Debug)]
pub enum Mirroring {
    Horizontal,
    Vertical,
    SingleScreen,
    FourScreen,
}

/// The supported bank-switching schemes. `Fixed` maps PRG and CHR straight
/// through; `PrgSwitch` selects a 16 KiB PRG bank for the lower half of
/// cartridge space and pins the last bank to the upper half; `ChrSwitch`
/// selects an 8 KiB CHR bank.
#[derive(Clone, Copy, PartialEq, Eq, Structural, Debug)]
pub enum MapperKind {
    Fixed,
    PrgSwitch,
    ChrSwitch,
}

/// Why a cartridge could not be constructed.
#[derive(Clone, Copy, PartialEq, Eq, Structural, Debug)]
pub enum CartridgeError {
    /// PRG data is empty or not a whole number of 16 KiB banks.
    PrgSize,
    /// CHR data is empty or not a whole number of 8 KiB banks.
    ChrSize,
}

impl CartridgeError {
    /// A fixed description of the failure, for the embedding program to show.
    pub fn message(&self) -> (m: &'static str)
        ensures
            *self is PrgSize ==> m@ == "PRG data must be a positive multiple of 16 KiB"@,
            *self is ChrSize ==> m@ == "CHR data must be a positive multiple of 8 KiB"@,
    {
        proof {
            reveal_strlit("PRG data must be a positive multiple of 16 KiB");
            reveal_strlit("CHR data must be a positive multiple of 8 KiB");
        }
        match self {
            CartridgeError::PrgSize => "PRG data must be a positive multiple of 16 KiB",
            CartridgeError::ChrSize => "CHR data must be a positive multiple of 8 KiB",
        }
    }
}

/// Mathematical state of a cartridge.
#[verifier::ext_equal]
pub ghost struct CartridgeView {
    pub prg: Seq<u8>,
    pub chr: Seq<u8>,
    pub prg_ram: Seq<u8>,
    pub kind: MapperKind,
    pub prg_bank: u8,
    pub chr_bank: u8,
    pub mirroring: Mirroring,
}

impl CartridgeView {
    /// Size discipline every constructed cartridge obeys: whole PRG and CHR
    /// banks, and the fixed 8 KiB battery RAM window.
    pub open spec fn wf(self) -> bool {
        &&& self.prg.len() >= 0x4000
        &&& self.prg.len() % 0x4000 == 0
        &&& self.prg.len() <= 0x400000
        &&& self.chr.len() >= 0x2000
        &&& self.chr.len() % 0x2000 == 0
        &&& self.chr.len() <= 0x200000
        &&& self.prg_ram.len() == 0x2000
    }
}

/// What a CPU-side read of cartridge space (0x4020..=0xFFFF) returns. The
/// expansion area reads as 0 (open bus); 0x6000..=0x7FFF is battery RAM;
/// 0x8000..=0xFFFF is PRG through the mapper's current bank selection.
pub open spec fn cart_cpu_read_spec(c: CartridgeView, addr: u16) -> u8 {
    if addr < 0x6000 {
        0
    } else if addr < 0x8000 {
        c.prg_ram[(addr - 0x6000) as int]
    } else if c.kind is PrgSwitch {
        if addr < 0xC000 {
            c.prg[(c.prg_bank * 0x4000 + (addr - 0x8000)) as int % (c.prg.len() as int)]
        } else {
            c.prg[c.prg.len() - 0x4000 + (addr - 0xC000)]
        }
    } else {
        c.prg[(addr - 0x8000) as int % (c.prg.len() as int)]
    }
}

/// What a CPU-side write to cartridge space does. Battery RAM accepts the
/// byte; a write anywhere in PRG space is a mapper-control write, which the
/// switching mappers latch whole into their bank-select register; everything
/// else is ignored.
pub open spec fn cart_cpu_write_spec(c: CartridgeView, addr: u16, value: u8) -> CartridgeView {
    if 0x6000 <= addr && addr < 0x8000 {
        CartridgeView { prg_ram: c.prg_ram.update((addr - 0x6000) as int, value), ..c }
    } else if addr >= 0x8000 && c.kind is PrgSwitch {
        CartridgeView { prg_bank: value, ..c }
    } else if addr >= 0x8000 && c.kind is ChrSwitch {
        CartridgeView { chr_bank: value, ..c }
    } else {
        c
    }
}

/// What the picture processor sees at a pattern-table address (< 0x2000):
/// CHR through the current CHR bank selection.
#[verifier::opaque]
pub open spec fn cart_chr_read_spec(c: CartridgeView, addr: u16) -> u8 {
    c.chr[(c.chr_bank * 0x2000 + addr) as int % (c.chr.len() as int)]
}

/// A cartridge: fixed PRG/CHR data, battery RAM, and the mapper's
/// bank-select state.
pub struct Cartridge {
    pub prg: Vec<u8>,
    pub chr: Vec<u8>,
    pub prg_ram: Vec<u8>,
    pub kind: MapperKind,
    pub prg_bank: u8,
    pub chr_bank: u8,
    pub mirroring: Mirroring,
}

impl View for Cartridge {
    type V = CartridgeView;

    open spec fn view(&self) -> CartridgeView {
        CartridgeView {
            prg: self.prg@,
            chr: self.chr@,
            prg_ram: self.prg_ram@,
            kind: self.kind,
            prg_bank: self.prg_bank,
            chr_bank: self.chr_bank,
            mirroring: self.mirroring,
        }
    }
}

impl Cartridge {
    /// Builds a cartridge from parsed PRG/CHR data. A malformed image (PRG or
    /// CHR not a positive whole number of banks, or oversized) is rejected,
    /// never half-initialized.
    pub fn new(prg: Vec<u8>, chr: Vec<u8>, kind: MapperKind, mirroring: Mirroring) -> (r: Result<
        Cartridge,
        CartridgeError,
    >)
        ensures
            r matches Ok(c) ==> {
                &&& c@ == (CartridgeView {
                    prg: prg@,
                    chr: chr@,
                    prg_ram: Seq::new(0x2000, |i: int| 0u8),
                    kind: kind,
                    prg_bank: 0,
                    chr_bank: 0,
                    mirroring: mirroring,
                })
                &&& c@.wf()
            },
            r matches Err(e) ==> (e is PrgSize <==> !(prg@.len() >= 0x4000 && prg@.len()
                % 0x4000 == 0 && prg@.len() <= 0x400000)),
            r is Ok <==> (prg@.len() >= 0x4000 && prg@.len() % 0x4000 == 0 && prg@.len()
                <= 0x400000 && chr@.len() >= 0x2000 && chr@.len() % 0x2000 == 0 && chr@.len()
                <= 0x200000),
    {
        if !(prg.len() >= 0x4000 && prg.len() % 0x4000 == 0 && prg.len() <= 0x400000) {
            return Err(CartridgeError::PrgSize);
        }
        if !(chr.len() >= 0x2000 && chr.len() % 0x2000 == 0 && chr.len() <= 0x200000) {
            return Err(CartridgeError::ChrSize);
        }
        let prg_ram: Vec<u8> = vec![0u8; 0x2000];
        proof {
            assert(prg_ram@ =~= Seq::new(0x2000, |i: int| 0u8));
        }
        Ok(Cartridge { prg, chr, prg_ram, kind, prg_bank: 0, chr_bank: 0, mirroring })
    }

    /// CPU-side read of cartridge space, exactly as [`cart_cpu_read_spec`]
    /// states.
    pub fn cpu_read(&self, addr: u16) -> (r: u8)
        requires
            self@.wf(),
            addr >= 0x4020,
        ensures
            r == cart_cpu_read_spec(self@, addr),
    {
        if addr < 0x6000 {
            0
        } else if addr < 0x8000 {
            self.prg_ram[(addr - 0x6000) as usize]
        } else if matches!(self.kind, MapperKind::PrgSwitch) {
            if addr < 0xC000 {
                let idx = (self.prg_bank as usize * 0x4000 + (addr - 0x8000) as usize)
                    % self.prg.len();
                self.prg[idx]
            } else {
                self.prg[self.prg.len() - 0x4000 + (addr - 0xC000) as usize]
            }
        } else {
            let idx = (addr - 0x8000) as usize % self.prg.len();
            self.prg[idx]
        }
    }

    /// CPU-side write to cartridge space, exactly as [`cart_cpu_write_spec`]
    /// states. A bank-select write replaces the previous selection whole, so
    /// no later read can observe a half-updated state.
    pub fn cpu_write(&mut self, addr: u16, value: u8)
        requires
            old(self)@.wf(),
            addr >= 0x4020,
        ensures
            final(self)@ == cart_cpu_write_spec(old(self)@, addr, value),
            final(self)@.wf(),
    {
        if 0x6000 <= addr && addr < 0x8000 {
            self.prg_ram.set((addr - 0x6000) as usize, value);
            proof {
                assert(self@ =~= cart_cpu_write_spec(old(self)@, addr, value));
            }
        } else if addr >= 0x8000 && matches!(self.kind, MapperKind::PrgSwitch) {
            self.prg_bank = value;
        } else if addr >= 0x8000 && matches!(self.kind, MapperKind::ChrSwitch) {
            self.chr_bank = value;
        }
    }

    /// Pattern-table read for the picture processor, exactly as
    /// [`cart_chr_read_spec`] states.
    pub fn chr_read(&self, addr: u16) -> (r: u8)
        requires
            self@.wf(),
            addr < 0x2000,
        ensures
            r == cart_chr_read_spec(self@, addr),
    {
        proof {
            reveal(cart_chr_read_spec);
        }
        let idx = (self.chr_bank as usize * 0x2000 + addr as usize) % self.chr.len();
        self.chr[idx]
    }

    /// The nametable arrangement this cartridge declares.
    pub fn mirroring(&self) -> (m: Mirroring)
        ensures
            m == self@.mirroring,
    {
        self.mirroring
    }
}

} // verus!
