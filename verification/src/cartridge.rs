//! Cartridge overlay: a pluggable bank of memory that intercepts the low
//! quarter of the address space.

use vstd::prelude::*;

verus! {

/// A cartridge intercepts reads and writes to addresses at or below `0x3FFF`.
/// Writes to `0x2000..=0x3FFF` select banking modes, which is outside the
/// scope of this core, so implementors are only asked to accept writes below
/// `0x2000`.
pub trait Cartridge {
    fn write_u8(&mut self, addr: u16, value: u8)
        requires
            addr < 0x2000,
    ;

    fn read_u8(&self, addr: u16) -> u8
        requires
            addr <= 0x3FFF,
    ;
}

/// A type-1 banking controller. Only its fixed first bank is modelled: the
/// first `0x4000` bytes of the loaded image, readable and writable in place.
pub struct MBC1 {
    rom: Vec<u8>,
}

impl View for MBC1 {
    type V = Seq<u8>;

    closed spec fn view(&self) -> Seq<u8> {
        self.rom@
    }
}

impl MBC1 {
    #[verifier::type_invariant]
    spec fn wf(self) -> bool {
        self.rom@.len() == 0x4000
    }

    pub fn new(ram: &[u8]) -> (r: MBC1)
        requires
            ram@.len() >= 0x4000,
        ensures
            r@ == ram@.subrange(0, 0x4000),
    {
        let mut rom: Vec<u8> = Vec::new();
        let mut i: usize = 0;
        while i < 0x4000
            invariant
                i <= 0x4000,
                ram@.len() >= 0x4000,
                rom@ == ram@.subrange(0, i as int),
            decreases 0x4000 - i,
        {
            rom.push(ram[i]);
            assert(ram@.subrange(0, i + 1) == ram@.subrange(0, i as int).push(ram@[i as int]));
            i = i + 1;
        }
        MBC1 { rom }
    }

    pub fn bank_write(&mut self, addr: u16, value: u8)
        requires
            addr < 0x2000,
        ensures
            final(self)@ == old(self)@.update(addr as int, value),
        no_unwind
    {
        proof {
            use_type_invariant(&*self);
        }
        self.rom[addr as usize] = value;
    }

    pub fn bank_read(&self, addr: u16) -> (r: u8)
        requires
            addr <= 0x3FFF,
        ensures
            r == self@[addr as int],
    {
        proof {
            use_type_invariant(self);
        }
        self.rom[addr as usize]
    }
}

impl Cartridge for MBC1 {
    fn write_u8(&mut self, addr: u16, value: u8) {
        self.bank_write(addr, value);
    }

    fn read_u8(&self, addr: u16) -> u8 {
        self.bank_read(addr)
    }
}

} // verus!
