//! The memory bus: a 64 KiB byte-addressable space with echo-RAM mirroring,
//! write-protected interrupt-vector addresses, and an optional cartridge
//! overlay on the low quarter of the address space.

use vstd::prelude::*;
use crate::cartridge::MBC1;

verus! {

/// The mathematical state of the bus: the flat 64 KiB array, and the bytes of
/// the cartridge overlay when one is loaded.
#[verifier::ext_equal]
pub ghost struct MemModel {
    pub bytes: Seq<u8>,
    pub cart: Option<Seq<u8>>,
}

/// Addresses `0x00..=0xFF` hold the restart and interrupt vectors and reject
/// ordinary writes.
pub open spec fn is_reserved_addr(addr: u16) -> bool {
    addr <= 0xFF
}

/// The low half of echo RAM: writes here are mirrored `0x2000` higher.
pub open spec fn in_lower_echo(addr: u16) -> bool {
    0xC000 <= addr && addr <= 0xDE00
}

/// The high half of echo RAM: writes here are mirrored `0x2000` lower.
pub open spec fn in_upper_echo(addr: u16) -> bool {
    0xE000 <= addr && addr <= 0xFE00
}

/// The address range a loaded cartridge intercepts.
pub open spec fn in_cartridge_area(addr: u16) -> bool {
    addr <= 0x3FFF
}

/// What a read of `addr` returns: the cartridge byte when a cartridge
/// intercepts the address, the flat array otherwise. Reads are not remapped
/// through echo RAM; writes keep both copies equal instead.
pub open spec fn mem_read(m: MemModel, addr: u16) -> u8 {
    if m.cart is Some && in_cartridge_area(addr) {
        m.cart->Some_0[addr as int]
    } else {
        m.bytes[addr as int]
    }
}

/// A 16-bit little-endian read: low byte at `addr`, high byte at `addr + 1`.
pub open spec fn mem_read16(m: MemModel, addr: u16) -> u16 {
    ((mem_read(m, crate::cpu::add16(addr, 1)) as int) * 0x100 + mem_read(m, addr) as int) as u16
}

/// Whether an ordinary write to `addr` is accepted: the vector area rejects
/// writes, and a loaded cartridge accepts them only below its banking
/// registers.
pub open spec fn can_write(m: MemModel, addr: u16) -> bool {
    &&& !is_reserved_addr(addr)
    &&& (m.cart is Some && in_cartridge_area(addr) ==> addr < 0x2000)
}

/// The bus after an accepted write of `value` at `addr`: the cartridge page
/// when one intercepts the address; otherwise the flat array, with an echo
/// address also written at its mirror.
pub open spec fn mem_write(m: MemModel, addr: u16, value: u8) -> MemModel {
    if m.cart is Some && in_cartridge_area(addr) {
        MemModel { bytes: m.bytes, cart: Some(m.cart->Some_0.update(addr as int, value)) }
    } else if in_lower_echo(addr) {
        MemModel { bytes: m.bytes.update(addr + 0x2000, value).update(addr as int, value), cart: m.cart }
    } else if in_upper_echo(addr) {
        MemModel { bytes: m.bytes.update(addr - 0x2000, value).update(addr as int, value), cart: m.cart }
    } else {
        MemModel { bytes: m.bytes.update(addr as int, value), cart: m.cart }
    }
}

/// A 16-bit little-endian write: low byte at `addr`, high byte at `addr + 1`.
pub open spec fn mem_write16(m: MemModel, addr: u16, value: u16) -> MemModel {
    mem_write(mem_write(m, addr, (value & 0xFF) as u8), crate::cpu::add16(addr, 1), (value >> 8) as u8)
}

/// The byte the bus holds at `addr` right after power-on.
pub open spec fn power_on_byte(addr: int) -> u8 {
    if addr == 0xFF10 { 0x80 }
    else if addr == 0xFF11 { 0xBF }
    else if addr == 0xFF12 { 0xF3 }
    else if addr == 0xFF14 { 0xBF }
    else if addr == 0xFF16 { 0x3F }
    else if addr == 0xFF19 { 0xBF }
    else if addr == 0xFF1A { 0x7F }
    else if addr == 0xFF1B { 0xFF }
    else if addr == 0xFF1C { 0x9F }
    else if addr == 0xFF1E { 0xBF }
    else if addr == 0xFF20 { 0xFF }
    else if addr == 0xFF23 { 0xBF }
    else if addr == 0xFF24 { 0x77 }
    else if addr == 0xFF25 { 0xF3 }
    else if addr == 0xFF26 { 0xF1 }
    else if addr == 0xFF40 { 0x91 }
    else if addr == 0xFF47 { 0xFC }
    else if addr == 0xFF48 { 0xFF }
    else if addr == 0xFF49 { 0xFF }
    else { 0 }
}

/// Forward an accepted low-area write to the cartridge, when one is loaded.
fn cart_write(cartridge: &mut Option<MBC1>, addr: u16, value: u8) -> (wrote: bool)
    requires
        (*old(cartridge)) is Some ==> addr < 0x2000,
    ensures
        wrote == ((*old(cartridge)) is Some),
        match *old(cartridge) {
            Some(c) => (*final(cartridge)) matches Some(c2) && c2@ == c@.update(addr as int, value),
            None => (*final(cartridge)) is None,
        },
    no_unwind
{
    match cartridge {
        Some(cart) => {
            cart.bank_write(addr, value);
            true
        },
        None => false,
    }
}

/// The memory bus.
pub struct Mmu {
    memory: Vec<u8>,
    cartridge: Option<MBC1>,
}

impl View for Mmu {
    type V = MemModel;

    closed spec fn view(&self) -> MemModel {
        MemModel {
            bytes: self.memory@,
            cart: match self.cartridge {
                Some(c) => Some(c@),
                None => None,
            },
        }
    }
}

impl Mmu {
    #[verifier::type_invariant]
    spec fn wf(self) -> bool {
        self.memory@.len() == 0x10000
    }

    /// A bus at power-on: no cartridge, all bytes zero but for the seeded
    /// hardware registers.
    pub fn new() -> (r: Mmu)
        ensures
            r@.bytes.len() == 0x10000,
            forall|addr: int| 0 <= addr < 0x10000 ==> r@.bytes[addr] == power_on_byte(addr),
            r@.cart is None,
    {
        let mut memory: Vec<u8> = Vec::new();
        let mut i: usize = 0;
        while i < 0x10000
            invariant
                i <= 0x10000,
                memory@.len() == i,
                forall|addr: int| 0 <= addr < i ==> memory@[addr] == 0,
            decreases 0x10000 - i,
        {
            memory.push(0);
            i = i + 1;
        }
        memory[0xFF10] = 0x80;
        memory[0xFF11] = 0xBF;
        memory[0xFF12] = 0xF3;
        memory[0xFF14] = 0xBF;
        memory[0xFF16] = 0x3F;
        memory[0xFF19] = 0xBF;
        memory[0xFF1A] = 0x7F;
        memory[0xFF1B] = 0xFF;
        memory[0xFF1C] = 0x9F;
        memory[0xFF1E] = 0xBF;
        memory[0xFF20] = 0xFF;
        memory[0xFF23] = 0xBF;
        memory[0xFF24] = 0x77;
        memory[0xFF25] = 0xF3;
        memory[0xFF26] = 0xF1;
        memory[0xFF40] = 0x91;
        memory[0xFF47] = 0xFC;
        memory[0xFF48] = 0xFF;
        memory[0xFF49] = 0xFF;
        Mmu { memory, cartridge: None }
    }

    /// Overwrite the first `bytes.len()` cells of the flat array, bypassing
    /// the bus mapping rules; intended for seeding test programs.
    pub fn set_bytes(&mut self, bytes: &[u8])
        requires
            bytes@.len() <= 0x10000,
        ensures
            final(self)@.bytes.len() == old(self)@.bytes.len(),
            forall|addr: int| 0 <= addr < bytes@.len() ==> final(self)@.bytes[addr] == bytes@[addr],
            forall|addr: int|
                bytes@.len() <= addr < old(self)@.bytes.len() ==> final(self)@.bytes[addr] == old(
                    self,
                )@.bytes[addr],
            final(self)@.cart == old(self)@.cart,
    {
        proof {
            use_type_invariant(&*self);
        }
        let mut i: usize = 0;
        while i < bytes.len()
            invariant
                i <= bytes@.len(),
                bytes@.len() <= 0x10000,
                self.memory@.len() == 0x10000,
                self.cartridge == old(self).cartridge,
                forall|addr: int| 0 <= addr < i ==> self.memory@[addr] == bytes@[addr],
                forall|addr: int|
                    i <= addr < 0x10000 ==> self.memory@[addr] == old(self).memory@[addr],
            decreases bytes@.len() - i,
        {
            self.memory[i] = bytes[i];
            i = i + 1;
        }
    }

    /// Load a cartridge image: the image is copied over the start of the
    /// flat array, and byte `0x147` of the result selects the banking
    /// controller (`0` for none, `1` for a type-1 controller; other variants
    /// are not supported).
    pub fn load_cartridge_data(&mut self, data: &[u8])
        requires
            ({
                let loaded = if data@.len() > 0x147 {
                    data@[0x147]
                } else {
                    old(self)@.bytes[0x147]
                };
                loaded == 0 || loaded == 1
            }),
        ensures
            ({
                let n = if data@.len() <= 0x10000 {
                    data@.len() as int
                } else {
                    0x10000
                };
                let loaded = if data@.len() > 0x147 {
                    data@[0x147]
                } else {
                    old(self)@.bytes[0x147]
                };
                &&& final(self)@.bytes.len() == 0x10000
                &&& forall|addr: int| 0 <= addr < n ==> final(self)@.bytes[addr] == data@[addr]
                &&& forall|addr: int|
                    n <= addr < 0x10000 ==> final(self)@.bytes[addr] == old(self)@.bytes[addr]
                &&& final(self)@.cart == if loaded == 1 {
                    Some(final(self)@.bytes.subrange(0, 0x4000))
                } else {
                    old(self)@.cart
                }
            }),
    {
        proof {
            use_type_invariant(&*self);
        }
        let n = if data.len() <= 0x10000 {
            data.len()
        } else {
            0x10000
        };
        let mut i: usize = 0;
        while i < n
            invariant
                i <= n,
                n <= 0x10000,
                n <= data@.len(),
                self.memory@.len() == 0x10000,
                self.cartridge == old(self).cartridge,
                forall|addr: int| 0 <= addr < i ==> self.memory@[addr] == data@[addr],
                forall|addr: int|
                    i <= addr < 0x10000 ==> self.memory@[addr] == old(self).memory@[addr],
            decreases n - i,
        {
            self.memory[i] = data[i];
            i = i + 1;
        }
        let cartridge_type = self.memory[0x147];
        if cartridge_type == 1 {
            let cart = MBC1::new(self.memory.as_slice());
            assert(cart@ =~= self@.bytes.subrange(0, 0x4000));
            self.cartridge = Some(cart);
        }
    }

    /// Whether the bus would accept an ordinary write at `addr`.
    pub fn can_write_at(&self, addr: u16) -> (r: bool)
        ensures
            r == can_write(self@, addr),
    {
        addr > 0xFF && !(self.cartridge.is_some() && addr <= 0x3FFF && addr >= 0x2000)
    }

    /// Write one byte through the bus mapping rules.
    pub fn write_u8(&mut self, addr: u16, value: u8)
        requires
            can_write(old(self)@, addr),
        ensures
            final(self)@ == mem_write(old(self)@, addr, value),
    {
        proof {
            use_type_invariant(&*self);
        }
        if addr >= 0xC000 && addr <= 0xDE00 {
            self.memory[addr as usize + 0x2000] = value;
        } else if addr >= 0xE000 && addr <= 0xFE00 {
            self.memory[addr as usize - 0x2000] = value;
        }
        if addr <= 0x3FFF {
            let wrote = cart_write(&mut self.cartridge, addr, value);
            if wrote {
                proof {
                    assert(self@ =~= mem_write(old(self)@, addr, value));
                }
                return ;
            }
        }
        self.memory[addr as usize] = value;
        proof {
            assert(self@ =~= mem_write(old(self)@, addr, value));
        }
    }

    /// Write a 16-bit value little-endian: low byte first.
    pub fn write_u16(&mut self, addr: u16, value: u16)
        requires
            can_write(old(self)@, addr),
            can_write(old(self)@, crate::cpu::add16(addr, 1)),
        ensures
            final(self)@ == mem_write16(old(self)@, addr, value),
    {
        self.write_u8(addr, (value & 0xFF) as u8);
        self.write_u8(addr.wrapping_add(1), ((value >> 8) & 0xFF) as u8);
        proof {
            assert(((value >> 8) & 0xFF) as u8 == (value >> 8) as u8) by (bit_vector);
        }
    }

    /// Read one byte through the bus mapping rules.
    pub fn read_u8(&self, addr: u16) -> (r: u8)
        ensures
            r == mem_read(self@, addr),
    {
        proof {
            use_type_invariant(self);
        }
        if addr <= 0x3FFF {
            match &self.cartridge {
                Some(cart) => {
                    return cart.bank_read(addr);
                },
                None => {},
            }
        }
        self.memory[addr as usize]
    }

    /// Read a 16-bit value little-endian: low byte at `addr`.
    pub fn read_u16(&self, addr: u16) -> (r: u16)
        ensures
            r == mem_read16(self@, addr),
    {
        let l = self.read_u8(addr);
        let h = self.read_u8(addr.wrapping_add(1));
        (h as u16) * 0x100 + l as u16
    }
}

} // verus!
