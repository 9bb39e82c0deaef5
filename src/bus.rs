use vstd::prelude::*;

verus! {

/// Byte and little-endian word access to a 16-bit address space, as the processor sees it.
///
/// `peek` is what a read yields; `follows_write` relates the state after a byte write to the state
/// before it. A word is two bytes, the low one first, and its high byte's address wraps at 0xFFFF.
pub trait Memory: Sized {
    /// The byte that reading `address` yields in this state.
    spec fn peek(&self, address: u16) -> u8;

    /// Whether `self` is what writing `value` at `address` leaves of `before`.
    spec fn follows_write(&self, before: &Self, address: u16, value: u8) -> bool;

    fn mem_read(&self, address: u16) -> (r: u8)
        ensures
            r == self.peek(address),
    ;

    fn mem_write(&mut self, address: u16, value: u8)
        ensures
            final(self).follows_write(old(self), address, value),
    ;

    fn mem_read_u16(&self, address: u16) -> (r: u16)
        ensures
            r == self.peek(address) + 256 * self.peek(address.wrapping_add(1)),
    ;

    fn mem_write_u16(&mut self, address: u16, value: u16)
        ensures
            exists|mid: Self|
                #[trigger] mid.follows_write(old(self), address, (value % 256) as u8)
                    && final(self).follows_write(
                    &mid,
                    address.wrapping_add(1),
                    (value / 256) as u8,
                ),
    ;
}

pub const RAM: u16 = 0x0000;

pub const RAM_MIRRORS_END: u16 = 0x1FFF;

pub const PPU_REGISTERS: u16 = 0x2000;

pub const PPU_REGISTERS_MIRRORS_END: u16 = 0x3FFF;

/// First address of the region that cartridge, APU and controller ports share.
pub const DEVICE_REGION: u16 = 0x4000;

/// The storage behind a bus: the 2 KiB of internal RAM and the flat device region.
pub struct BusView {
    pub ram: Seq<u8>,
    pub device: Seq<u8>,
}

impl BusView {
    pub open spec fn wf(self) -> bool {
        self.ram.len() == 0x800 && self.device.len() == 0xC000
    }
}

/// What a byte read at `a` yields: RAM through its mirrors, zero for the PPU registers, and
/// the device region as it is.
pub open spec fn read8(m: BusView, a: u16) -> u8 {
    if a <= RAM_MIRRORS_END {
        m.ram[(a & 0x07FF) as int]
    } else if a <= PPU_REGISTERS_MIRRORS_END {
        0
    } else {
        m.device[a - DEVICE_REGION]
    }
}

/// The storage after a byte write at `a`; a write to the PPU registers changes nothing here.
pub open spec fn write8(m: BusView, a: u16, v: u8) -> BusView {
    if a <= RAM_MIRRORS_END {
        BusView { ram: m.ram.update((a & 0x07FF) as int, v), ..m }
    } else if a <= PPU_REGISTERS_MIRRORS_END {
        m
    } else {
        BusView { device: m.device.update(a - DEVICE_REGION, v), ..m }
    }
}

/// Little-endian word at `a`; the high byte comes from `a + 1`, wrapping at 0xFFFF.
pub open spec fn read16(m: BusView, a: u16) -> u16 {
    (read8(m, a) + 256 * read8(m, a.wrapping_add(1))) as u16
}

/// The storage after a little-endian word write at `a`: low byte at `a`, high byte at `a + 1`.
pub open spec fn write16(m: BusView, a: u16, v: u16) -> BusView {
    write8(write8(m, a, (v % 256) as u8), a.wrapping_add(1), (v / 256) as u8)
}

/// Where an address lands.
#[derive(Clone, Copy, Debug, PartialEq, Eq, Structural)]
pub enum Location {
    /// An index into the internal RAM.
    Ram(usize),
    /// One of the eight PPU register lanes, as `address & 0x2007`.
    PpuRegister(u16),
    /// An index into the device region.
    Device(usize),
}

pub struct Bus {
    cpu_vram: [u8; 2048],
    device: [u8; 49152],
}

impl View for Bus {
    type V = BusView;

    closed spec fn view(&self) -> BusView {
        BusView { ram: self.cpu_vram@, device: self.device@ }
    }
}

/// Packs two bytes into a little-endian word.
pub proof fn lemma_word_compose(lo: u16, hi: u16)
    requires
        lo < 256,
        hi < 256,
    ensures
        (hi << 8) | lo == lo + 256 * hi,
{
    assert((hi << 8) | lo == lo + 256 * hi) by (bit_vector)
        requires
            lo < 256,
            hi < 256,
    ;
}

/// A RAM index lies within the 2 KiB, and folding it again changes nothing.
pub proof fn lemma_ram_index(a: u16)
    ensures
        a & 0x07FF < 0x800,
        (a & 0x07FF) & 0x07FF == a & 0x07FF,
{
    assert(a & 0x07FF < 0x800 && (a & 0x07FF) & 0x07FF == a & 0x07FF) by (bit_vector);
}

impl Bus {
    pub fn new() -> (r: Bus)
        ensures
            r@.wf(),
            forall|i: int| 0 <= i < 0x800 ==> r@.ram[i] == 0,
            forall|i: int| 0 <= i < 0xC000 ==> r@.device[i] == 0,
    {
        Bus { cpu_vram: [0u8; 2048], device: [0u8; 49152] }
    }

    /// Decodes an address: RAM mirrors fold onto 2 KiB, PPU register mirrors onto eight lanes,
    /// and the rest indexes the device region.
    pub fn get_real_address(&self, address: u16) -> (r: Location)
        ensures
            address <= RAM_MIRRORS_END ==> r == Location::Ram((address & 0x07FF) as usize),
            PPU_REGISTERS <= address <= PPU_REGISTERS_MIRRORS_END ==> r == Location::PpuRegister(
                address & 0x2007,
            ),
            DEVICE_REGION <= address ==> r == Location::Device((address - DEVICE_REGION) as usize),
    {
        proof {
            lemma_ram_index(address);
        }
        if address <= RAM_MIRRORS_END {
            Location::Ram((address & 0b0111_1111_1111) as usize)
        } else if address <= PPU_REGISTERS_MIRRORS_END {
            Location::PpuRegister(address & 0b0010_0000_0000_0111)
        } else {
            Location::Device((address - DEVICE_REGION) as usize)
        }
    }
}

/// Every address below 0x2000 reads as the RAM byte at `a & 0x07FF`, whatever was written
/// before: the four mirrors of RAM always agree.
pub proof fn lemma_ram_mirrors(m: BusView, a: u16)
    requires
        a <= RAM_MIRRORS_END,
    ensures
        read8(m, a) == read8(m, a & 0x07FF),
{
    lemma_ram_index(a);
}

/// A word written at `a` reads back as written, where its two bytes lie both in RAM or both in
/// the device region.
pub proof fn lemma_word_round_trip(m: BusView, a: u16, v: u16)
    requires
        m.wf(),
        a < RAM_MIRRORS_END || (DEVICE_REGION <= a && a < 0xFFFF),
    ensures
        read16(write16(m, a, v), a) == v,
{
    let b = a.wrapping_add(1);
    lemma_ram_index(a);
    lemma_ram_index(b);
    if a < RAM_MIRRORS_END {
        assert(a & 0x07FF != b & 0x07FF) by (bit_vector)
            requires
                a < 0x1FFF,
                b == a + 1,
        ;
    }
    let m1 = write8(m, a, (v % 256) as u8);
    assert(read8(m1, a) == v % 256);
    assert(read8(write8(m1, b, (v / 256) as u8), a) == v % 256);
}

impl Bus {
    /// The storage always has its fixed sizes.
    pub proof fn lemma_wf(&self)
        ensures
            self@.wf(),
    {
    }
}

impl Memory for Bus {
    open spec fn peek(&self, address: u16) -> u8 {
        read8(self@, address)
    }

    open spec fn follows_write(&self, before: &Self, address: u16, value: u8) -> bool {
        self@ == write8(before@, address, value)
    }

    fn mem_read(&self, address: u16) -> (r: u8) {
        proof {
            lemma_ram_index(address);
        }
        match self.get_real_address(address) {
            Location::Ram(i) => self.cpu_vram[i],
            Location::PpuRegister(_) => 0,
            Location::Device(i) => self.device[i],
        }
    }

    fn mem_write(&mut self, address: u16, value: u8) {
        proof {
            lemma_ram_index(address);
        }
        match self.get_real_address(address) {
            Location::Ram(i) => {
                self.cpu_vram[i] = value;
            },
            Location::PpuRegister(_) => {},
            Location::Device(i) => {
                self.device[i] = value;
            },
        }
    }

    fn mem_read_u16(&self, address: u16) -> (r: u16) {
        let low = self.mem_read(address) as u16;
        let high = self.mem_read(address.wrapping_add(1)) as u16;
        proof {
            lemma_word_compose(low, high);
        }
        (high << 8) | low
    }

    fn mem_write_u16(&mut self, address: u16, value: u16) {
        let low = (value % 256) as u8;
        let high = (value / 256) as u8;
        self.mem_write(address, low);
        let ghost mid = *self;
        self.mem_write(address.wrapping_add(1), high);
        assert(mid.follows_write(old(self), address, low));
    }
}

} // verus!
