use vstd::prelude::*;

use crate::memory::{E_RAM_BANK_SIZE, ROM_BANK_SIZE};
use crate::tile::zeros;

verus! {

/// Bytes of a ROM without bank switching.
pub const ROM_ONLY_SIZE: usize = 0x8000;

/// The cartridge's memory interface as the bus sees it.
pub trait Mbc {
    /// Whether the controller's state is well formed.
    spec fn valid(&self) -> bool;

    /// The byte the ROM area shows at `address`.
    spec fn rom_value(&self, address: int) -> u8;

    /// The byte the external RAM area shows at `address`.
    spec fn ram_value(&self, address: int) -> u8;

    fn read_rom(&self, address: u16) -> (r: u8)
        requires
            self.valid(),
            address < 0x8000,
        ensures
            r == self.rom_value(address as int),
    ;

    fn write_rom(&mut self, address: u16, value: u8)
        requires
            old(self).valid(),
            address < 0x8000,
        ensures
            final(self).valid(),
    ;

    fn read_ram(&self, address: u16) -> (r: u8)
        requires
            self.valid(),
            address < 0x2000,
        ensures
            r == self.ram_value(address as int),
    ;

    fn write_ram(&mut self, address: u16, value: u8)
        requires
            old(self).valid(),
            address < 0x2000,
        ensures
            final(self).valid(),
    ;
}

/// Why a ROM image cannot be turned into a cartridge.
#[derive(Debug, Clone, Copy, PartialEq, Eq, Structural)]
pub enum BadMbcBuffer {
    /// The image is not a whole number of banks, or has the wrong size.
    RomSize,
    /// The number of ROM banks is not one the controller supports.
    RomBanks,
    /// The number of RAM banks is not one the controller supports.
    RamBanks,
    /// The header names a controller type that is not supported.
    MbcType,
    /// The header's ROM size code is unknown.
    RomSizeCode,
    /// The header's RAM size code is unknown.
    RamSizeCode,
}

/// The error of every constructor of a cartridge.
#[derive(Debug, Clone, Copy, PartialEq, Eq, Structural)]
pub struct CreateError {
    pub reason: BadMbcBuffer,
}

/// The controller a cartridge header names.
#[derive(Debug, Clone, Copy, PartialEq, Eq, Structural)]
pub enum MbcType {
    Mbc0,
    Mbc1 { ram: bool, battery: bool },
}

/// Banks of 16 KiB for a ROM size code, or 0 for an unknown code.
pub open spec fn rom_banks_of(code: u8) -> int {
    if code <= 8 {
        pow2(code as nat + 1)
    } else {
        0
    }
}

pub open spec fn pow2(n: nat) -> int
    decreases n,
{
    if n == 0 {
        1
    } else {
        2 * pow2((n - 1) as nat)
    }
}

/// Banks of 8 KiB for a RAM size code, or -1 for an unknown code.
pub open spec fn ram_banks_of(code: u8) -> int {
    if code == 0 || code == 1 {
        0
    } else if code == 2 {
        1
    } else if code == 3 {
        4
    } else if code == 4 {
        16
    } else if code == 5 {
        8
    } else {
        -1
    }
}

/// The controller for a type code at 0x0147, if supported.
pub open spec fn mbc_type_of(code: u8) -> Option<MbcType> {
    if code == 0 {
        Some(MbcType::Mbc0)
    } else if code == 1 {
        Some(MbcType::Mbc1 { ram: false, battery: false })
    } else if code == 2 {
        Some(MbcType::Mbc1 { ram: true, battery: false })
    } else if code == 3 {
        Some(MbcType::Mbc1 { ram: false, battery: true })
    } else {
        None
    }
}

/// The title bytes of a header: 0x0134..0x0142 up to the first NUL.
pub open spec fn title_of(b: Seq<u8>, i: int) -> Seq<u8>
    decreases 0x0143 - i,
{
    if i >= 0x0143 || b[i] == 0 {
        Seq::empty()
    } else {
        seq![b[i]] + title_of(b, i + 1)
    }
}

/// Whether a header's type, ROM size and RAM size codes are all supported.
pub open spec fn header_valid(b: Seq<u8>) -> bool {
    mbc_type_of(b[0x0147]) is Some && b[0x0148] <= 8 && ram_banks_of(b[0x0149]) >= 0
}

/// Whether a ROM image makes a cartridge: its header is valid, and its size
/// suits the controller the header names (exactly 32 KiB without banking;
/// a supported number of 16 KiB banks, with a RAM size the MBC1 supports).
pub open spec fn accepts(b: Seq<u8>) -> bool {
    &&& b.len() >= 0x014F
    &&& header_valid(b)
    &&& if b[0x0147] == 0 {
        b.len() == ROM_ONLY_SIZE
    } else {
        &&& b.len() % 0x4000 == 0
        &&& mbc1_rom_banks(b.len() as int / 0x4000)
        &&& mbc1_ram_banks(ram_banks_of(b[0x0149]))
        &&& (b.len() as int / 0x4000 > 32 ==> ram_banks_of(b[0x0149]) <= 1)
    }
}

/// What the cartridge header at 0x0134..0x0149 says.
#[derive(Debug, Clone)]
pub struct CartridgeHeader {
    pub title: Vec<u8>,
    pub mbc_type: MbcType,
    pub rom_banks: usize,
    pub ram_banks: usize,
}

impl CartridgeHeader {
    /// Reads the header of a ROM image. An image too short to hold one is
    /// taken as a plain 32 KiB ROM titled "Unknown".
    pub fn parse(buffer: &Vec<u8>) -> (r: Result<CartridgeHeader, CreateError>)
        ensures
            buffer@.len() < 0x014F ==> r is Ok && r->Ok_0.mbc_type == MbcType::Mbc0
                && r->Ok_0.rom_banks == 2 && r->Ok_0.ram_banks == 0
                && r->Ok_0.title@ == seq![0x55u8, 0x6E, 0x6B, 0x6E, 0x6F, 0x77, 0x6E],
            buffer@.len() >= 0x014F ==> (r is Ok <==> header_valid(buffer@)),
            buffer@.len() >= 0x014F ==> match r {
                Ok(h) => mbc_type_of(buffer@[0x0147]) == Some(h.mbc_type) && h.rom_banks
                    == rom_banks_of(buffer@[0x0148]) && h.ram_banks == ram_banks_of(buffer@[0x0149])
                    && h.title@ == title_of(buffer@, 0x0134),
                Err(e) => (e.reason == BadMbcBuffer::MbcType && mbc_type_of(buffer@[0x0147])
                    is None) || (e.reason == BadMbcBuffer::RomSizeCode && mbc_type_of(
                    buffer@[0x0147],
                ) is Some && buffer@[0x0148] > 8) || (e.reason == BadMbcBuffer::RamSizeCode
                    && mbc_type_of(buffer@[0x0147]) is Some && buffer@[0x0148] <= 8
                    && ram_banks_of(buffer@[0x0149]) < 0),
            },
    {
        if buffer.len() < 0x014F {
            return Ok(
                CartridgeHeader {
                    title: vec![0x55u8, 0x6E, 0x6B, 0x6E, 0x6F, 0x77, 0x6E],
                    mbc_type: MbcType::Mbc0,
                    rom_banks: 2,
                    ram_banks: 0,
                },
            );
        }
        let code = buffer[0x0147];
        let mbc_type = if code == 0 {
            MbcType::Mbc0
        } else if code == 1 {
            MbcType::Mbc1 { ram: false, battery: false }
        } else if code == 2 {
            MbcType::Mbc1 { ram: true, battery: false }
        } else if code == 3 {
            MbcType::Mbc1 { ram: false, battery: true }
        } else {
            return Err(CreateError { reason: BadMbcBuffer::MbcType });
        };
        let rom_code = buffer[0x0148];
        if rom_code > 8 {
            return Err(CreateError { reason: BadMbcBuffer::RomSizeCode });
        }
        let mut rom_banks: usize = 2;
        let mut k: u8 = 0;
        proof {
            assert(pow2(0) == 1);
            assert(pow2(1) == 2);
        }
        while k < rom_code
            invariant
                k <= rom_code <= 8,
                rom_banks == pow2(k as nat + 1),
                rom_banks <= 1024,
            decreases rom_code - k,
        {
            proof {
                assert(pow2(k as nat + 2) == 2 * pow2(k as nat + 1));
                lemma_pow2_bound(k as nat + 2);
            }
            rom_banks = rom_banks * 2;
            k = k + 1;
        }
        let ram_code = buffer[0x0149];
        let ram_banks: usize = if ram_code == 0 || ram_code == 1 {
            0
        } else if ram_code == 2 {
            1
        } else if ram_code == 3 {
            4
        } else if ram_code == 4 {
            16
        } else if ram_code == 5 {
            8
        } else {
            return Err(CreateError { reason: BadMbcBuffer::RamSizeCode });
        };
        let mut title: Vec<u8> = Vec::new();
        let mut i: usize = 0x0134;
        let mut done = false;
        while i < 0x0143 && !done
            invariant
                0x0134 <= i <= 0x0143,
                buffer@.len() >= 0x014F,
                title@ + title_of(buffer@, i as int) == title_of(buffer@, 0x0134),
                done ==> title_of(buffer@, i as int) == Seq::<u8>::empty(),
            decreases 0x0143 - i + (if done { 0int } else { 1 }),
        {
            if buffer[i] == 0 {
                done = true;
                continue;
            }
            proof {
                assert(title_of(buffer@, i as int) == seq![buffer@[i as int]] + title_of(
                    buffer@,
                    i as int + 1,
                ));
                assert(title@.push(buffer@[i as int]) + title_of(buffer@, i as int + 1) == title@
                    + title_of(buffer@, i as int));
            }
            title.push(buffer[i]);
            i = i + 1;
        }
        proof {
            assert(title_of(buffer@, i as int) == Seq::<u8>::empty());
            assert(title@ + Seq::<u8>::empty() == title@);
        }
        Ok(CartridgeHeader { title, mbc_type, rom_banks, ram_banks })
    }
}

proof fn lemma_pow2_bound(n: nat)
    ensures
        pow2(n) >= 1,
        pow2(n) <= pow2(10) || n > 10,
        pow2(10) == 1024,
    decreases n,
{
    reveal_with_fuel(pow2, 11);
    if n > 0 {
        lemma_pow2_bound((n - 1) as nat);
    }
}

/// A 32 KiB cartridge without bank switching.
#[derive(Debug, Clone)]
pub struct Mbc0 {
    pub rom: Vec<u8>,
    pub ram: Vec<u8>,
}

impl Mbc0 {
    pub open spec fn wf(&self) -> bool {
        self.rom@.len() == ROM_ONLY_SIZE && self.ram@.len() <= E_RAM_BANK_SIZE
    }

    pub open spec fn rom_byte(&self, address: int) -> u8 {
        self.rom@[address]
    }

    pub open spec fn ram_byte(&self, address: int) -> u8 {
        if address < self.ram@.len() {
            self.ram@[address]
        } else {
            0xFF
        }
    }

    /// An empty 32 KiB cartridge.
    pub fn new() -> (r: Result<Self, CreateError>)
        ensures
            r is Ok,
            r->Ok_0.wf(),
    {
        Mbc0::new_from_buffer(zeros(ROM_ONLY_SIZE))
    }

    /// A cartridge holding `buffer`, which must be exactly 32 KiB.
    pub fn new_from_buffer(buffer: Vec<u8>) -> (r: Result<Self, CreateError>)
        ensures
            buffer@.len() == ROM_ONLY_SIZE <==> r is Ok,
            r is Ok ==> r->Ok_0.wf() && r->Ok_0.rom@ == buffer@ && r->Ok_0.ram@.len() == 0,
            r is Err ==> r->Err_0.reason == BadMbcBuffer::RomSize,
    {
        if buffer.len() != ROM_ONLY_SIZE {
            return Err(CreateError { reason: BadMbcBuffer::RomSize });
        }
        Ok(Mbc0 { rom: buffer, ram: Vec::new() })
    }

    pub fn rom(&self, address: u16) -> (r: u8)
        requires
            self.wf(),
            address < 0x8000,
        ensures
            r == self.rom_byte(address as int),
    {
        self.rom[address as usize]
    }

    pub fn ram_read(&self, address: u16) -> (r: u8)
        requires
            self.wf(),
            address < 0x2000,
        ensures
            r == self.ram_byte(address as int),
    {
        if (address as usize) < self.ram.len() {
            self.ram[address as usize]
        } else {
            0xFF
        }
    }

    pub fn ram_write(&mut self, address: u16, value: u8)
        requires
            old(self).wf(),
            address < 0x2000,
        ensures
            final(self).rom == old(self).rom,
            final(self).ram@ == if (address as int) < old(self).ram@.len() {
                old(self).ram@.update(address as int, value)
            } else {
                old(self).ram@
            },
    {
        if (address as usize) < self.ram.len() {
            self.ram.set(address as usize, value);
        }
    }
}

/// Whether `n` is a ROM bank count that the MBC1 supports.
pub open spec fn mbc1_rom_banks(n: int) -> bool {
    n == 2 || n == 4 || n == 8 || n == 16 || n == 32 || n == 64 || n == 128
}

/// Whether `n` is a RAM bank count that the MBC1 supports.
pub open spec fn mbc1_ram_banks(n: int) -> bool {
    n == 0 || n == 1 || n == 4
}

/// The MBC1 controller: up to 128 ROM banks of 16 KiB and up to four RAM
/// banks of 8 KiB, switched by writes into the ROM area.
#[derive(Debug, Clone)]
pub struct Mbc1 {
    pub rom: Vec<u8>,
    pub ram: Vec<u8>,
    pub num_rom_banks: usize,
    pub num_ram_banks: usize,
    pub banking_mode_advanced: bool,
    pub ram_enabled: bool,
    pub rom_bank_number: u8,
    pub ram_bank_number: u8,
}

impl Mbc1 {
    pub open spec fn wf(&self) -> bool {
        &&& mbc1_rom_banks(self.num_rom_banks as int)
        &&& mbc1_ram_banks(self.num_ram_banks as int)
        &&& self.rom@.len() == self.num_rom_banks * ROM_BANK_SIZE
        &&& self.ram@.len() == self.num_ram_banks * E_RAM_BANK_SIZE
        &&& self.rom_bank_number < 32
        &&& self.ram_bank_number < 4
        &&& (self.num_rom_banks > 32 ==> self.num_ram_banks <= 1)
    }

    /// Whether the secondary bank register extends the ROM bank number.
    pub open spec fn large(&self) -> bool {
        self.num_rom_banks > 32
    }

    /// The bank mapped at 0x4000..0x7FFF: zero in the low five bits maps to one.
    pub open spec fn high_bank(&self) -> int {
        let low = if self.rom_bank_number == 0 {
            1int
        } else {
            self.rom_bank_number as int
        };
        let upper = if self.large() {
            self.ram_bank_number as int * 32
        } else {
            0
        };
        (upper + low) % (self.num_rom_banks as int)
    }

    /// The bank mapped at 0x0000..0x3FFF.
    pub open spec fn low_bank(&self) -> int {
        if self.large() && self.banking_mode_advanced {
            (self.ram_bank_number as int * 32) % (self.num_rom_banks as int)
        } else {
            0
        }
    }

    pub open spec fn rom_byte(&self, address: int) -> u8 {
        if address < 0x4000 {
            self.rom@[self.low_bank() * 0x4000 + address]
        } else {
            self.rom@[self.high_bank() * 0x4000 + address - 0x4000]
        }
    }

    /// The RAM bank in use.
    pub open spec fn ram_bank(&self) -> int {
        if self.large() || self.num_ram_banks == 0 {
            0
        } else {
            self.ram_bank_number as int % self.num_ram_banks as int
        }
    }

    pub open spec fn ram_readable(&self) -> bool {
        self.ram_enabled && self.num_ram_banks > 0
    }

    pub open spec fn ram_byte(&self, address: int) -> u8 {
        if self.ram_readable() {
            self.ram@[self.ram_bank() * 0x2000 + address]
        } else {
            0xFF
        }
    }

    /// The controller state after a write of `value` to ROM address `address`.
    pub open spec fn after_rom_write(&self, address: int, value: u8) -> Mbc1 {
        if address < 0x2000 {
            Mbc1 { ram_enabled: value & 0x0F == 0x0A, ..*self }
        } else if address < 0x4000 {
            Mbc1 { rom_bank_number: value & 0x1F, ..*self }
        } else if address < 0x6000 {
            Mbc1 { ram_bank_number: value & 0x03, ..*self }
        } else {
            Mbc1 { banking_mode_advanced: value & 0x01 != 0, ..*self }
        }
    }

    /// An MBC1 cartridge with an empty ROM of the given size.
    pub fn new(num_rom_banks: usize, num_ram_banks: usize, _has_battery: bool) -> (r: Self)
        requires
            mbc1_rom_banks(num_rom_banks as int),
            mbc1_ram_banks(num_ram_banks as int),
            num_rom_banks > 32 ==> num_ram_banks <= 1,
        ensures
            r.wf(),
            r.num_rom_banks == num_rom_banks,
            r.num_ram_banks == num_ram_banks,
            !r.ram_enabled,
            r.rom_bank_number == 0,
            r.ram_bank_number == 0,
            !r.banking_mode_advanced,
    {
        let rom = zeros(num_rom_banks * ROM_BANK_SIZE);
        Mbc1 {
            rom,
            ram: zeros(num_ram_banks * E_RAM_BANK_SIZE),
            num_rom_banks,
            num_ram_banks,
            banking_mode_advanced: false,
            ram_enabled: false,
            rom_bank_number: 0,
            ram_bank_number: 0,
        }
    }

    /// An MBC1 cartridge holding `buffer`, a whole number of 16 KiB banks.
    pub fn new_from_buffer(buffer: Vec<u8>, num_ram_banks: usize, _has_battery: bool) -> (r: Result<
        Self,
        CreateError,
    >)
        ensures
            r is Ok <==> (buffer@.len() % 0x4000 == 0 && mbc1_rom_banks(buffer@.len() as int / 0x4000)
                && mbc1_ram_banks(num_ram_banks as int) && (buffer@.len() / 0x4000 > 32
                ==> num_ram_banks <= 1)),
            r is Ok ==> r->Ok_0.wf() && r->Ok_0.rom@ == buffer@ && r->Ok_0.num_ram_banks
                == num_ram_banks && !r->Ok_0.ram_enabled && r->Ok_0.rom_bank_number == 0
                && r->Ok_0.ram_bank_number == 0 && !r->Ok_0.banking_mode_advanced,
    {
        if buffer.len() % ROM_BANK_SIZE != 0 {
            return Err(CreateError { reason: BadMbcBuffer::RomSize });
        }
        let rom_banks = buffer.len() / ROM_BANK_SIZE;
        if !(rom_banks == 2 || rom_banks == 4 || rom_banks == 8 || rom_banks == 16 || rom_banks
            == 32 || rom_banks == 64 || rom_banks == 128) {
            return Err(CreateError { reason: BadMbcBuffer::RomBanks });
        }
        if !(num_ram_banks == 0 || num_ram_banks == 1 || num_ram_banks == 4) {
            return Err(CreateError { reason: BadMbcBuffer::RamBanks });
        }
        if rom_banks > 32 && num_ram_banks > 1 {
            return Err(CreateError { reason: BadMbcBuffer::RamBanks });
        }
        Ok(
            Mbc1 {
                rom: buffer,
                ram: zeros(num_ram_banks * E_RAM_BANK_SIZE),
                num_rom_banks: rom_banks,
                num_ram_banks,
                banking_mode_advanced: false,
                ram_enabled: false,
                rom_bank_number: 0,
                ram_bank_number: 0,
            },
        )
    }

    pub fn rom(&self, address: u16) -> (r: u8)
        requires
            self.wf(),
            address < 0x8000,
        ensures
            r == self.rom_byte(address as int),
    {
        let n = self.num_rom_banks;
        if address < 0x4000 {
            let bank: usize = if n > 32 && self.banking_mode_advanced {
                (self.ram_bank_number as usize * 32) % n
            } else {
                0
            };
            self.rom[bank * ROM_BANK_SIZE + address as usize]
        } else {
            let low: usize = if self.rom_bank_number == 0 {
                1
            } else {
                self.rom_bank_number as usize
            };
            let upper: usize = if n > 32 {
                self.ram_bank_number as usize * 32
            } else {
                0
            };
            let bank = (upper + low) % n;
            self.rom[bank * ROM_BANK_SIZE + (address as usize - ROM_BANK_SIZE)]
        }
    }

    /// A write into the ROM area sets a controller register.
    pub fn rom_write(&mut self, address: u16, value: u8)
        requires
            old(self).wf(),
            address < 0x8000,
        ensures
            *final(self) == old(self).after_rom_write(address as int, value),
            final(self).wf(),
    {
        proof {
            assert(value & 0x1F < 32) by (bit_vector);
            assert(value & 0x03 < 4) by (bit_vector);
        }
        if address < 0x2000 {
            self.ram_enabled = value & 0x0F == 0x0A;
        } else if address < 0x4000 {
            self.rom_bank_number = value & 0x1F;
        } else if address < 0x6000 {
            self.ram_bank_number = value & 0x03;
        } else {
            self.banking_mode_advanced = value & 0x01 != 0;
        }
    }

    pub fn ram_read(&self, address: u16) -> (r: u8)
        requires
            self.wf(),
            address < 0x2000,
        ensures
            r == self.ram_byte(address as int),
    {
        if !self.ram_enabled || self.num_ram_banks == 0 {
            return 0xFF;
        }
        let bank: usize = if self.num_rom_banks > 32 {
            0
        } else {
            self.ram_bank_number as usize % self.num_ram_banks
        };
        self.ram[bank * E_RAM_BANK_SIZE + address as usize]
    }

    pub fn ram_write(&mut self, address: u16, value: u8)
        requires
            old(self).wf(),
            address < 0x2000,
        ensures
            final(self).ram@ == if old(self).ram_readable() {
                old(self).ram@.update(old(self).ram_bank() * 0x2000 + address as int, value)
            } else {
                old(self).ram@
            },
            *final(self) == (Mbc1 { ram: final(self).ram, ..*old(self) }),
            final(self).wf(),
    {
        if !self.ram_enabled || self.num_ram_banks == 0 {
            return;
        }
        let bank: usize = if self.num_rom_banks > 32 {
            0
        } else {
            self.ram_bank_number as usize % self.num_ram_banks
        };
        self.ram.set(bank * E_RAM_BANK_SIZE + address as usize, value);
    }
}

impl Mbc for Mbc0 {
    open spec fn valid(&self) -> bool {
        self.wf()
    }

    open spec fn rom_value(&self, address: int) -> u8 {
        self.rom_byte(address)
    }

    open spec fn ram_value(&self, address: int) -> u8 {
        self.ram_byte(address)
    }

    fn read_rom(&self, address: u16) -> u8 {
        self.rom(address)
    }

    fn write_rom(&mut self, address: u16, value: u8) {
        
    }

    fn read_ram(&self, address: u16) -> u8 {
        self.ram_read(address)
    }

    fn write_ram(&mut self, address: u16, value: u8) {
        self.ram_write(address, value);
    }
}

impl Mbc for Mbc1 {
    open spec fn valid(&self) -> bool {
        self.wf()
    }

    open spec fn rom_value(&self, address: int) -> u8 {
        self.rom_byte(address)
    }

    open spec fn ram_value(&self, address: int) -> u8 {
        self.ram_byte(address)
    }

    fn read_rom(&self, address: u16) -> u8 {
        self.rom(address)
    }

    fn write_rom(&mut self, address: u16, value: u8) {
        self.rom_write(address, value);
    }

    fn read_ram(&self, address: u16) -> u8 {
        self.ram_read(address)
    }

    fn write_ram(&mut self, address: u16, value: u8) {
        self.ram_write(address, value);
    }
}

impl Mbc1 {
    /// Tests the well-formedness that the methods require.
    pub fn valid(&self) -> (r: bool)
        ensures
            r == self.wf(),
    {
        let n = self.num_rom_banks;
        let m = self.num_ram_banks;
        (n == 2 || n == 4 || n == 8 || n == 16 || n == 32 || n == 64 || n == 128) && (m == 0 || m
            == 1 || m == 4) && n <= 128 && m <= 4 && self.rom.len() == n * ROM_BANK_SIZE
            && self.ram.len() == m * E_RAM_BANK_SIZE && self.rom_bank_number < 32
            && self.ram_bank_number < 4 && (n <= 32 || m <= 1)
    }
}

/// The cartridge in the slot: one of the supported controllers.
#[derive(Debug, Clone)]
pub enum Cartridge {
    RomOnly(Mbc0),
    Mbc1(Mbc1),
}

impl Cartridge {
    pub open spec fn wf(&self) -> bool {
        match self {
            Cartridge::RomOnly(m) => m.wf(),
            Cartridge::Mbc1(m) => m.wf(),
        }
    }

    pub open spec fn rom_byte(&self, address: int) -> u8 {
        match self {
            Cartridge::RomOnly(m) => m.rom_byte(address),
            Cartridge::Mbc1(m) => m.rom_byte(address),
        }
    }

    pub open spec fn ram_byte(&self, address: int) -> u8 {
        match self {
            Cartridge::RomOnly(m) => m.ram_byte(address),
            Cartridge::Mbc1(m) => m.ram_byte(address),
        }
    }

    /// The cartridge after a write into its ROM area.
    pub open spec fn after_rom_write(&self, address: int, value: u8) -> Cartridge {
        match self {
            Cartridge::RomOnly(_) => *self,
            Cartridge::Mbc1(m) => Cartridge::Mbc1(m.after_rom_write(address, value)),
        }
    }

    /// Whether `new` is this cartridge after a write of `value` to RAM address `address`.
    pub open spec fn ram_written(&self, new: Cartridge, address: int, value: u8) -> bool {
        match (self, new) {
            (Cartridge::RomOnly(m), Cartridge::RomOnly(n)) => n.rom == m.rom && n.ram@ == if address
                < m.ram@.len() {
                m.ram@.update(address, value)
            } else {
                m.ram@
            },
            (Cartridge::Mbc1(m), Cartridge::Mbc1(n)) => n == Mbc1 { ram: n.ram, ..*m } && n.ram@
                == if m.ram_readable() {
                m.ram@.update(m.ram_bank() * 0x2000 + address, value)
            } else {
                m.ram@
            },
            _ => false,
        }
    }

    pub fn rom(&self, address: u16) -> (r: u8)
        requires
            self.wf(),
            address < 0x8000,
        ensures
            r == self.rom_byte(address as int),
    {
        match self {
            Cartridge::RomOnly(m) => m.rom(address),
            Cartridge::Mbc1(m) => m.rom(address),
        }
    }

    pub fn rom_write(&mut self, address: u16, value: u8)
        requires
            old(self).wf(),
            address < 0x8000,
        ensures
            *final(self) == old(self).after_rom_write(address as int, value),
            final(self).wf(),
    {
        match self {
            Cartridge::RomOnly(_) => {},
            Cartridge::Mbc1(m) => m.rom_write(address, value),
        }
    }

    pub fn ram_read(&self, address: u16) -> (r: u8)
        requires
            self.wf(),
            address < 0x2000,
        ensures
            r == self.ram_byte(address as int),
    {
        match self {
            Cartridge::RomOnly(m) => m.ram_read(address),
            Cartridge::Mbc1(m) => m.ram_read(address),
        }
    }

    pub fn ram_write(&mut self, address: u16, value: u8)
        requires
            old(self).wf(),
            address < 0x2000,
        ensures
            old(self).ram_written(*final(self), address as int, value),
            final(self).wf(),
    {
        match self {
            Cartridge::RomOnly(m) => m.ram_write(address, value),
            Cartridge::Mbc1(m) => m.ram_write(address, value),
        }
    }
}

/// Builds the cartridge that a ROM image's header asks for.
pub fn new_mbc_from_buffer(buffer: Vec<u8>) -> (r: Result<Cartridge, CreateError>)
    ensures
        r is Ok <==> accepts(buffer@),
        r is Ok ==> r->Ok_0.wf(),
        r is Ok ==> (r->Ok_0 is RomOnly <==> buffer@[0x0147] == 0),
        r is Ok ==> (r->Ok_0 is RomOnly ==> r->Ok_0->RomOnly_0.rom@ == buffer@),
        r is Ok ==> (r->Ok_0 is Mbc1 ==> r->Ok_0->Mbc1_0.rom@ == buffer@
            && r->Ok_0->Mbc1_0.num_ram_banks == ram_banks_of(buffer@[0x0149])),
{
    let header = CartridgeHeader::parse(&buffer);
    match header {
        Err(e) => Err(e),
        Ok(h) => match h.mbc_type {
            MbcType::Mbc0 => match Mbc0::new_from_buffer(buffer) {
                Ok(m) => Ok(Cartridge::RomOnly(m)),
                Err(e) => Err(e),
            },
            MbcType::Mbc1 { .. } => match Mbc1::new_from_buffer(buffer, h.ram_banks, false) {
                Ok(m) => Ok(Cartridge::Mbc1(m)),
                Err(e) => Err(e),
            },
        },
    }
}

impl Mbc for Cartridge {
    open spec fn valid(&self) -> bool {
        self.wf()
    }

    open spec fn rom_value(&self, address: int) -> u8 {
        self.rom_byte(address)
    }

    open spec fn ram_value(&self, address: int) -> u8 {
        self.ram_byte(address)
    }

    fn read_rom(&self, address: u16) -> u8 {
        self.rom(address)
    }

    fn write_rom(&mut self, address: u16, value: u8) {
        self.rom_write(address, value);
    }

    fn read_ram(&self, address: u16) -> u8 {
        self.ram_read(address)
    }

    fn write_ram(&mut self, address: u16, value: u8) {
        self.ram_write(address, value);
    }
}

} // verus!
