//! The iNES cartridge loader.
use vstd::prelude::*;
use vstd::slice::slice_subrange;

verus! {

pub const NES_TAG: [u8; 4] = [0x4E, 0x45, 0x53, 0x1A];
pub const HEADER_SIZE: usize = 16;
pub const TRAINER_SIZE: usize = 512;
pub const PRG_ROM_PAGE_SIZE: usize = 16384;
pub const CHR_ROM_PAGE_SIZE: usize = 8192;
const CTRL_BYTE_1_IDX: usize = 6;
const CTRL_BYTE_2_IDX: usize = 7;
const PRG_SIZE_IDX: usize = 4;
const CHR_SIZE_IDX: usize = 5;
pub const MAPPER_TYPE_MASK: u8 = 0b1111_0000;
pub const INES_VER_MASK: u8 = 0b0000_1100;
pub const FOUR_SCREEN_MASK: u8 = 0b0000_1000;
pub const VERTICAL_MIRRORING_MASK: u8 = 0b0000_0001;
pub const SKIP_TRAINER_MASK: u8 = 0b0000_0100;

#[derive(Clone, Copy, Debug, PartialEq, Eq, Structural)]
pub enum Mirroring {
    Vertical,
    Horizontal,
    FourScreen,
}

pub struct Cart {
    pub prg_rom: Vec<u8>,
    pub chr_rom: Vec<u8>,
    pub mapper: u8,
    pub screen_mirroring: Mirroring,
}

/// The file starts with a full header whose first four bytes are `NES\x1A`.
pub open spec fn has_ines_tag(raw: Seq<u8>) -> bool {
    &&& raw.len() >= HEADER_SIZE
    &&& raw[0] == 0x4E && raw[1] == 0x45 && raw[2] == 0x53 && raw[3] == 0x1A
}

/// The header announces the NES 2.0 format.
pub open spec fn is_nes2(raw: Seq<u8>) -> bool {
    raw[7] & INES_VER_MASK != 0
}

pub open spec fn mapper_of(raw: Seq<u8>) -> u8 {
    (raw[7] & MAPPER_TYPE_MASK) | (raw[6] >> 4u8)
}

/// Four-screen mirroring wins over vertical, which wins over horizontal.
pub open spec fn mirroring_of(raw: Seq<u8>) -> Mirroring {
    if raw[6] & FOUR_SCREEN_MASK != 0 {
        Mirroring::FourScreen
    } else if raw[6] & VERTICAL_MIRRORING_MASK != 0 {
        Mirroring::Vertical
    } else {
        Mirroring::Horizontal
    }
}

/// Where PRG-ROM starts: after the header, and after the trainer when there is one.
pub open spec fn prg_start(raw: Seq<u8>) -> int {
    if raw[6] & SKIP_TRAINER_MASK != 0 {
        HEADER_SIZE + TRAINER_SIZE
    } else {
        HEADER_SIZE as int
    }
}

pub open spec fn prg_size(raw: Seq<u8>) -> int {
    raw[4] * PRG_ROM_PAGE_SIZE
}

pub open spec fn chr_start(raw: Seq<u8>) -> int {
    prg_start(raw) + prg_size(raw)
}

pub open spec fn chr_size(raw: Seq<u8>) -> int {
    raw[5] * CHR_ROM_PAGE_SIZE
}

/// The file holds all the ROM that its header announces.
pub open spec fn is_complete(raw: Seq<u8>) -> bool {
    raw.len() >= chr_start(raw) + chr_size(raw)
}

fn copy_range(raw: &Vec<u8>, start: usize, end: usize) -> (v: Vec<u8>)
    requires
        start <= end <= raw@.len(),
    ensures
        v@ == raw@.subrange(start as int, end as int),
{
    let mut v: Vec<u8> = Vec::new();
    v.extend_from_slice(slice_subrange(raw.as_slice(), start, end));
    assert(v@ =~= raw@.subrange(start as int, end as int));
    v
}

impl Cart {
    /// Parses an iNES file. Rejects a file without the iNES header, one in the
    /// NES 2.0 format, and one shorter than its header announces.
    pub fn new(raw: &Vec<u8>) -> (r: Result<Cart, String>)
        ensures
            !has_ines_tag(raw@) ==> r is Err && r->Err_0@ == "File is not in iNES file format"@,
            has_ines_tag(raw@) && is_nes2(raw@) ==> r is Err && r->Err_0@
                == "NES2.0 format not supported"@,
            has_ines_tag(raw@) && !is_nes2(raw@) && !is_complete(raw@) ==> r is Err
                && r->Err_0@ == "File is shorter than its header announces"@,
            r is Ok <==> has_ines_tag(raw@) && !is_nes2(raw@) && is_complete(raw@),
            r matches Ok(cart) ==> {
                &&& cart.prg_rom@ == raw@.subrange(prg_start(raw@), chr_start(raw@))
                &&& cart.chr_rom@ == raw@.subrange(
                    chr_start(raw@),
                    chr_start(raw@) + chr_size(raw@),
                )
                &&& cart.mapper == mapper_of(raw@)
                &&& cart.screen_mirroring == mirroring_of(raw@)
            },
    {
        if raw.len() < HEADER_SIZE || raw[0] != NES_TAG[0] || raw[1] != NES_TAG[1] || raw[2]
            != NES_TAG[2] || raw[3] != NES_TAG[3] {
            return Err("File is not in iNES file format".to_string());
        }
        let mapper = (raw[CTRL_BYTE_2_IDX] & MAPPER_TYPE_MASK) | (raw[CTRL_BYTE_1_IDX] >> 4u8);

        let ines_ver = raw[CTRL_BYTE_2_IDX] & INES_VER_MASK;
        if ines_ver != 0 {
            return Err("NES2.0 format not supported".to_string());
        }
        let four_screen = raw[CTRL_BYTE_1_IDX] & FOUR_SCREEN_MASK != 0;
        let vertical_mirroring = raw[CTRL_BYTE_1_IDX] & VERTICAL_MIRRORING_MASK != 0;
        let screen_mirroring = if four_screen {
            Mirroring::FourScreen
        } else if vertical_mirroring {
            Mirroring::Vertical
        } else {
            Mirroring::Horizontal
        };

        let prg_rom_size = raw[PRG_SIZE_IDX] as usize * PRG_ROM_PAGE_SIZE;
        let chr_rom_size = raw[CHR_SIZE_IDX] as usize * CHR_ROM_PAGE_SIZE;
        let skip_trainer = raw[CTRL_BYTE_1_IDX] & SKIP_TRAINER_MASK != 0;
        let prg_rom_start = HEADER_SIZE + if skip_trainer {
            TRAINER_SIZE
        } else {
            0
        };
        let chr_rom_start = prg_rom_start + prg_rom_size;
        if raw.len() < chr_rom_start || raw.len() - chr_rom_start < chr_rom_size {
            return Err("File is shorter than its header announces".to_string());
        }
        Ok(Cart {
            prg_rom: copy_range(raw, prg_rom_start, chr_rom_start),
            chr_rom: copy_range(raw, chr_rom_start, chr_rom_start + chr_rom_size),
            mapper,
            screen_mirroring,
        })
    }
}

} // verus!
