//! iNES ROM container loading and raw direction-table extraction.
//!
//! A ROM image is accepted only when it has the exact fixed size of the
//! analyzed cartridge (16-byte header plus 32 KiB PRG plus 32 KiB CHR) and
//! starts with the iNES magic; the PRG section is then exposed as a byte
//! vector. The direction-table extractor reads two fixed 64-byte runs of
//! signed displacement bytes out of the PRG and zips them positionally.

use vstd::prelude::*;

verus! {

/// Size in bytes of the PRG section.
pub const PRG_LEN: usize = 0x8000;

/// Exact size in bytes of an accepted iNES image: 16-byte header, 32 KiB
/// PRG, 32 KiB CHR.
pub const INES_LEN: usize = 16 + 0x8000 + 0x8000;

/// The four iNES magic bytes, `N`, `E`, `S`, 0x1A.
pub open spec fn ines_magic() -> Seq<u8> {
    seq![0x4Eu8, 0x45u8, 0x53u8, 0x1Au8]
}

/// Why an iNES image was rejected.
#[derive(Clone, Copy, Debug, PartialEq, Eq, Structural)]
pub enum RomError {
    /// The image is not exactly `INES_LEN` bytes long.
    SizeMismatch,
    /// The image does not start with the iNES magic bytes.
    MagicNotFound,
}

/// A parsed ROM: the PRG section of an iNES image.
#[derive(Debug)]
pub struct Rom {
    pub prg: Vec<u8>,
}

impl Rom {
    /// A well-formed ROM holds exactly the 32 KiB PRG section.
    pub open spec fn wf(self) -> bool {
        self.prg@.len() == PRG_LEN
    }

    /// Parse an iNES image: accept it exactly when it has the fixed size
    /// and the magic header, and return the PRG section.
    pub fn from_ines(ines: &[u8]) -> (r: Result<Rom, RomError>)
        ensures
            r is Ok <==> (ines@.len() == INES_LEN && ines@.subrange(0, 4) == ines_magic()),
            r matches Ok(rom) ==> rom.wf() && rom.prg@ == ines@.subrange(16, 16 + PRG_LEN),
            r == Err::<Rom, RomError>(RomError::SizeMismatch) <==> ines@.len() != INES_LEN,
            r == Err::<Rom, RomError>(RomError::MagicNotFound) <==> (ines@.len() == INES_LEN
                && ines@.subrange(0, 4) != ines_magic()),
    {
        if ines.len() != INES_LEN {
            return Err(RomError::SizeMismatch);
        }
        let magic_ok = ines[0] == 0x4E && ines[1] == 0x45 && ines[2] == 0x53 && ines[3] == 0x1A;
        proof {
            assert(ines@.subrange(0, 4) =~= seq![ines@[0], ines@[1], ines@[2], ines@[3]]);
        }
        if !magic_ok {
            assert(ines@.subrange(0, 4) != ines_magic());
            return Err(RomError::MagicNotFound);
        }
        let mut prg: Vec<u8> = Vec::new();
        let mut i: usize = 0;
        while i < PRG_LEN
            invariant
                i <= PRG_LEN,
                ines@.len() == INES_LEN,
                prg@ =~= ines@.subrange(16, 16 + i),
            decreases PRG_LEN - i,
        {
            prg.push(ines[16 + i]);
            i += 1;
        }
        Ok(Rom { prg })
    }
}

/// Offset in the PRG of the 64-byte run of horizontal displacement bytes.
pub const DIR_DX_OFFSET: usize = 0x0923;

/// Offset in the PRG of the 64-byte run of vertical displacement bytes.
pub const DIR_DY_OFFSET: usize = 0x0963;

/// Number of entries in the precomputed direction table.
pub const DIR_COUNT: usize = 0x40;

/// Read the game's precomputed 64-entry direction table out of the PRG:
/// entry `i` pairs the horizontal byte at `DIR_DX_OFFSET + i` with the
/// vertical byte at `DIR_DY_OFFSET + i`, both reinterpreted as signed bytes.
/// Positional order is preserved.
pub fn get_directions(rom: &Rom) -> (dirs: Vec<(i8, i8)>)
    requires
        rom.wf(),
    ensures
        dirs@.len() == DIR_COUNT,
        forall|i: int|
            0 <= i < DIR_COUNT ==> dirs@[i] == (
                rom.prg@[DIR_DX_OFFSET + i] as i8,
                rom.prg@[DIR_DY_OFFSET + i] as i8,
            ),
    {
    let mut dirs: Vec<(i8, i8)> = Vec::new();
    let mut i: usize = 0;
    while i < DIR_COUNT
        invariant
            i <= DIR_COUNT,
            rom.wf(),
            dirs@.len() == i,
            forall|j: int|
                0 <= j < i ==> dirs@[j] == (
                    rom.prg@[DIR_DX_OFFSET + j] as i8,
                    rom.prg@[DIR_DY_OFFSET + j] as i8,
                ),
        decreases DIR_COUNT - i,
    {
        let dx = rom.prg[DIR_DX_OFFSET + i] as i8;
        let dy = rom.prg[DIR_DY_OFFSET + i] as i8;
        dirs.push((dx, dy));
        i += 1;
    }
    dirs
}

} // verus!
