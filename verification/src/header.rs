use vstd::prelude::*;
use crate::errors::EngineError;

verus! {

/// Bytes one 16 KiB program bank takes.
pub const PRG_BANK_SIZE: usize = 16384;

/// Bytes one 8 KiB character bank takes.
pub const CHR_BANK_SIZE: usize = 8192;

/// Bytes the header takes.
pub const HEADER_SIZE: usize = 16;

/// Bytes an optional trainer region takes.
pub const TRAINER_SIZE: usize = 512;

/// The buffer begins with the four iNES signature bytes `N`, `E`, `S`, 0x1A.
pub open spec fn has_ines_magic(data: Seq<u8>) -> bool {
    &&& data.len() >= 4
    &&& data[0] == 0x4Eu8
    &&& data[1] == 0x45u8
    &&& data[2] == 0x53u8
    &&& data[3] == 0x1Au8
}

/// Whether byte 6 declares a 512-byte trainer before the program region.
pub open spec fn spec_has_trainer(data: Seq<u8>) -> bool {
    data[6] & 0x04u8 != 0
}

/// Where the program region starts: right after the header and the trainer,
/// when one is present.
pub open spec fn spec_prg_offset(data: Seq<u8>) -> int {
    if spec_has_trainer(data) {
        HEADER_SIZE + TRAINER_SIZE
    } else {
        HEADER_SIZE as int
    }
}

/// Bytes the program region takes: one 16 KiB bank per declared count.
pub open spec fn spec_prg_len(data: Seq<u8>) -> int {
    data[4] * PRG_BANK_SIZE
}

/// Where the character region starts: right after the program region.
pub open spec fn spec_chr_offset(data: Seq<u8>) -> int {
    spec_prg_offset(data) + spec_prg_len(data)
}

/// Bytes the character region takes: one 8 KiB bank per declared count.
pub open spec fn spec_chr_len(data: Seq<u8>) -> int {
    data[5] * CHR_BANK_SIZE
}

/// The header is well formed and every region it declares lies inside the
/// buffer: the signature matches and the trainer, program and character
/// regions, laid end to end, do not reach past the buffer's end.
pub open spec fn header_ok(data: Seq<u8>) -> bool {
    &&& data.len() >= HEADER_SIZE
    &&& has_ines_magic(data)
    &&& spec_prg_offset(data) + data[4] * PRG_BANK_SIZE + data[5] * CHR_BANK_SIZE <= data.len()
}

/// The regions of a ROM image, as the iNES header declares them. Constructed
/// once from raw bytes and immutable thereafter; offsets never exceed the
/// length of the buffer the image was parsed from.
#[derive(Clone, Copy, Debug, PartialEq, Eq, Structural)]
pub struct RomImage {
    /// Count of 16 KiB program banks.
    pub prg_banks: u8,
    /// Count of 8 KiB character banks.
    pub chr_banks: u8,
    /// Whether a 512-byte trainer sits between header and program region.
    pub has_trainer: bool,
    /// The mapper number: high nibble of byte 7 over high nibble of byte 6.
    pub mapper_id: u8,
    /// Where the program region starts.
    pub prg_offset: usize,
    /// Bytes the program region takes.
    pub prg_len: usize,
    /// Where the character region starts.
    pub chr_offset: usize,
    /// Bytes the character region takes.
    pub chr_len: usize,
}

impl RomImage {
    /// The image describes exactly the regions the header of `data` declares.
    pub open spec fn matches(&self, data: Seq<u8>) -> bool {
        &&& header_ok(data)
        &&& self.prg_banks == data[4]
        &&& self.chr_banks == data[5]
        &&& self.has_trainer == spec_has_trainer(data)
        &&& self.mapper_id == (data[6] >> 4) | (data[7] & 0xF0u8)
        &&& self.prg_offset == spec_prg_offset(data)
        &&& self.prg_len == spec_prg_len(data)
        &&& self.chr_offset == spec_chr_offset(data)
        &&& self.chr_len == spec_chr_len(data)
    }
}

/// Parses the iNES header of `data`. Returns the declared regions exactly
/// when the header is well formed and they all fit in the buffer; fails with
/// `InvalidHeader` otherwise. Pure: reads the buffer and nothing else.
pub fn parse_header(data: &[u8]) -> (r: Result<RomImage, EngineError>)
    ensures
        r is Ok <==> header_ok(data@),
        r matches Ok(img) ==> img.matches(data@),
        r matches Err(e) ==> e == EngineError::InvalidHeader,
{
    if data.len() < HEADER_SIZE {
        return Err(EngineError::InvalidHeader);
    }
    if !(data[0] == 0x4E && data[1] == 0x45 && data[2] == 0x53 && data[3] == 0x1A) {
        return Err(EngineError::InvalidHeader);
    }
    let prg_banks = data[4];
    let chr_banks = data[5];
    let has_trainer = data[6] & 0x04 != 0;
    let prg_offset: usize = if has_trainer {
        HEADER_SIZE + TRAINER_SIZE
    } else {
        HEADER_SIZE
    };
    let prg_len: usize = (prg_banks as usize) * PRG_BANK_SIZE;
    let chr_len: usize = (chr_banks as usize) * CHR_BANK_SIZE;
    if data.len() < prg_offset || data.len() - prg_offset < prg_len || data.len() - prg_offset
        - prg_len < chr_len {
        return Err(EngineError::InvalidHeader);
    }
    Ok(
        RomImage {
            prg_banks,
            chr_banks,
            has_trainer,
            mapper_id: (data[6] >> 4) | (data[7] & 0xF0),
            prg_offset,
            prg_len,
            chr_offset: prg_offset + prg_len,
            chr_len,
        },
    )
}

} // verus!
