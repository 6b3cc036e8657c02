use vstd::prelude::*;
use vstd::slice::slice_subrange;
use crate::chr::Tile;
use crate::chr::decode_chr;
use crate::disasm::Instruction;
use crate::disasm::listing_end;
use crate::disasm::listing_ok;
use crate::disasm::spec_mode;
use crate::disasm::spec_operand_count;
use crate::disasm::disassemble;
use crate::errors::EngineError;
use crate::game_genie::GgCode;
use crate::game_genie::decode;
use crate::game_genie::spec_decode;
use crate::header::header_ok;
use crate::header::parse_header;
use crate::header::spec_chr_len;
use crate::header::spec_chr_offset;
use crate::header::spec_prg_len;
use crate::header::spec_prg_offset;
use crate::prng::NesPrng;
use crate::prng::lfsr_iter;

verus! {

/// The closed set of analysis engines. Each consumes the raw bytes or scalar
/// parameters it was built with, computes independently of the others, and
/// yields one artifact; engines share nothing and perform no input or output.
pub enum Engine {
    /// Extracts the indexed-pixel tiles of the ROM's character region.
    ChrExtract { rom: Vec<u8> },
    /// Disassembles the ROM's program region from its first byte.
    Disassemble { rom: Vec<u8> },
    /// Decodes a Game Genie code given as ASCII bytes.
    GameGenie { code: Vec<u8> },
    /// Replays the console's pseudo-random sequence to an iteration count.
    Prng { seed: u16, it: Option<u16> },
}

/// What one engine run yields.
#[derive(Debug)]
pub enum Artifact {
    /// The character region's tiles, in source order.
    Tiles(Vec<Tile>),
    /// The program region's straight-line listing; `truncated` reports a
    /// final instruction whose operand bytes ran past the region's end.
    Listing { instructions: Vec<Instruction>, truncated: Option<EngineError> },
    /// The decoded Game Genie patch.
    Patch(GgCode),
    /// The register value the requested iteration count reaches.
    PrngValue(u16),
}

/// The iteration a PRNG engine is asked for: the given count, or zero.
pub open spec fn prng_iterations(it: Option<u16>) -> nat {
    match it {
        Some(n) => n as nat,
        None => 0nat,
    }
}

impl Engine {
    /// Runs the engine's computation. Pure and deterministic: re-invocation
    /// recomputes the identical artifact. The ROM-fed engines fail with
    /// `InvalidHeader` exactly when the header is malformed; the code engine
    /// fails exactly as decoding the code fails; the PRNG engine cannot fail.
    pub fn execute(&self) -> (r: Result<Artifact, EngineError>)
        ensures
            self matches Engine::ChrExtract { rom } ==> {
                &&& (r is Ok <==> header_ok(rom@))
                &&& r matches Err(e) ==> e == EngineError::InvalidHeader
                &&& r matches Ok(a) ==> {
                    let region = rom@.subrange(
                        spec_chr_offset(rom@),
                        spec_chr_offset(rom@) + spec_chr_len(rom@),
                    );
                    &&& a matches Artifact::Tiles(ts)
                    &&& a matches Artifact::Tiles(ts) ==> {
                        &&& ts@.len() == spec_chr_len(rom@) / 16
                        &&& forall|i: int|
                            0 <= i < ts@.len() ==> (#[trigger] ts@[i]).wf() && ts@[i].decodes(
                                region.subrange(16 * i, 16 * i + 16),
                            )
                    }
                }
            },
            self matches Engine::Disassemble { rom } ==> {
                &&& (r is Ok <==> header_ok(rom@))
                &&& r matches Err(e) ==> e == EngineError::InvalidHeader
                &&& r matches Ok(a) ==> {
                    let region = rom@.subrange(
                        spec_prg_offset(rom@),
                        spec_prg_offset(rom@) + spec_prg_len(rom@),
                    );
                    &&& a matches Artifact::Listing { instructions, truncated }
                    &&& a matches Artifact::Listing { instructions, truncated } ==> {
                        &&& listing_ok(region, 0, instructions@)
                        &&& truncated is None ==> listing_end(0, instructions@) == region.len()
                        &&& truncated matches Some(e) ==> {
                            let end = listing_end(0, instructions@);
                            &&& e == EngineError::TruncatedInstruction
                            &&& end < region.len()
                            &&& end + 1 + spec_operand_count(spec_mode(region[end]))
                                > region.len()
                        }
                    }
                }
            },
            self matches Engine::GameGenie { code } ==> {
                &&& (r is Ok <==> spec_decode(code@) is Ok)
                &&& r matches Ok(a) ==> a matches Artifact::Patch(c) && spec_decode(code@)
                    == Ok::<GgCode, EngineError>(c)
                &&& r matches Err(e) ==> spec_decode(code@) == Err::<GgCode, EngineError>(e)
            },
            self matches Engine::Prng { seed, it } ==> r == Ok::<Artifact, EngineError>(
                Artifact::PrngValue(lfsr_iter(*seed, prng_iterations(*it))),
            ),
    {
        match self {
            Engine::ChrExtract { rom } => {
                let img = match parse_header(rom.as_slice()) {
                    Ok(img) => img,
                    Err(e) => {
                        return Err(e);
                    },
                };
                let region = slice_subrange(
                    rom.as_slice(),
                    img.chr_offset,
                    img.chr_offset + img.chr_len,
                );
                proof {
                    assert(img.chr_len == rom@[5] * 8192);
                    assert(rom@[5] * 8192 % 16 == 0) by (nonlinear_arith);
                }
                match decode_chr(region) {
                    Ok(ts) => Ok(Artifact::Tiles(ts)),
                    Err(e) => Err(e),
                }
            },
            Engine::Disassemble { rom } => {
                let img = match parse_header(rom.as_slice()) {
                    Ok(img) => img,
                    Err(e) => {
                        return Err(e);
                    },
                };
                let region = slice_subrange(
                    rom.as_slice(),
                    img.prg_offset,
                    img.prg_offset + img.prg_len,
                );
                let (instructions, truncated) = disassemble(region, 0);
                Ok(Artifact::Listing { instructions, truncated })
            },
            Engine::GameGenie { code } => {
                match decode(code.as_slice()) {
                    Ok(c) => Ok(Artifact::Patch(c)),
                    Err(e) => Err(e),
                }
            },
            Engine::Prng { seed, it } => {
                let p = NesPrng::new(*seed, *it);
                Ok(Artifact::PrngValue(p.value()))
            },
        }
    }
}

} // verus!
