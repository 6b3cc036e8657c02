use vstd::prelude::*;
use vstd::slice::slice_subrange;
use crate::errors::EngineError;

verus! {

/// Bytes one tile takes in CHR ROM: 8 bytes of bitplane 0, then 8 of bitplane 1.
pub const TILE_BYTES: usize = 16;

/// The 2-bit colour index of the pixel at `row`, `col` of a 16-byte tile
/// block: bit `7 - col` of bitplane-0 byte `row` is the low bit, the same bit
/// of bitplane-1 byte `row` (8 bytes later) the high bit.
pub open spec fn chr_pixel(block: Seq<u8>, row: int, col: int) -> u8 {
    ((block[row] >> ((7 - col) as u8)) & 1) | (((block[row + 8] >> ((7 - col) as u8)) & 1) << 1)
}

/// An 8 by 8 grid of 2-bit colour indices, stored row-major.
#[derive(Debug)]
pub struct Tile {
    pub pixels: Vec<u8>,
}

impl Tile {
    /// Exactly 64 pixels, each a colour index below 4.
    pub open spec fn wf(&self) -> bool {
        &&& self.pixels@.len() == 64
        &&& forall|i: int| 0 <= i < 64 ==> self.pixels@[i] < 4
    }

    /// The grid holds exactly the pixels the 16-byte `block` encodes.
    pub open spec fn decodes(&self, block: Seq<u8>) -> bool {
        &&& self.pixels@.len() == 64
        &&& forall|row: int, col: int|
            0 <= row < 8 && 0 <= col < 8 ==> self.pixels@[row * 8 + col] == chr_pixel(
                block,
                row,
                col,
            )
    }

    /// The colour index at `row`, `col`.
    pub fn pixel(&self, row: usize, col: usize) -> (p: u8)
        requires
            self.wf(),
            row < 8,
            col < 8,
        ensures
            p == self.pixels@[row as int * 8 + col as int],
            p < 4,
    {
        self.pixels[row * 8 + col]
    }
}

proof fn lemma_two_bits(a: u8, b: u8)
    by (bit_vector)
    ensures
        ((a & 1) | ((b & 1) << 1)) < 4,
{
}

/// Decodes one 16-byte block into its tile, combining bit `7 - col` of the
/// two bitplane bytes of each row into one 2-bit index, most significant
/// pixel first.
pub fn decode_tile(block: &[u8]) -> (t: Tile)
    requires
        block@.len() == TILE_BYTES,
    ensures
        t.wf(),
        t.decodes(block@),
{
    let mut pixels: Vec<u8> = Vec::new();
    let mut row: usize = 0;
    while row < 8
        invariant
            block@.len() == TILE_BYTES,
            row <= 8,
            pixels@.len() == row * 8,
            forall|r: int, c: int|
                0 <= r < row && 0 <= c < 8 ==> pixels@[r * 8 + c] == chr_pixel(block@, r, c),
            forall|i: int| 0 <= i < pixels@.len() ==> pixels@[i] < 4,
        decreases 8 - row,
    {
        let mut col: usize = 0;
        while col < 8
            invariant
                block@.len() == TILE_BYTES,
                row < 8,
                col <= 8,
                pixels@.len() == row * 8 + col,
                forall|r: int, c: int|
                    0 <= r < row && 0 <= c < 8 ==> pixels@[r * 8 + c] == chr_pixel(block@, r, c),
                forall|c: int|
                    0 <= c < col ==> pixels@[row as int * 8 + c] == chr_pixel(
                        block@,
                        row as int,
                        c,
                    ),
                forall|i: int| 0 <= i < pixels@.len() ==> pixels@[i] < 4,
            decreases 8 - col,
        {
            let sh: u8 = (7 - col) as u8;
            let lo: u8 = (block[row] >> sh) & 1;
            let hi: u8 = (block[row + 8] >> sh) & 1;
            let px: u8 = lo | (hi << 1);
            proof {
                lemma_two_bits(block@[row as int] >> sh, block@[row as int + 8] >> sh);
            }
            pixels.push(px);
            col = col + 1;
        }
        row = row + 1;
    }
    Tile { pixels }
}

/// Decodes a whole CHR region into its tiles in source order. Succeeds
/// exactly when the region's length is a multiple of 16, consuming 16 bytes
/// per tile; fails with `TruncatedChrData` otherwise.
pub fn decode_chr(chr: &[u8]) -> (r: Result<Vec<Tile>, EngineError>)
    ensures
        r is Ok <==> chr@.len() % 16 == 0,
        r matches Ok(ts) ==> {
            &&& ts@.len() == chr@.len() / 16
            &&& forall|i: int|
                0 <= i < ts@.len() ==> ts@[i].wf() && ts@[i].decodes(
                    chr@.subrange(16 * i, 16 * i + 16),
                )
        },
        r matches Err(e) ==> e == EngineError::TruncatedChrData,
{
    if chr.len() % 16 != 0 {
        return Err(EngineError::TruncatedChrData);
    }
    let count: usize = chr.len() / 16;
    let mut tiles: Vec<Tile> = Vec::new();
    let mut i: usize = 0;
    while i < count
        invariant
            chr@.len() == count * 16,
            count * 16 <= usize::MAX,
            i <= count,
            tiles@.len() == i,
            forall|k: int|
                0 <= k < i ==> tiles@[k].wf() && tiles@[k].decodes(
                    chr@.subrange(16 * k, 16 * k + 16),
                ),
        decreases count - i,
    {
        let block = slice_subrange(chr, 16 * i, 16 * i + 16);
        let t = decode_tile(block);
        tiles.push(t);
        i = i + 1;
    }
    Ok(tiles)
}

} // verus!
