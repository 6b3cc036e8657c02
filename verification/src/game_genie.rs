use vstd::prelude::*;
use crate::errors::EngineError;

verus! {

/// The 4-bit value a code letter stands for, following the fixed 16-symbol
/// alphabet `A P Z L G I T Y E O X U K S V N`; any other byte maps to 16,
/// which no letter yields.
pub open spec fn gg_val(b: u8) -> u8 {
    match b {
        0x41u8 => 0u8,  // A
        0x50u8 => 1u8,  // P
        0x5Au8 => 2u8,  // Z
        0x4Cu8 => 3u8,  // L
        0x47u8 => 4u8,  // G
        0x49u8 => 5u8,  // I
        0x54u8 => 6u8,  // T
        0x59u8 => 7u8,  // Y
        0x45u8 => 8u8,  // E
        0x4Fu8 => 9u8,  // O
        0x58u8 => 10u8,  // X
        0x55u8 => 11u8,  // U
        0x4Bu8 => 12u8,  // K
        0x53u8 => 13u8,  // S
        0x56u8 => 14u8,  // V
        0x4Eu8 => 15u8,  // N
        _ => 16u8,
    }
}

/// The letter that stands for a 4-bit value; the inverse of `gg_val`.
pub open spec fn gg_letter(n: u8) -> u8 {
    match n {
        0u8 => 0x41u8,  // A
        1u8 => 0x50u8,  // P
        2u8 => 0x5Au8,  // Z
        3u8 => 0x4Cu8,  // L
        4u8 => 0x47u8,  // G
        5u8 => 0x49u8,  // I
        6u8 => 0x54u8,  // T
        7u8 => 0x59u8,  // Y
        8u8 => 0x45u8,  // E
        9u8 => 0x4Fu8,  // O
        10u8 => 0x58u8,  // X
        11u8 => 0x55u8,  // U
        12u8 => 0x4Bu8,  // K
        13u8 => 0x53u8,  // S
        14u8 => 0x56u8,  // V
        _ => 0x4Eu8,  // N
    }
}

/// Every byte of `s` is one of the 16 code letters.
pub open spec fn code_valid(s: Seq<u8>) -> bool {
    forall|i: int| 0 <= i < s.len() ==> gg_val(s[i]) < 16
}

/// The letters of `s` read as their 4-bit values.
pub open spec fn gg_vals(s: Seq<u8>) -> Seq<u8> {
    s.map(|i: int, b: u8| gg_val(b))
}

/// The cartridge address a code's nibbles carry: 15 bits gathered from the
/// low three bits and the high bit of nibbles 1 through 5, biased into the
/// 0x8000 to 0xFFFF space.
pub open spec fn gg_address(n: Seq<u8>) -> u16 {
    0x8000u16 | ((n[3] as u16 & 7) << 12) | ((n[4] as u16 & 8) << 8) | ((n[5] as u16 & 7) << 8) | (
    (n[1] as u16 & 8) << 4) | ((n[2] as u16 & 7) << 4) | (n[3] as u16 & 8) | (n[4] as u16 & 7)
}

/// The replacement value of a 6-letter code; its low fourth bit rides on
/// nibble 5.
pub open spec fn gg_value6(n: Seq<u8>) -> u8 {
    ((n[1] & 7) << 4) | ((n[0] & 8) << 4) | (n[0] & 7) | (n[5] & 8)
}

/// The replacement value of an 8-letter code; its low fourth bit rides on
/// nibble 7.
pub open spec fn gg_value8(n: Seq<u8>) -> u8 {
    ((n[1] & 7) << 4) | ((n[0] & 8) << 4) | (n[0] & 7) | (n[7] & 8)
}

/// The compare byte of an 8-letter code, gathered from nibbles 5, 6 and 7.
pub open spec fn gg_compare(n: Seq<u8>) -> u8 {
    ((n[7] & 7) << 4) | ((n[6] & 8) << 4) | (n[6] & 7) | (n[5] & 8)
}

/// A decoded Game Genie patch: where to patch, what to read instead, and,
/// for 8-letter codes, the byte the ROM must hold at that address for the
/// patch to apply.
#[derive(Clone, Copy, Debug, PartialEq, Eq, Structural)]
pub struct GgCode {
    /// Patched address, in the 0x8000 to 0xFFFF cartridge space.
    pub address: u16,
    /// The replacement value.
    pub value: u8,
    /// The gating compare byte; present exactly for 8-letter codes.
    pub compare: Option<u8>,
}

impl GgCode {
    /// The address lies in the cartridge space the code format reaches.
    pub open spec fn wf(&self) -> bool {
        self.address >= 0x8000
    }
}

/// What decoding a code string yields: the length decides the format, every
/// letter must come from the alphabet, and the nibbles are reassembled by the
/// fixed interleaving above.
pub open spec fn spec_decode(s: Seq<u8>) -> Result<GgCode, EngineError> {
    if s.len() != 6 && s.len() != 8 {
        Err(EngineError::InvalidLength)
    } else if !code_valid(s) {
        Err(EngineError::InvalidCharacter)
    } else if s.len() == 6 {
        Ok(
            GgCode {
                address: gg_address(gg_vals(s)),
                value: gg_value6(gg_vals(s)),
                compare: None,
            },
        )
    } else {
        Ok(
            GgCode {
                address: gg_address(gg_vals(s)),
                value: gg_value8(gg_vals(s)),
                compare: Some(gg_compare(gg_vals(s))),
            },
        )
    }
}

/// The nibbles that spell a triple: the structural inverse of the gathering
/// in `gg_address`, `gg_value6`, `gg_value8` and `gg_compare`. Nibble 2's
/// high bit is the format flag: clear for 6-letter codes, set for 8-letter
/// ones, which is the canonical spelling.
pub open spec fn spec_encode_nibbles(a: u16, v: u8, c: Option<u8>) -> Seq<u8> {
    match c {
        None => seq![
            ((v >> 4) & 8) | (v & 7),
            (((a >> 4) as u8) & 8) | ((v >> 4) & 7),
            ((a >> 4) as u8) & 7,
            (((a >> 12) as u8) & 7) | ((a as u8) & 8),
            ((a as u8) & 7) | (((a >> 8) as u8) & 8),
            (((a >> 8) as u8) & 7) | (v & 8),
        ],
        Some(cmp) => seq![
            ((v >> 4) & 8) | (v & 7),
            (((a >> 4) as u8) & 8) | ((v >> 4) & 7),
            (((a >> 4) as u8) & 7) | 8,
            (((a >> 12) as u8) & 7) | ((a as u8) & 8),
            ((a as u8) & 7) | (((a >> 8) as u8) & 8),
            (((a >> 8) as u8) & 7) | (cmp & 8),
            (cmp & 7) | ((cmp >> 4) & 8),
            ((cmp >> 4) & 7) | (v & 8),
        ],
    }
}

/// The canonical spelling of a triple: its nibbles written as letters.
pub open spec fn spec_encode(c: GgCode) -> Seq<u8> {
    spec_encode_nibbles(c.address, c.value, c.compare).map(|i: int, n: u8| gg_letter(n))
}

/// Reads one byte as a code letter's 4-bit value; 16 marks a byte outside
/// the alphabet.
fn letter_val(b: u8) -> (r: u8)
    ensures
        r == gg_val(b),
{
    match b {
        0x41 => 0,
        0x50 => 1,
        0x5A => 2,
        0x4C => 3,
        0x47 => 4,
        0x49 => 5,
        0x54 => 6,
        0x59 => 7,
        0x45 => 8,
        0x4F => 9,
        0x58 => 10,
        0x55 => 11,
        0x4B => 12,
        0x53 => 13,
        0x56 => 14,
        0x4E => 15,
        _ => 16,
    }
}

/// Writes a 4-bit value as its code letter.
fn val_letter(n: u8) -> (r: u8)
    ensures
        r == gg_letter(n),
{
    match n {
        0 => 0x41,
        1 => 0x50,
        2 => 0x5A,
        3 => 0x4C,
        4 => 0x47,
        5 => 0x49,
        6 => 0x54,
        7 => 0x59,
        8 => 0x45,
        9 => 0x4F,
        10 => 0x58,
        11 => 0x55,
        12 => 0x4B,
        13 => 0x53,
        14 => 0x56,
        _ => 0x4E,
    }
}

/// Decodes a code given as ASCII bytes. Fails with `InvalidLength` unless
/// the code is exactly 6 or 8 letters long, and with `InvalidCharacter` if a
/// byte falls outside the alphabet; succeeds on every other input, with the
/// compare byte present exactly for 8-letter codes.
pub fn decode(code: &[u8]) -> (r: Result<GgCode, EngineError>)
    ensures
        r == spec_decode(code@),
        r matches Ok(c) ==> c.wf(),
{
    let len = code.len();
    if len != 6 && len != 8 {
        return Err(EngineError::InvalidLength);
    }
    let mut vals: Vec<u8> = Vec::new();
    let mut i: usize = 0;
    while i < len
        invariant
            len == code@.len(),
            len == 6 || len == 8,
            i <= len,
            vals@.len() == i,
            forall|k: int| 0 <= k < i ==> vals@[k] == gg_val(code@[k]) && vals@[k] < 16,
        decreases len - i,
    {
        let v = letter_val(code[i]);
        if v >= 16 {
            proof {
                assert(!code_valid(code@)) by {
                    assert(gg_val(code@[i as int]) >= 16);
                }
            }
            return Err(EngineError::InvalidCharacter);
        }
        vals.push(v);
        i = i + 1;
    }
    proof {
        assert(vals@ =~= gg_vals(code@));
    }
    let n0 = vals[0];
    let n1 = vals[1];
    let n2 = vals[2];
    let n3 = vals[3];
    let n4 = vals[4];
    let n5 = vals[5];
    let address: u16 = 0x8000u16 | ((n3 as u16 & 7) << 12) | ((n4 as u16 & 8) << 8) | ((n5 as u16
        & 7) << 8) | ((n1 as u16 & 8) << 4) | ((n2 as u16 & 7) << 4) | (n3 as u16 & 8) | (n4
        as u16 & 7);
    proof {
        lemma_addr_high(n1, n2, n3, n4, n5);
    }
    if len == 6 {
        let value: u8 = ((n1 & 7) << 4) | ((n0 & 8) << 4) | (n0 & 7) | (n5 & 8);
        Ok(GgCode { address, value, compare: None })
    } else {
        let n6 = vals[6];
        let n7 = vals[7];
        let value: u8 = ((n1 & 7) << 4) | ((n0 & 8) << 4) | (n0 & 7) | (n7 & 8);
        let compare: u8 = ((n7 & 7) << 4) | ((n6 & 8) << 4) | (n6 & 7) | (n5 & 8);
        Ok(GgCode { address, value, compare: Some(compare) })
    }
}

/// Encodes a triple into its canonical spelling: 6 letters without a compare
/// byte, 8 with one.
pub fn encode(c: &GgCode) -> (r: Vec<u8>)
    requires
        c.wf(),
    ensures
        r@ == spec_encode(*c),
        r@.len() == (if c.compare is Some {
            8int
        } else {
            6int
        }),
{
    let a = c.address;
    let v = c.value;
    let mut out: Vec<u8> = Vec::new();
    match c.compare {
        None => {
            out.push(val_letter(((v >> 4) & 8) | (v & 7)));
            out.push(val_letter((((a >> 4) as u8) & 8) | ((v >> 4) & 7)));
            out.push(val_letter(((a >> 4) as u8) & 7));
            out.push(val_letter((((a >> 12) as u8) & 7) | ((a as u8) & 8)));
            out.push(val_letter(((a as u8) & 7) | (((a >> 8) as u8) & 8)));
            out.push(val_letter((((a >> 8) as u8) & 7) | (v & 8)));
            proof {
                assert(out@ =~= spec_encode(*c));
            }
        },
        Some(cmp) => {
            out.push(val_letter(((v >> 4) & 8) | (v & 7)));
            out.push(val_letter((((a >> 4) as u8) & 8) | ((v >> 4) & 7)));
            out.push(val_letter((((a >> 4) as u8) & 7) | 8));
            out.push(val_letter((((a >> 12) as u8) & 7) | ((a as u8) & 8)));
            out.push(val_letter(((a as u8) & 7) | (((a >> 8) as u8) & 8)));
            out.push(val_letter((((a >> 8) as u8) & 7) | (cmp & 8)));
            out.push(val_letter((cmp & 7) | ((cmp >> 4) & 8)));
            out.push(val_letter(((cmp >> 4) & 7) | (v & 8)));
            proof {
                assert(out@ =~= spec_encode(*c));
            }
        },
    }
    out
}

proof fn lemma_addr_high(n1: u8, n2: u8, n3: u8, n4: u8, n5: u8)
    by (bit_vector)
    ensures
        0x8000u16 | ((n3 as u16 & 7) << 12) | ((n4 as u16 & 8) << 8) | ((n5 as u16 & 7) << 8) | ((
        n1 as u16 & 8) << 4) | ((n2 as u16 & 7) << 4) | (n3 as u16 & 8) | (n4 as u16 & 7)
            >= 0x8000,
{
}

proof fn lemma_table_roundtrip()
    ensures
        forall|n: u8| n < 16 ==> #[trigger] gg_val(gg_letter(n)) == n,
{
}

proof fn lemma_table_inverse()
    ensures
        forall|b: u8| gg_val(b) < 16 ==> #[trigger] gg_letter(gg_val(b)) == b,
{
}

proof fn lemma_bits_decode_encode6(a: u16, v: u8, n0: u8, n1: u8, n2: u8, n3: u8, n4: u8, n5: u8)
    by (bit_vector)
    requires
        a >= 0x8000,
        n0 == ((v >> 4) & 8) | (v & 7),
        n1 == (((a >> 4) as u8) & 8) | ((v >> 4) & 7),
        n2 == ((a >> 4) as u8) & 7,
        n3 == (((a >> 12) as u8) & 7) | ((a as u8) & 8),
        n4 == ((a as u8) & 7) | (((a >> 8) as u8) & 8),
        n5 == (((a >> 8) as u8) & 7) | (v & 8),
    ensures
        0x8000u16 | ((n3 as u16 & 7) << 12) | ((n4 as u16 & 8) << 8) | ((n5 as u16 & 7) << 8) | ((
        n1 as u16 & 8) << 4) | ((n2 as u16 & 7) << 4) | (n3 as u16 & 8) | (n4 as u16 & 7) == a,
        ((n1 & 7) << 4) | ((n0 & 8) << 4) | (n0 & 7) | (n5 & 8) == v,
        n0 < 16 && n1 < 16 && n2 < 16 && n3 < 16 && n4 < 16 && n5 < 16,
{
}

proof fn lemma_bits_decode_encode8(
    a: u16,
    v: u8,
    cm: u8,
    n0: u8,
    n1: u8,
    n2: u8,
    n3: u8,
    n4: u8,
    n5: u8,
    n6: u8,
    n7: u8,
)
    by (bit_vector)
    requires
        a >= 0x8000,
        n0 == ((v >> 4) & 8) | (v & 7),
        n1 == (((a >> 4) as u8) & 8) | ((v >> 4) & 7),
        n2 == (((a >> 4) as u8) & 7) | 8,
        n3 == (((a >> 12) as u8) & 7) | ((a as u8) & 8),
        n4 == ((a as u8) & 7) | (((a >> 8) as u8) & 8),
        n5 == (((a >> 8) as u8) & 7) | (cm & 8),
        n6 == (cm & 7) | ((cm >> 4) & 8),
        n7 == ((cm >> 4) & 7) | (v & 8),
    ensures
        0x8000u16 | ((n3 as u16 & 7) << 12) | ((n4 as u16 & 8) << 8) | ((n5 as u16 & 7) << 8) | ((
        n1 as u16 & 8) << 4) | ((n2 as u16 & 7) << 4) | (n3 as u16 & 8) | (n4 as u16 & 7) == a,
        ((n1 & 7) << 4) | ((n0 & 8) << 4) | (n0 & 7) | (n7 & 8) == v,
        ((n7 & 7) << 4) | ((n6 & 8) << 4) | (n6 & 7) | (n5 & 8) == cm,
        n0 < 16 && n1 < 16 && n2 < 16 && n3 < 16 && n4 < 16 && n5 < 16 && n6 < 16 && n7 < 16,
{
}

proof fn lemma_bits_encode_decode6(a: u16, v: u8, n0: u8, n1: u8, n2: u8, n3: u8, n4: u8, n5: u8)
    by (bit_vector)
    requires
        n0 < 16 && n1 < 16 && n2 < 16 && n3 < 16 && n4 < 16 && n5 < 16,
        n2 & 8 == 0,
        a == 0x8000u16 | ((n3 as u16 & 7) << 12) | ((n4 as u16 & 8) << 8) | ((n5 as u16 & 7) << 8)
            | ((n1 as u16 & 8) << 4) | ((n2 as u16 & 7) << 4) | (n3 as u16 & 8) | (n4 as u16 & 7),
        v == ((n1 & 7) << 4) | ((n0 & 8) << 4) | (n0 & 7) | (n5 & 8),
    ensures
        ((v >> 4) & 8) | (v & 7) == n0,
        (((a >> 4) as u8) & 8) | ((v >> 4) & 7) == n1,
        ((a >> 4) as u8) & 7 == n2,
        (((a >> 12) as u8) & 7) | ((a as u8) & 8) == n3,
        ((a as u8) & 7) | (((a >> 8) as u8) & 8) == n4,
        (((a >> 8) as u8) & 7) | (v & 8) == n5,
{
}

proof fn lemma_bits_encode_decode8(
    a: u16,
    v: u8,
    cm: u8,
    n0: u8,
    n1: u8,
    n2: u8,
    n3: u8,
    n4: u8,
    n5: u8,
    n6: u8,
    n7: u8,
)
    by (bit_vector)
    requires
        n0 < 16 && n1 < 16 && n2 < 16 && n3 < 16 && n4 < 16 && n5 < 16 && n6 < 16 && n7 < 16,
        n2 & 8 == 8,
        a == 0x8000u16 | ((n3 as u16 & 7) << 12) | ((n4 as u16 & 8) << 8) | ((n5 as u16 & 7) << 8)
            | ((n1 as u16 & 8) << 4) | ((n2 as u16 & 7) << 4) | (n3 as u16 & 8) | (n4 as u16 & 7),
        v == ((n1 & 7) << 4) | ((n0 & 8) << 4) | (n0 & 7) | (n7 & 8),
        cm == ((n7 & 7) << 4) | ((n6 & 8) << 4) | (n6 & 7) | (n5 & 8),
    ensures
        ((v >> 4) & 8) | (v & 7) == n0,
        (((a >> 4) as u8) & 8) | ((v >> 4) & 7) == n1,
        (((a >> 4) as u8) & 7) | 8 == n2,
        (((a >> 12) as u8) & 7) | ((a as u8) & 8) == n3,
        ((a as u8) & 7) | (((a >> 8) as u8) & 8) == n4,
        (((a >> 8) as u8) & 7) | (cm & 8) == n5,
        (cm & 7) | ((cm >> 4) & 8) == n6,
        ((cm >> 4) & 7) | (v & 8) == n7,
{
}

/// Decoding inverts encoding: every triple whose address lies in the
/// cartridge space comes back unchanged from its canonical spelling.
pub proof fn lemma_decode_encode(c: GgCode)
    requires
        c.wf(),
    ensures
        spec_decode(spec_encode(c)) == Ok::<GgCode, EngineError>(c),
{
    lemma_table_roundtrip();
    let ns = spec_encode_nibbles(c.address, c.value, c.compare);
    let s = spec_encode(c);
    match c.compare {
        None => {
            lemma_bits_decode_encode6(c.address, c.value, ns[0], ns[1], ns[2], ns[3], ns[4], ns[5]);
            assert(forall|i: int| 0 <= i < 6 ==> #[trigger] ns[i] < 16) by {
                assert(ns[0] < 16 && ns[1] < 16 && ns[2] < 16 && ns[3] < 16 && ns[4] < 16 && ns[5]
                    < 16);
            }
            assert(gg_vals(s) =~= ns);
            assert(code_valid(s));
        },
        Some(cm) => {
            lemma_bits_decode_encode8(
                c.address,
                c.value,
                cm,
                ns[0],
                ns[1],
                ns[2],
                ns[3],
                ns[4],
                ns[5],
                ns[6],
                ns[7],
            );
            assert(forall|i: int| 0 <= i < 8 ==> #[trigger] ns[i] < 16) by {
                assert(ns[0] < 16 && ns[1] < 16 && ns[2] < 16 && ns[3] < 16 && ns[4] < 16 && ns[5]
                    < 16 && ns[6] < 16 && ns[7] < 16);
            }
            assert(gg_vals(s) =~= ns);
            assert(code_valid(s));
        },
    }
}

/// A code spells the length it has canonically when nibble 2's high bit
/// agrees with its format: clear in a 6-letter code, set in an 8-letter one.
pub open spec fn canonical(s: Seq<u8>) -> bool {
    &&& s.len() == 6 ==> gg_val(s[2]) & 8 == 0
    &&& s.len() == 8 ==> gg_val(s[2]) & 8 == 8
}

/// Encoding inverts decoding: every syntactically valid, canonically spelled
/// code string comes back letter for letter from the triple it decodes to.
pub proof fn lemma_encode_decode(s: Seq<u8>)
    requires
        s.len() == 6 || s.len() == 8,
        code_valid(s),
        canonical(s),
    ensures
        spec_decode(s) is Ok,
        spec_encode(spec_decode(s)->Ok_0) == s,
{
    lemma_table_inverse();
    let ns = gg_vals(s);
    assert(forall|i: int| 0 <= i < s.len() ==> #[trigger] ns[i] == gg_val(s[i]) && ns[i] < 16);
    let c = spec_decode(s)->Ok_0;
    if s.len() == 6 {
        lemma_bits_encode_decode6(c.address, c.value, ns[0], ns[1], ns[2], ns[3], ns[4], ns[5]);
        assert(spec_encode_nibbles(c.address, c.value, c.compare) =~= ns);
        assert(spec_encode(c) =~= s);
    } else {
        let cm = c.compare->0;
        lemma_bits_encode_decode8(
            c.address,
            c.value,
            cm,
            ns[0],
            ns[1],
            ns[2],
            ns[3],
            ns[4],
            ns[5],
            ns[6],
            ns[7],
        );
        assert(spec_encode_nibbles(c.address, c.value, c.compare) =~= ns);
        assert(spec_encode(c) =~= s);
    }
}


} // verus!
