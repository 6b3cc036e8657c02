use vstd::prelude::*;
use vstd::slice::slice_subrange;
use crate::errors::EngineError;

verus! {

/// The 56 legal 6502 operations, plus an explicit marker for the 105 byte
/// values that encode no documented operation. An illegal byte is reported
/// as such, never skipped.
#[derive(Clone, Copy, Debug, PartialEq, Eq, Structural)]
pub enum Mnemonic {
    Adc, And, Asl, Bcc, Bcs, Beq, Bit, Bmi, Bne, Bpl, Brk, Bvc, Bvs, Clc,
    Cld, Cli, Clv, Cmp, Cpx, Cpy, Dec, Dex, Dey, Eor, Inc, Inx, Iny, Jmp,
    Jsr, Lda, Ldx, Ldy, Lsr, Nop, Ora, Pha, Php, Pla, Plp, Rol, Ror, Rti,
    Rts, Sbc, Sec, Sed, Sei, Sta, Stx, Sty, Tax, Tay, Tsx, Txa, Txs, Tya,
    Ill,
}

/// The 13 ways a 6502 instruction interprets its operand bytes. The mode
/// alone decides how many bytes follow the opcode.
#[derive(Clone, Copy, Debug, PartialEq, Eq, Structural)]
pub enum AddrMode {
    Implied,
    Accumulator,
    Immediate,
    ZeroPage,
    ZeroPageX,
    ZeroPageY,
    Absolute,
    AbsoluteX,
    AbsoluteY,
    Indirect,
    IndexedIndirect,
    IndirectIndexed,
    Relative,
}

/// The operation the opcode byte `op` names, per the fixed 256-entry table.
pub open spec fn spec_mnemonic(op: u8) -> Mnemonic {
    match op {
        0x61u8 | 0x65u8 | 0x69u8 | 0x6Du8 | 0x71u8 | 0x75u8 | 0x79u8 | 0x7Du8 => Mnemonic::Adc,
        0x21u8 | 0x25u8 | 0x29u8 | 0x2Du8 | 0x31u8 | 0x35u8 | 0x39u8 | 0x3Du8 => Mnemonic::And,
        0x06u8 | 0x0Au8 | 0x0Eu8 | 0x16u8 | 0x1Eu8 => Mnemonic::Asl,
        0x90u8 => Mnemonic::Bcc,
        0xB0u8 => Mnemonic::Bcs,
        0xF0u8 => Mnemonic::Beq,
        0x24u8 | 0x2Cu8 => Mnemonic::Bit,
        0x30u8 => Mnemonic::Bmi,
        0xD0u8 => Mnemonic::Bne,
        0x10u8 => Mnemonic::Bpl,
        0x00u8 => Mnemonic::Brk,
        0x50u8 => Mnemonic::Bvc,
        0x70u8 => Mnemonic::Bvs,
        0x18u8 => Mnemonic::Clc,
        0xD8u8 => Mnemonic::Cld,
        0x58u8 => Mnemonic::Cli,
        0xB8u8 => Mnemonic::Clv,
        0xC1u8 | 0xC5u8 | 0xC9u8 | 0xCDu8 | 0xD1u8 | 0xD5u8 | 0xD9u8 | 0xDDu8 => Mnemonic::Cmp,
        0xE0u8 | 0xE4u8 | 0xECu8 => Mnemonic::Cpx,
        0xC0u8 | 0xC4u8 | 0xCCu8 => Mnemonic::Cpy,
        0xC6u8 | 0xCEu8 | 0xD6u8 | 0xDEu8 => Mnemonic::Dec,
        0xCAu8 => Mnemonic::Dex,
        0x88u8 => Mnemonic::Dey,
        0x41u8 | 0x45u8 | 0x49u8 | 0x4Du8 | 0x51u8 | 0x55u8 | 0x59u8 | 0x5Du8 => Mnemonic::Eor,
        0xE6u8 | 0xEEu8 | 0xF6u8 | 0xFEu8 => Mnemonic::Inc,
        0xE8u8 => Mnemonic::Inx,
        0xC8u8 => Mnemonic::Iny,
        0x4Cu8 | 0x6Cu8 => Mnemonic::Jmp,
        0x20u8 => Mnemonic::Jsr,
        0xA1u8 | 0xA5u8 | 0xA9u8 | 0xADu8 | 0xB1u8 | 0xB5u8 | 0xB9u8 | 0xBDu8 => Mnemonic::Lda,
        0xA2u8 | 0xA6u8 | 0xAEu8 | 0xB6u8 | 0xBEu8 => Mnemonic::Ldx,
        0xA0u8 | 0xA4u8 | 0xACu8 | 0xB4u8 | 0xBCu8 => Mnemonic::Ldy,
        0x46u8 | 0x4Au8 | 0x4Eu8 | 0x56u8 | 0x5Eu8 => Mnemonic::Lsr,
        0xEAu8 => Mnemonic::Nop,
        0x01u8 | 0x05u8 | 0x09u8 | 0x0Du8 | 0x11u8 | 0x15u8 | 0x19u8 | 0x1Du8 => Mnemonic::Ora,
        0x48u8 => Mnemonic::Pha,
        0x08u8 => Mnemonic::Php,
        0x68u8 => Mnemonic::Pla,
        0x28u8 => Mnemonic::Plp,
        0x26u8 | 0x2Au8 | 0x2Eu8 | 0x36u8 | 0x3Eu8 => Mnemonic::Rol,
        0x66u8 | 0x6Au8 | 0x6Eu8 | 0x76u8 | 0x7Eu8 => Mnemonic::Ror,
        0x40u8 => Mnemonic::Rti,
        0x60u8 => Mnemonic::Rts,
        0xE1u8 | 0xE5u8 | 0xE9u8 | 0xEDu8 | 0xF1u8 | 0xF5u8 | 0xF9u8 | 0xFDu8 => Mnemonic::Sbc,
        0x38u8 => Mnemonic::Sec,
        0xF8u8 => Mnemonic::Sed,
        0x78u8 => Mnemonic::Sei,
        0x81u8 | 0x85u8 | 0x8Du8 | 0x91u8 | 0x95u8 | 0x99u8 | 0x9Du8 => Mnemonic::Sta,
        0x86u8 | 0x8Eu8 | 0x96u8 => Mnemonic::Stx,
        0x84u8 | 0x8Cu8 | 0x94u8 => Mnemonic::Sty,
        0xAAu8 => Mnemonic::Tax,
        0xA8u8 => Mnemonic::Tay,
        0xBAu8 => Mnemonic::Tsx,
        0x8Au8 => Mnemonic::Txa,
        0x9Au8 => Mnemonic::Txs,
        0x98u8 => Mnemonic::Tya,
        _ => Mnemonic::Ill,
    }
}

/// The addressing mode of the opcode byte `op`. Illegal bytes take one byte
/// and no operand, so they read as implied.
pub open spec fn spec_mode(op: u8) -> AddrMode {
    match op {
        0x09u8 | 0x29u8 | 0x49u8 | 0x69u8 | 0xA0u8 | 0xA2u8 | 0xA9u8 | 0xC0u8 | 0xC9u8 | 0xE0u8 | 0xE9u8 => AddrMode::Immediate,
        0x05u8 | 0x06u8 | 0x24u8 | 0x25u8 | 0x26u8 | 0x45u8 | 0x46u8 | 0x65u8 | 0x66u8 | 0x84u8 | 0x85u8 | 0x86u8 | 0xA4u8 | 0xA5u8 | 0xA6u8 | 0xC4u8 | 0xC5u8 | 0xC6u8 | 0xE4u8 | 0xE5u8 | 0xE6u8 => AddrMode::ZeroPage,
        0x15u8 | 0x16u8 | 0x35u8 | 0x36u8 | 0x55u8 | 0x56u8 | 0x75u8 | 0x76u8 | 0x94u8 | 0x95u8 | 0xB4u8 | 0xB5u8 | 0xD5u8 | 0xD6u8 | 0xF5u8 | 0xF6u8 => AddrMode::ZeroPageX,
        0x96u8 | 0xB6u8 => AddrMode::ZeroPageY,
        0x0Du8 | 0x0Eu8 | 0x20u8 | 0x2Cu8 | 0x2Du8 | 0x2Eu8 | 0x4Cu8 | 0x4Du8 | 0x4Eu8 | 0x6Du8 | 0x6Eu8 | 0x8Cu8 | 0x8Du8 | 0x8Eu8 | 0xACu8 | 0xADu8 | 0xAEu8 | 0xCCu8 | 0xCDu8 | 0xCEu8 | 0xECu8 | 0xEDu8 | 0xEEu8 => AddrMode::Absolute,
        0x1Du8 | 0x1Eu8 | 0x3Du8 | 0x3Eu8 | 0x5Du8 | 0x5Eu8 | 0x7Du8 | 0x7Eu8 | 0x9Du8 | 0xBCu8 | 0xBDu8 | 0xDDu8 | 0xDEu8 | 0xFDu8 | 0xFEu8 => AddrMode::AbsoluteX,
        0x19u8 | 0x39u8 | 0x59u8 | 0x79u8 | 0x99u8 | 0xB9u8 | 0xBEu8 | 0xD9u8 | 0xF9u8 => AddrMode::AbsoluteY,
        0x6Cu8 => AddrMode::Indirect,
        0x01u8 | 0x21u8 | 0x41u8 | 0x61u8 | 0x81u8 | 0xA1u8 | 0xC1u8 | 0xE1u8 => AddrMode::IndexedIndirect,
        0x11u8 | 0x31u8 | 0x51u8 | 0x71u8 | 0x91u8 | 0xB1u8 | 0xD1u8 | 0xF1u8 => AddrMode::IndirectIndexed,
        0x10u8 | 0x30u8 | 0x50u8 | 0x70u8 | 0x90u8 | 0xB0u8 | 0xD0u8 | 0xF0u8 => AddrMode::Relative,
        0x0Au8 | 0x2Au8 | 0x4Au8 | 0x6Au8 => AddrMode::Accumulator,
        0x00u8 | 0x08u8 | 0x18u8 | 0x28u8 | 0x38u8 | 0x40u8 | 0x48u8 | 0x58u8 | 0x60u8 | 0x68u8 | 0x78u8 | 0x88u8 | 0x8Au8 | 0x98u8 | 0x9Au8 | 0xA8u8 | 0xAAu8 | 0xB8u8 | 0xBAu8 | 0xC8u8 | 0xCAu8 | 0xD8u8 | 0xE8u8 | 0xEAu8 | 0xF8u8 => AddrMode::Implied,
        _ => AddrMode::Implied,
    }
}

/// How many operand bytes follow an opcode of the given mode.
pub open spec fn spec_operand_count(mode: AddrMode) -> int {
    match mode {
        AddrMode::Implied => 0,
        AddrMode::Accumulator => 0,
        AddrMode::Absolute => 2,
        AddrMode::AbsoluteX => 2,
        AddrMode::AbsoluteY => 2,
        AddrMode::Indirect => 2,
        _ => 1,
    }
}

/// Looks the opcode byte up in the fixed table.
pub fn opcode_info(op: u8) -> (r: (Mnemonic, AddrMode))
    ensures
        r.0 == spec_mnemonic(op),
        r.1 == spec_mode(op),
{
    let m = match op {
        0x61u8 | 0x65u8 | 0x69u8 | 0x6Du8 | 0x71u8 | 0x75u8 | 0x79u8 | 0x7Du8 => Mnemonic::Adc,
        0x21u8 | 0x25u8 | 0x29u8 | 0x2Du8 | 0x31u8 | 0x35u8 | 0x39u8 | 0x3Du8 => Mnemonic::And,
        0x06u8 | 0x0Au8 | 0x0Eu8 | 0x16u8 | 0x1Eu8 => Mnemonic::Asl,
        0x90u8 => Mnemonic::Bcc,
        0xB0u8 => Mnemonic::Bcs,
        0xF0u8 => Mnemonic::Beq,
        0x24u8 | 0x2Cu8 => Mnemonic::Bit,
        0x30u8 => Mnemonic::Bmi,
        0xD0u8 => Mnemonic::Bne,
        0x10u8 => Mnemonic::Bpl,
        0x00u8 => Mnemonic::Brk,
        0x50u8 => Mnemonic::Bvc,
        0x70u8 => Mnemonic::Bvs,
        0x18u8 => Mnemonic::Clc,
        0xD8u8 => Mnemonic::Cld,
        0x58u8 => Mnemonic::Cli,
        0xB8u8 => Mnemonic::Clv,
        0xC1u8 | 0xC5u8 | 0xC9u8 | 0xCDu8 | 0xD1u8 | 0xD5u8 | 0xD9u8 | 0xDDu8 => Mnemonic::Cmp,
        0xE0u8 | 0xE4u8 | 0xECu8 => Mnemonic::Cpx,
        0xC0u8 | 0xC4u8 | 0xCCu8 => Mnemonic::Cpy,
        0xC6u8 | 0xCEu8 | 0xD6u8 | 0xDEu8 => Mnemonic::Dec,
        0xCAu8 => Mnemonic::Dex,
        0x88u8 => Mnemonic::Dey,
        0x41u8 | 0x45u8 | 0x49u8 | 0x4Du8 | 0x51u8 | 0x55u8 | 0x59u8 | 0x5Du8 => Mnemonic::Eor,
        0xE6u8 | 0xEEu8 | 0xF6u8 | 0xFEu8 => Mnemonic::Inc,
        0xE8u8 => Mnemonic::Inx,
        0xC8u8 => Mnemonic::Iny,
        0x4Cu8 | 0x6Cu8 => Mnemonic::Jmp,
        0x20u8 => Mnemonic::Jsr,
        0xA1u8 | 0xA5u8 | 0xA9u8 | 0xADu8 | 0xB1u8 | 0xB5u8 | 0xB9u8 | 0xBDu8 => Mnemonic::Lda,
        0xA2u8 | 0xA6u8 | 0xAEu8 | 0xB6u8 | 0xBEu8 => Mnemonic::Ldx,
        0xA0u8 | 0xA4u8 | 0xACu8 | 0xB4u8 | 0xBCu8 => Mnemonic::Ldy,
        0x46u8 | 0x4Au8 | 0x4Eu8 | 0x56u8 | 0x5Eu8 => Mnemonic::Lsr,
        0xEAu8 => Mnemonic::Nop,
        0x01u8 | 0x05u8 | 0x09u8 | 0x0Du8 | 0x11u8 | 0x15u8 | 0x19u8 | 0x1Du8 => Mnemonic::Ora,
        0x48u8 => Mnemonic::Pha,
        0x08u8 => Mnemonic::Php,
        0x68u8 => Mnemonic::Pla,
        0x28u8 => Mnemonic::Plp,
        0x26u8 | 0x2Au8 | 0x2Eu8 | 0x36u8 | 0x3Eu8 => Mnemonic::Rol,
        0x66u8 | 0x6Au8 | 0x6Eu8 | 0x76u8 | 0x7Eu8 => Mnemonic::Ror,
        0x40u8 => Mnemonic::Rti,
        0x60u8 => Mnemonic::Rts,
        0xE1u8 | 0xE5u8 | 0xE9u8 | 0xEDu8 | 0xF1u8 | 0xF5u8 | 0xF9u8 | 0xFDu8 => Mnemonic::Sbc,
        0x38u8 => Mnemonic::Sec,
        0xF8u8 => Mnemonic::Sed,
        0x78u8 => Mnemonic::Sei,
        0x81u8 | 0x85u8 | 0x8Du8 | 0x91u8 | 0x95u8 | 0x99u8 | 0x9Du8 => Mnemonic::Sta,
        0x86u8 | 0x8Eu8 | 0x96u8 => Mnemonic::Stx,
        0x84u8 | 0x8Cu8 | 0x94u8 => Mnemonic::Sty,
        0xAAu8 => Mnemonic::Tax,
        0xA8u8 => Mnemonic::Tay,
        0xBAu8 => Mnemonic::Tsx,
        0x8Au8 => Mnemonic::Txa,
        0x9Au8 => Mnemonic::Txs,
        0x98u8 => Mnemonic::Tya,
        _ => Mnemonic::Ill,
    };
    let a = match op {
        0x09u8 | 0x29u8 | 0x49u8 | 0x69u8 | 0xA0u8 | 0xA2u8 | 0xA9u8 | 0xC0u8 | 0xC9u8 | 0xE0u8 | 0xE9u8 => AddrMode::Immediate,
        0x05u8 | 0x06u8 | 0x24u8 | 0x25u8 | 0x26u8 | 0x45u8 | 0x46u8 | 0x65u8 | 0x66u8 | 0x84u8 | 0x85u8 | 0x86u8 | 0xA4u8 | 0xA5u8 | 0xA6u8 | 0xC4u8 | 0xC5u8 | 0xC6u8 | 0xE4u8 | 0xE5u8 | 0xE6u8 => AddrMode::ZeroPage,
        0x15u8 | 0x16u8 | 0x35u8 | 0x36u8 | 0x55u8 | 0x56u8 | 0x75u8 | 0x76u8 | 0x94u8 | 0x95u8 | 0xB4u8 | 0xB5u8 | 0xD5u8 | 0xD6u8 | 0xF5u8 | 0xF6u8 => AddrMode::ZeroPageX,
        0x96u8 | 0xB6u8 => AddrMode::ZeroPageY,
        0x0Du8 | 0x0Eu8 | 0x20u8 | 0x2Cu8 | 0x2Du8 | 0x2Eu8 | 0x4Cu8 | 0x4Du8 | 0x4Eu8 | 0x6Du8 | 0x6Eu8 | 0x8Cu8 | 0x8Du8 | 0x8Eu8 | 0xACu8 | 0xADu8 | 0xAEu8 | 0xCCu8 | 0xCDu8 | 0xCEu8 | 0xECu8 | 0xEDu8 | 0xEEu8 => AddrMode::Absolute,
        0x1Du8 | 0x1Eu8 | 0x3Du8 | 0x3Eu8 | 0x5Du8 | 0x5Eu8 | 0x7Du8 | 0x7Eu8 | 0x9Du8 | 0xBCu8 | 0xBDu8 | 0xDDu8 | 0xDEu8 | 0xFDu8 | 0xFEu8 => AddrMode::AbsoluteX,
        0x19u8 | 0x39u8 | 0x59u8 | 0x79u8 | 0x99u8 | 0xB9u8 | 0xBEu8 | 0xD9u8 | 0xF9u8 => AddrMode::AbsoluteY,
        0x6Cu8 => AddrMode::Indirect,
        0x01u8 | 0x21u8 | 0x41u8 | 0x61u8 | 0x81u8 | 0xA1u8 | 0xC1u8 | 0xE1u8 => AddrMode::IndexedIndirect,
        0x11u8 | 0x31u8 | 0x51u8 | 0x71u8 | 0x91u8 | 0xB1u8 | 0xD1u8 | 0xF1u8 => AddrMode::IndirectIndexed,
        0x10u8 | 0x30u8 | 0x50u8 | 0x70u8 | 0x90u8 | 0xB0u8 | 0xD0u8 | 0xF0u8 => AddrMode::Relative,
        0x0Au8 | 0x2Au8 | 0x4Au8 | 0x6Au8 => AddrMode::Accumulator,
        0x00u8 | 0x08u8 | 0x18u8 | 0x28u8 | 0x38u8 | 0x40u8 | 0x48u8 | 0x58u8 | 0x60u8 | 0x68u8 | 0x78u8 | 0x88u8 | 0x8Au8 | 0x98u8 | 0x9Au8 | 0xA8u8 | 0xAAu8 | 0xB8u8 | 0xBAu8 | 0xC8u8 | 0xCAu8 | 0xD8u8 | 0xE8u8 | 0xEAu8 | 0xF8u8 => AddrMode::Implied,
        _ => AddrMode::Implied,
    };
    (m, a)
}

/// How many operand bytes the mode consumes: 0, 1 or 2.
pub fn operand_count(mode: AddrMode) -> (n: usize)
    ensures
        n == spec_operand_count(mode),
{
    match mode {
        AddrMode::Implied => 0,
        AddrMode::Accumulator => 0,
        AddrMode::Absolute => 2,
        AddrMode::AbsoluteX => 2,
        AddrMode::AbsoluteY => 2,
        AddrMode::Indirect => 2,
        _ => 1,
    }
}

/// One decoded opcode occurrence. A relative operand stays the raw signed
/// byte offset; resolving it against the instruction's end is a display-time
/// convenience, not a stored field.
#[derive(Debug)]
pub struct Instruction {
    /// The operation, or the illegal marker.
    pub mnemonic: Mnemonic,
    /// How the operand bytes are to be read.
    pub mode: AddrMode,
    /// The operand bytes in stream order; 0 to 2 of them.
    pub operand: Vec<u8>,
    /// Where the opcode byte sits in the stream.
    pub byte_offset: usize,
    /// How far this instruction advances the cursor: 1 plus the operand count.
    pub encoded_length: usize,
}

impl Instruction {
    /// The instruction is exactly what the stream `prg` encodes at its
    /// offset: table entries, length, and the operand bytes copied verbatim.
    pub open spec fn decodes(&self, prg: Seq<u8>) -> bool {
        &&& self.byte_offset + self.encoded_length <= prg.len()
        &&& self.mnemonic == spec_mnemonic(prg[self.byte_offset as int])
        &&& self.mode == spec_mode(prg[self.byte_offset as int])
        &&& self.encoded_length == 1 + spec_operand_count(self.mode)
        &&& self.operand@ == prg.subrange(
            self.byte_offset + 1,
            self.byte_offset + self.encoded_length,
        )
    }
}

/// Decodes the one instruction starting at `offset`. Succeeds exactly when
/// the operand bytes its addressing mode asks for still lie inside the
/// stream; fails with `TruncatedInstruction` otherwise, reading nothing past
/// the end.
pub fn decode_instruction(prg: &[u8], offset: usize) -> (r: Result<Instruction, EngineError>)
    requires
        offset < prg@.len(),
    ensures
        r is Ok <==> offset + 1 + spec_operand_count(spec_mode(prg@[offset as int])) <= prg@.len(),
        r matches Ok(ins) ==> ins.decodes(prg@) && ins.byte_offset == offset,
        r matches Err(e) ==> e == EngineError::TruncatedInstruction,
{
    let op = prg[offset];
    let (mnemonic, mode) = opcode_info(op);
    let count = operand_count(mode);
    if prg.len() - offset - 1 < count {
        return Err(EngineError::TruncatedInstruction);
    }
    let operand_slice = slice_subrange(prg, offset + 1, offset + 1 + count);
    let mut operand: Vec<u8> = Vec::new();
    let mut k: usize = 0;
    while k < count
        invariant
            count == operand_slice@.len(),
            k <= count,
            operand@.len() == k,
            forall|j: int| 0 <= j < k ==> operand@[j] == operand_slice@[j],
        decreases count - k,
    {
        operand.push(operand_slice[k]);
        k = k + 1;
    }
    proof {
        assert(operand@ =~= prg@.subrange(offset + 1, offset + 1 + count));
    }
    Ok(
        Instruction {
            mnemonic,
            mode,
            operand,
            byte_offset: offset,
            encoded_length: 1 + count,
        },
    )
}

/// The instructions form one straight-line listing: each decodes from the
/// stream, the first starts at `start`, and each next one starts where the
/// previous ended, so instructions never overlap.
pub open spec fn listing_ok(prg: Seq<u8>, start: int, list: Seq<Instruction>) -> bool {
    &&& forall|i: int| 0 <= i < list.len() ==> (#[trigger] list[i]).decodes(prg)
    &&& list.len() > 0 ==> list[0].byte_offset == start
    &&& forall|i: int|
        0 <= i < list.len() - 1 ==> (#[trigger] list[i + 1]).byte_offset == list[i].byte_offset
            + list[i].encoded_length
}

/// Where the listing's cursor stands after its last instruction.
pub open spec fn listing_end(start: int, list: Seq<Instruction>) -> int {
    if list.len() == 0 {
        start
    } else {
        list[list.len() - 1].byte_offset + list[list.len() - 1].encoded_length
    }
}

/// Disassembles the stream from `start` in strictly increasing offset order
/// until it is exhausted. On a truncated final instruction the listing stops
/// cleanly at the last fully decoded one and `TruncatedInstruction` is
/// reported beside it; otherwise the listing tiles the stream to its end.
pub fn disassemble(prg: &[u8], start: usize) -> (r: (Vec<Instruction>, Option<EngineError>))
    requires
        start <= prg@.len(),
    ensures
        listing_ok(prg@, start as int, r.0@),
        r.1 is None ==> listing_end(start as int, r.0@) == prg@.len(),
        r.1 matches Some(e) ==> {
            let end = listing_end(start as int, r.0@);
            &&& e == EngineError::TruncatedInstruction
            &&& end < prg@.len()
            &&& end + 1 + spec_operand_count(spec_mode(prg@[end])) > prg@.len()
        },
{
    let mut list: Vec<Instruction> = Vec::new();
    let mut off: usize = start;
    while off < prg.len()
        invariant
            start <= off <= prg@.len(),
            listing_ok(prg@, start as int, list@),
            listing_end(start as int, list@) == off,
        decreases prg@.len() - off,
    {
        match decode_instruction(prg, off) {
            Ok(ins) => {
                let step = ins.encoded_length;
                list.push(ins);
                off = off + step;
            },
            Err(e) => {
                return (list, Some(e));
            },
        }
    }
    (list, None)
}

} // verus!
