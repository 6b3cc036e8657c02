use nes_tools::chr::{decode_chr, decode_tile};
use nes_tools::disasm::{decode_instruction, disassemble, AddrMode, Mnemonic};
use nes_tools::engine::{Artifact, Engine};
use nes_tools::errors::EngineError;
use nes_tools::header::parse_header;

/// A minimal well-formed image: header, `prg` 16 KiB banks, `chr` 8 KiB banks.
fn make_rom(prg: u8, chr: u8, flags6: u8, flags7: u8) -> Vec<u8> {
    let trainer = if flags6 & 0x04 != 0 { 512 } else { 0 };
    let len = 16 + trainer + prg as usize * 16384 + chr as usize * 8192;
    let mut rom = vec![0u8; len];
    rom[0] = 0x4E;
    rom[1] = 0x45;
    rom[2] = 0x53;
    rom[3] = 0x1A;
    rom[4] = prg;
    rom[5] = chr;
    rom[6] = flags6;
    rom[7] = flags7;
    rom
}

#[test]
fn header_rejects_bad_signature() {
    let mut rom = make_rom(1, 1, 0, 0);
    rom[0] = 0x4D;
    assert_eq!(parse_header(&rom), Err(EngineError::InvalidHeader));
}

#[test]
fn header_rejects_short_buffer() {
    assert_eq!(parse_header(&[0x4E, 0x45, 0x53, 0x1A]), Err(EngineError::InvalidHeader));
}

#[test]
fn header_rejects_regions_past_the_end() {
    let mut rom = make_rom(1, 1, 0, 0);
    rom[4] = 2;
    assert_eq!(parse_header(&rom), Err(EngineError::InvalidHeader));
}

#[test]
fn header_reads_regions() {
    let rom = make_rom(2, 1, 0, 0);
    let img = parse_header(&rom).unwrap();
    assert_eq!(img.prg_banks, 2);
    assert_eq!(img.chr_banks, 1);
    assert!(!img.has_trainer);
    assert_eq!(img.mapper_id, 0);
    assert_eq!(img.prg_offset, 16);
    assert_eq!(img.prg_len, 32768);
    assert_eq!(img.chr_offset, 16 + 32768);
    assert_eq!(img.chr_len, 8192);
}

#[test]
fn header_accounts_for_trainer_and_mapper() {
    let rom = make_rom(1, 0, 0x14, 0x20);
    let img = parse_header(&rom).unwrap();
    assert!(img.has_trainer);
    assert_eq!(img.prg_offset, 16 + 512);
    assert_eq!(img.mapper_id, 0x21);
}

#[test]
fn chr_zero_block_is_all_zero_pixels() {
    let block = [0u8; 16];
    let t = decode_tile(&block);
    assert_eq!(t.pixels, vec![0u8; 64]);
}

#[test]
fn chr_plane0_row_gives_index_one() {
    let mut block = [0u8; 16];
    block[0] = 0xFF;
    let t = decode_tile(&block);
    for col in 0..8 {
        assert_eq!(t.pixel(0, col), 1);
    }
    for col in 0..8 {
        assert_eq!(t.pixel(1, col), 0);
    }
}

#[test]
fn chr_planes_combine_into_two_bit_indices() {
    let mut block = [0u8; 16];
    block[2] = 0b1010_0001;
    block[10] = 0b1100_0001;
    let t = decode_tile(&block);
    assert_eq!(t.pixel(2, 0), 3);
    assert_eq!(t.pixel(2, 1), 2);
    assert_eq!(t.pixel(2, 2), 1);
    assert_eq!(t.pixel(2, 3), 0);
    assert_eq!(t.pixel(2, 7), 3);
}

#[test]
fn chr_region_decodes_tile_by_tile() {
    let mut region = vec![0u8; 32];
    region[16] = 0xFF;
    let ts = decode_chr(&region).unwrap();
    assert_eq!(ts.len(), 2);
    assert_eq!(ts[0].pixel(0, 0), 0);
    assert_eq!(ts[1].pixel(0, 0), 1);
}

#[test]
fn chr_rejects_partial_block() {
    assert!(decode_chr(&[0u8; 15]).is_err());
    assert_eq!(decode_chr(&[0u8; 17]).unwrap_err(), EngineError::TruncatedChrData);
}

#[test]
fn disassemble_single_nop() {
    let (list, err) = disassemble(&[0xEA], 0);
    assert!(err.is_none());
    assert_eq!(list.len(), 1);
    assert_eq!(list[0].mnemonic, Mnemonic::Nop);
    assert_eq!(list[0].mode, AddrMode::Implied);
    assert_eq!(list[0].encoded_length, 1);
    assert_eq!(list[0].byte_offset, 0);
    assert!(list[0].operand.is_empty());
}

#[test]
fn disassemble_lda_immediate() {
    let (list, err) = disassemble(&[0xA9, 0x05], 0);
    assert!(err.is_none());
    assert_eq!(list.len(), 1);
    assert_eq!(list[0].mnemonic, Mnemonic::Lda);
    assert_eq!(list[0].mode, AddrMode::Immediate);
    assert_eq!(list[0].encoded_length, 2);
    assert_eq!(list[0].operand, vec![0x05]);
}

#[test]
fn truncated_lda_fails() {
    assert!(matches!(decode_instruction(&[0xA9], 0), Err(EngineError::TruncatedInstruction)));
    let (list, err) = disassemble(&[0xA9], 0);
    assert!(list.is_empty());
    assert_eq!(err, Some(EngineError::TruncatedInstruction));
}

#[test]
fn truncated_tail_keeps_the_listing_so_far() {
    let (list, err) = disassemble(&[0xEA, 0x4C, 0x00], 0);
    assert_eq!(list.len(), 1);
    assert_eq!(list[0].mnemonic, Mnemonic::Nop);
    assert_eq!(err, Some(EngineError::TruncatedInstruction));
}

#[test]
fn disassemble_walks_offsets_in_order() {
    let prg = [0x78, 0xA2, 0xFF, 0x9A, 0x8D, 0x00, 0x20];
    let (list, err) = disassemble(&prg, 0);
    assert!(err.is_none());
    let mnemonics: Vec<Mnemonic> = list.iter().map(|i| i.mnemonic).collect();
    assert_eq!(mnemonics, vec![Mnemonic::Sei, Mnemonic::Ldx, Mnemonic::Txs, Mnemonic::Sta]);
    let offsets: Vec<usize> = list.iter().map(|i| i.byte_offset).collect();
    assert_eq!(offsets, vec![0, 1, 3, 4]);
    assert_eq!(list[3].mode, AddrMode::Absolute);
    assert_eq!(list[3].operand, vec![0x00, 0x20]);
}

#[test]
fn illegal_byte_is_reported_not_skipped() {
    let (list, err) = disassemble(&[0x02, 0xEA], 0);
    assert!(err.is_none());
    assert_eq!(list.len(), 2);
    assert_eq!(list[0].mnemonic, Mnemonic::Ill);
    assert_eq!(list[0].encoded_length, 1);
    assert_eq!(list[1].mnemonic, Mnemonic::Nop);
}

#[test]
fn relative_operand_stays_a_raw_byte() {
    let (list, err) = disassemble(&[0xD0, 0xFE], 0);
    assert!(err.is_none());
    assert_eq!(list[0].mnemonic, Mnemonic::Bne);
    assert_eq!(list[0].mode, AddrMode::Relative);
    assert_eq!(list[0].operand, vec![0xFE]);
}

#[test]
fn engine_chr_extract_counts_tiles() {
    let rom = make_rom(1, 1, 0, 0);
    let engine = Engine::ChrExtract { rom };
    match engine.execute().unwrap() {
        Artifact::Tiles(ts) => assert_eq!(ts.len(), 512),
        _ => panic!("expected tiles"),
    }
}

#[test]
fn engine_rejects_bad_header() {
    let engine = Engine::ChrExtract { rom: vec![0u8; 64] };
    assert_eq!(engine.execute().unwrap_err(), EngineError::InvalidHeader);
    let engine = Engine::Disassemble { rom: vec![0u8; 64] };
    assert_eq!(engine.execute().unwrap_err(), EngineError::InvalidHeader);
}

#[test]
fn engine_disassembles_whole_prg_region() {
    let mut rom = make_rom(1, 0, 0, 0);
    for b in rom[16..].iter_mut() {
        *b = 0xEA;
    }
    let engine = Engine::Disassemble { rom };
    match engine.execute().unwrap() {
        Artifact::Listing { instructions, truncated } => {
            assert!(truncated.is_none());
            assert_eq!(instructions.len(), 16384);
            assert!(instructions.iter().all(|i| i.mnemonic == Mnemonic::Nop));
        },
        _ => panic!("expected a listing"),
    }
}

#[test]
fn engine_decodes_game_genie_code() {
    let engine = Engine::GameGenie { code: b"SXIOPO".to_vec() };
    match engine.execute().unwrap() {
        Artifact::Patch(c) => {
            assert_eq!(c.address, 0x91D9);
            assert_eq!(c.value, 0xAD);
            assert_eq!(c.compare, None);
        },
        _ => panic!("expected a patch"),
    }
}

#[test]
fn engine_reports_code_errors() {
    let engine = Engine::GameGenie { code: b"QQQQQQ".to_vec() };
    assert_eq!(engine.execute().unwrap_err(), EngineError::InvalidCharacter);
}

#[test]
fn engine_prng_reaches_requested_iteration() {
    let engine = Engine::Prng { seed: 0xBEEF, it: Some(5) };
    let mut p = nes_tools::prng::NesPrng::new(0xBEEF, None);
    let mut last = 0;
    for _ in 0..5 {
        last = p.step();
    }
    match engine.execute().unwrap() {
        Artifact::PrngValue(v) => assert_eq!(v, last),
        _ => panic!("expected a register value"),
    }
}
