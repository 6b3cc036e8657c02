use nes_tools::errors::EngineError;
use nes_tools::game_genie::{decode, encode, GgCode};
use nes_tools::prng::NesPrng;

#[test]
fn decode_known_six_letter_code() {
    let c = decode("SXIOPO".as_bytes()).unwrap();
    assert_eq!(c.address, 0x91D9);
    assert_eq!(c.value, 0xAD);
    assert_eq!(c.compare, None);
}

#[test]
fn encode_known_six_letter_code() {
    let c = GgCode { address: 0x91D9, value: 0xAD, compare: None };
    assert_eq!(encode(&c), b"SXIOPO".to_vec());
}

#[test]
fn decode_eight_letter_code_has_compare() {
    let c = decode("APZLGITY".as_bytes()).unwrap();
    assert!(c.compare.is_some());
    assert!(c.address >= 0x8000);
}

#[test]
fn decode_rejects_wrong_length() {
    assert_eq!(decode("APZL".as_bytes()), Err(EngineError::InvalidLength));
    assert_eq!(decode("APZLGIT".as_bytes()), Err(EngineError::InvalidLength));
    assert_eq!(decode("".as_bytes()), Err(EngineError::InvalidLength));
}

#[test]
fn decode_rejects_foreign_character() {
    assert_eq!(decode("ABZLGI".as_bytes()), Err(EngineError::InvalidCharacter));
    assert_eq!(decode("apzlgi".as_bytes()), Err(EngineError::InvalidCharacter));
    assert_eq!(decode("APZLGITQ".as_bytes()), Err(EngineError::InvalidCharacter));
}

#[test]
fn six_letter_round_trip_from_triple() {
    let c = GgCode { address: 0x94A7, value: 0x3E, compare: None };
    let code = encode(&c);
    assert_eq!(code.len(), 6);
    assert_eq!(decode(&code), Ok(c));
}

#[test]
fn eight_letter_round_trip_from_triple() {
    let c = GgCode { address: 0xCFFF, value: 0xA5, compare: Some(0x7C) };
    let code = encode(&c);
    assert_eq!(code.len(), 8);
    assert_eq!(decode(&code), Ok(c));
}

#[test]
fn round_trip_from_code_string() {
    for s in ["SXIOPO", "AAAAAA", "NNANNN", "NNENNNNN", "APEPTOZY"] {
        let c = decode(s.as_bytes()).unwrap();
        assert_eq!(encode(&c), s.as_bytes().to_vec());
    }
}

#[test]
fn prng_set_it_matches_five_steps() {
    let seed = 0xBEEF;
    let mut a = NesPrng::new(seed, None);
    a.set_it(5);
    let mut b = NesPrng::new(seed, None);
    let mut last = 0;
    for _ in 0..5 {
        last = b.step();
    }
    assert_eq!(a.value(), last);
}

#[test]
fn prng_new_with_iteration_matches_set_it() {
    let mut a = NesPrng::new(0x1234, None);
    a.set_it(100);
    let b = NesPrng::new(0x1234, Some(100));
    assert_eq!(a.value(), b.value());
}

#[test]
fn prng_set_it_ignores_call_history() {
    let mut a = NesPrng::new(7, None);
    for _ in 0..11 {
        a.step();
    }
    a.set_it(3);
    let mut b = NesPrng::new(7, None);
    b.set_it(3);
    assert_eq!(a.value(), b.value());
}

#[test]
fn prng_zero_iterations_is_the_seed() {
    let p = NesPrng::new(0xABCD, None);
    assert_eq!(p.value(), 0xABCD);
}

#[test]
fn prng_step_is_the_documented_register_transition() {
    let s: u16 = 0x0001;
    let mut p = NesPrng::new(s, None);
    let expect = (s >> 1) | (((s ^ (s >> 2) ^ (s >> 3) ^ (s >> 5)) & 1) << 15);
    assert_eq!(p.step(), expect);
}
