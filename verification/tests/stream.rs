use nova_taus88::emit::{put_word, word_to_le_bytes};
use nova_taus88::model::Registers;
use nova_taus88::{scalar, simd};

const SEEDS: [[u8; 12]; 6] = [
    [0; 12],
    [0xff; 12],
    [7; 12],
    [123, 0, 0, 0, 45, 1, 0, 0, 89, 2, 0, 0],
    [1, 2, 3, 4, 5, 6, 7, 8, 9, 10, 11, 12],
    [0, 0, 0, 0x80, 8, 0, 0, 0, 0xef, 0xbe, 0xad, 0xde],
];

fn expected_stream(seed: [u8; 12], len: usize) -> Vec<u8> {
    let mut rng = scalar::Taus88::from_seed(seed);
    let mut bytes = Vec::new();
    for _ in 0..(len + 3) / 4 {
        bytes.extend_from_slice(&rng.next_u32().to_le_bytes());
    }
    bytes.truncate(len);
    bytes
}

#[test]
fn transitions_from_the_minimal_state() {
    let mut rng = scalar::Taus88::new(2, 8, 16).unwrap();
    assert_eq!(rng.next_u32(), 2105472);
    assert_eq!(rng.registers(), Registers { z1: 8192, z2: 128, z3: 2097152 });
    assert_eq!(rng.next_u32(), 33565824);
    assert_eq!(rng.registers(), Registers { z1: 33554560, z2: 2048, z3: 9216 });
    assert_eq!(rng.next_u32(), 1208516706);
    assert_eq!(rng.registers(), Registers { z1: 524354, z2: 32768, z3: 1207959584 });
}

#[test]
fn word_is_the_xor_of_the_registers_after_the_transition() {
    for seed in SEEDS {
        let mut rng = scalar::Taus88::from_seed(seed);
        for _ in 0..64 {
            let w = rng.next_u32();
            let regs = rng.registers();
            assert_eq!(w, regs.z1 ^ regs.z2 ^ regs.z3);
        }
    }
}

#[test]
fn same_seed_gives_the_same_words() {
    for seed in SEEDS {
        let mut a = scalar::Taus88::from_seed(seed);
        let mut b = scalar::Taus88::from_seed(seed);
        for _ in 0..256 {
            assert_eq!(a.next_u32(), b.next_u32());
        }
        assert_eq!(a.registers(), b.registers());
    }
}

#[test]
fn registers_stay_at_or_above_their_minimums() {
    for seed in SEEDS {
        let mut rng = scalar::Taus88::from_seed(seed);
        for _ in 0..4096 {
            rng.next_u32();
            let regs = rng.registers();
            assert!(regs.z1 >= 2 && regs.z2 >= 8 && regs.z3 >= 16);
        }
    }
}

#[test]
fn next_u64_known_values() {
    let mut rng = scalar::Taus88::from_seed([123, 0, 0, 0, 45, 1, 0, 0, 89, 2, 0, 0]);
    assert_eq!(rng.next_u64(), 335432975019999872);
    assert_eq!(rng.next_u64(), (1778027400u64 << 32) | 2294194181);
    let mut rng = simd::Taus88::from_seed([7; 12]);
    assert_eq!(rng.next_u64(), 1011035124563118142);
    assert_eq!(rng.next_u32(), 45737076);
}

#[test]
fn next_u64_is_two_words_high_then_low() {
    for seed in SEEDS {
        let mut wide = scalar::Taus88::from_seed(seed);
        let mut narrow = scalar::Taus88::from_seed(seed);
        for _ in 0..32 {
            let v = wide.next_u64();
            let hi = narrow.next_u32();
            let lo = narrow.next_u32();
            assert_eq!((v >> 32) as u32, hi);
            assert_eq!(v as u32, lo);
            assert_eq!(wide.registers(), narrow.registers());
        }
    }
}

#[test]
fn fill_bytes_known_values() {
    let mut rng = scalar::Taus88::from_seed([123, 0, 0, 0, 45, 1, 0, 0, 89, 2, 0, 0]);
    let mut bytes = [0u8; 10];
    rng.fill_bytes(&mut bytes);
    assert_eq!(bytes, [131, 178, 167, 4, 128, 2, 5, 122, 136, 139]);

    let mut rng = scalar::Taus88::from_seed([1, 2, 3, 4, 5, 6, 7, 8, 9, 10, 11, 12]);
    let mut bytes = [0u8; 16];
    rng.fill_bytes(&mut bytes);
    assert_eq!(bytes, [247, 230, 93, 164, 77, 11, 24, 19, 81, 58, 117, 224, 217, 36, 154, 168]);

    let mut rng = simd::Taus88::new(2, 8, 16).unwrap();
    let mut bytes = [0xaau8; 5];
    rng.fill_bytes(&mut bytes);
    assert_eq!(bytes, [128, 32, 32, 0, 128]);
}

#[test]
fn fill_bytes_is_the_little_endian_word_stream_cut_to_length() {
    for seed in SEEDS {
        for len in 0..=37usize {
            let mut bytes = vec![0x5au8; len];
            scalar::Taus88::from_seed(seed).fill_bytes(&mut bytes);
            assert_eq!(bytes, expected_stream(seed, len));

            let mut bytes = vec![0xa5u8; len];
            simd::Taus88::from_seed(seed).fill_bytes(&mut bytes);
            assert_eq!(bytes, expected_stream(seed, len));
        }
    }
}

#[test]
fn fill_bytes_advances_one_transition_per_word_drawn() {
    for seed in SEEDS {
        for len in 0..=21usize {
            let mut filled = scalar::Taus88::from_seed(seed);
            let mut bytes = vec![0u8; len];
            filled.fill_bytes(&mut bytes);

            let mut stepped = scalar::Taus88::from_seed(seed);
            for _ in 0..(len + 3) / 4 {
                stepped.next_u32();
            }
            assert_eq!(filled.registers(), stepped.registers());
        }
    }
}

#[test]
fn fill_bytes_on_an_empty_buffer_does_nothing() {
    let mut rng = scalar::Taus88::from_seed([7; 12]);
    let before = rng.registers();
    let mut bytes: [u8; 0] = [];
    rng.fill_bytes(&mut bytes);
    assert_eq!(rng.registers(), before);

    let mut rng = simd::Taus88::from_seed([7; 12]);
    rng.fill_bytes(&mut bytes);
    assert_eq!(rng.registers(), before);
    assert_eq!(rng.lanes()[3], 0);
}

#[test]
fn fill_bytes_drops_the_rest_of_a_partly_used_word() {
    let seed = [123, 0, 0, 0, 45, 1, 0, 0, 89, 2, 0, 0];
    let mut rng = scalar::Taus88::from_seed(seed);
    let mut bytes = [0u8; 5];
    rng.fill_bytes(&mut bytes);
    assert_eq!(bytes, [131, 178, 167, 4, 128]);
    // The second word gave one byte; the next draw is the third word.
    assert_eq!(rng.next_u32(), 1778027400);

    let mut rng = scalar::Taus88::from_seed(seed);
    let mut first = [0u8; 3];
    let mut second = [0u8; 3];
    rng.fill_bytes(&mut first);
    rng.fill_bytes(&mut second);
    assert_eq!(first, [131, 178, 167]);
    assert_eq!(second, [128, 2, 5]);
}

#[test]
fn sixteen_byte_samples_are_never_all_zero() {
    for seed in SEEDS {
        let mut rng = scalar::Taus88::from_seed(seed);
        for _ in 0..512 {
            let mut sample = [0u8; 16];
            rng.fill_bytes(&mut sample);
            assert!(sample.iter().any(|&b| b != 0));
        }
    }
    let mut sample = [0u8; 16];
    scalar::Taus88::new(2, 8, 16).unwrap().fill_bytes(&mut sample);
    assert_eq!(sample, [128, 32, 32, 0, 128, 44, 0, 2, 98, 128, 8, 72, 0, 32, 77, 128]);
}

#[test]
fn twelve_byte_samples_are_never_all_zero() {
    for z1 in 2..40u32 {
        for z2 in 8..24u32 {
            for z3 in 16..32u32 {
                let mut sample = [0u8; 12];
                scalar::Taus88::new(z1, z2, z3).unwrap().fill_bytes(&mut sample);
                assert!(sample.iter().any(|&b| b != 0));
            }
        }
    }
}

#[test]
fn word_to_le_bytes_puts_the_low_byte_first() {
    assert_eq!(word_to_le_bytes(0x1234_5678), [0x78, 0x56, 0x34, 0x12]);
    assert_eq!(word_to_le_bytes(0), [0, 0, 0, 0]);
    assert_eq!(word_to_le_bytes(u32::MAX), [0xff; 4]);
    assert_eq!(word_to_le_bytes(0x8000_0001), [1, 0, 0, 0x80]);
    assert_eq!(word_to_le_bytes(78099075), 78099075u32.to_le_bytes());
}

#[test]
fn put_word_writes_four_bytes_where_there_is_room() {
    let mut buf = [9u8; 8];
    put_word(&mut buf, 2, 0x1234_5678);
    assert_eq!(buf, [9, 9, 0x78, 0x56, 0x34, 0x12, 9, 9]);
    put_word(&mut buf, 4, 0xa1b2_c3d4);
    assert_eq!(buf, [9, 9, 0x78, 0x56, 0xd4, 0xc3, 0xb2, 0xa1]);
}

#[test]
fn put_word_writes_the_low_bytes_where_room_is_short() {
    let mut buf = [9u8; 6];
    put_word(&mut buf, 3, 0x1234_5678);
    assert_eq!(buf, [9, 9, 9, 0x78, 0x56, 0x34]);
    put_word(&mut buf, 5, 0xa1b2_c3d4);
    assert_eq!(buf, [9, 9, 9, 0x78, 0x56, 0xd4]);
    put_word(&mut buf, 6, 0xffff_ffff);
    assert_eq!(buf, [9, 9, 9, 0x78, 0x56, 0xd4]);
    put_word(&mut buf, 7, 0xffff_ffff);
    put_word(&mut buf, usize::MAX, 0xffff_ffff);
    assert_eq!(buf, [9, 9, 9, 0x78, 0x56, 0xd4]);
    let mut empty: [u8; 0] = [];
    put_word(&mut empty, 0, 0xffff_ffff);
    assert_eq!(empty, []);
}
