use lib::codes::{LDPCCode, CODES};
use lib::tables::{TC128_G, TC256_G, TC512_G, TM1280_G, TM1536_G, TM2048_G};

fn crc32(data: &[u32]) -> u32 {
    let mut crc = 0xFFFFFFFFu32;
    for x in data {
        crc ^= *x;
        for _ in 0..32 {
            let mask = if crc & 1 == 0 { 0 } else { 0xFFFFFFFFu32 };
            crc = (crc >> 1) ^ (0xEDB88320 & mask);
        }
    }
    !crc
}

fn expanded(code: &LDPCCode) -> Vec<u32> {
    let mut g = vec![0; code.generator_u32s()];
    code.init_generator(&mut g);
    g
}

#[test]
fn test_generator_matrix() {
    let mut crc_results = Vec::new();
    for code in CODES.iter() {
        let mut g = vec![0; code.generator_u32s()];
        code.init_generator(&mut g);
        crc_results.push(crc32(&g));
    }

    // Known good CRC32 results from the original C implementation
    assert_eq!(crc_results, vec![0xDC64D486, 0xD78B5564, 0x6AF9EC6A,
                                 0x452FE118, 0xBCCBA8D0, 0x1597B6F6]);
}

#[test]
fn params_match_the_tables() {
    let expected: [(usize, usize, usize, usize, usize, u32); 6] = [
        (128, 64, 0, 16, 16, 512),
        (256, 128, 0, 32, 32, 1024),
        (512, 256, 0, 64, 64, 2048),
        (1280, 1024, 128, 128, 32, 4992),
        (1536, 1024, 256, 256, 64, 5888),
        (2048, 1024, 512, 512, 128, 7680),
    ];
    for (code, e) in CODES.iter().zip(expected.iter()) {
        let p = code.params();
        assert_eq!((p.n, p.k, p.punctured_bits, p.submatrix_size, p.circulant_size, p.parity_sum), *e);
    }
}

#[test]
fn params_name_their_code() {
    assert!(matches!(LDPCCode::TC128.params().code, LDPCCode::TC128));
    assert!(matches!(LDPCCode::TC256.params().code, LDPCCode::TC256));
    assert!(matches!(LDPCCode::TC512.params().code, LDPCCode::TC512));
    assert!(matches!(LDPCCode::TM1280.params().code, LDPCCode::TM1280));
    assert!(matches!(LDPCCode::TM1536.params().code, LDPCCode::TM1536));
    assert!(matches!(LDPCCode::TM2048.params().code, LDPCCode::TM2048));
}

#[test]
fn generator_sizes() {
    let u8s: Vec<usize> = CODES.iter().map(|c| c.generator_u8s()).collect();
    let u32s: Vec<usize> = CODES.iter().map(|c| c.generator_u32s()).collect();
    assert_eq!(u8s, vec![512, 2048, 8192, 32768, 65536, 131072]);
    assert_eq!(u32s, vec![128, 512, 2048, 8192, 16384, 32768]);
}

#[test]
fn generator_size_is_rows_times_row_words() {
    for code in CODES.iter() {
        let p = code.params();
        assert_eq!(code.generator_u8s(), 4 * code.generator_u32s());
        assert_eq!(code.generator_u32s(), p.k * (p.n - p.k) / 32);
    }
}

#[test]
fn first_rows_copy_the_compact_generator() {
    // TC128: rows are 2 words; blocks are 16 rows.
    let g = expanded(&LDPCCode::TC128);
    assert_eq!(u32::from_be(g[0]), 0x0E69166B);
    assert_eq!(u32::from_be(g[1]), 0xEF4C0BC2);
    assert_eq!(u32::from_be(g[16 * 2]), 0x7766137E);
    assert_eq!(u32::from_be(g[16 * 2 + 1]), 0xBB248418);
    assert_eq!(u32::from_be(g[48 * 2 + 1]), 0x465EEA11);
    // TM1280: rows are 8 words; blocks are 32 rows.
    let g = expanded(&LDPCCode::TM1280);
    assert_eq!(u32::from_be(g[0]), 0x678ECB51);
    assert_eq!(u32::from_be(g[7]), 0x803432EF);
    assert_eq!(u32::from_be(g[32 * 8]), 0x42B27625);
}

#[test]
fn half_word_circulants_rotate_within_their_half() {
    // TC128 row 1: each 16-bit half of row 0 rotated right by one bit.
    let g = expanded(&LDPCCode::TC128);
    assert_eq!(u32::from_be(g[2]), 0x87348B35);
}

#[test]
fn word_circulants_rotate_right_by_one() {
    // TM1280 (32-bit circulants): row 1 word 0 is row 0 word 0 rotated.
    let g = expanded(&LDPCCode::TM1280);
    assert_eq!(u32::from_be(g[8]), 0xB3C765A8);
    assert_eq!(u32::from_be(g[8]), 0x678ECB51u32.rotate_right(1));
}

#[test]
fn multi_word_circulants_carry_between_words() {
    // TM1536 (64-bit circulants): words 0 and 1 of row 1.
    let g = expanded(&LDPCCode::TM1536);
    assert_eq!(u32::from_be(g[16]), 0x2891B3C0);
    assert_eq!(u32::from_be(g[17]), 0xBC0EA0B5);
}

#[test]
fn every_row_in_a_block_is_the_row_above_rotated() {
    // TM2048: 128-bit circulants of 4 words, rows of 32 words.
    let g = expanded(&LDPCCode::TM2048);
    let w = 32;
    for row in 1..128 {
        for blk in 0..8 {
            let prev: Vec<u32> = (0..4).map(|i| u32::from_be(g[(row - 1) * w + blk * 4 + i])).collect();
            let cur: Vec<u32> = (0..4).map(|i| u32::from_be(g[row * w + blk * 4 + i])).collect();
            let v = ((prev[0] as u128) << 96) | ((prev[1] as u128) << 64) | ((prev[2] as u128) << 32) | prev[3] as u128;
            let r = v.rotate_right(1);
            assert_eq!(cur, vec![(r >> 96) as u32, (r >> 64) as u32, (r >> 32) as u32, r as u32]);
        }
    }
}

#[test]
fn expansion_ignores_previous_contents() {
    for code in CODES.iter() {
        let a = expanded(code);
        let mut b = vec![0xDEADBEEFu32; code.generator_u32s()];
        code.init_generator(&mut b);
        assert_eq!(a, b);
    }
}

#[test]
fn words_are_stored_big_endian() {
    let g = expanded(&LDPCCode::TC128);
    assert_eq!(g[0].to_ne_bytes(), [0x0E, 0x69, 0x16, 0x6B]);
}

#[test]
fn every_block_starts_with_its_compact_row() {
    let tables: [&[u32]; 6] = [&TC128_G, &TC256_G, &TC512_G, &TM1280_G, &TM1536_G, &TM2048_G];
    for (code, gc) in CODES.iter().zip(tables.iter()) {
        let p = code.params();
        let w = (p.n - p.k) / 32;
        let b = p.circulant_size;
        assert_eq!(gc.len(), (p.k / b) * w);
        let g = expanded(code);
        for j in 0..p.k / b {
            for i in 0..w {
                assert_eq!(u32::from_be(g[j * b * w + i]), gc[j * w + i]);
            }
        }
    }
}
