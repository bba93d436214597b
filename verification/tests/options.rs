use life_gl::options::{frame_delay_ms, seed_bytes, seeded_rng, DEFAULT_CELL_SIZE};
use life_gl::rules::GameParams;
use rand::RngCore;

#[test]
fn zero_delay_means_no_pause() {
    assert_eq!(frame_delay_ms(Some(0)), None);
    assert_eq!(frame_delay_ms(Some(16)), Some(16));
    assert_eq!(frame_delay_ms(None), None);
}

#[test]
fn seed_bytes_shift_by_bits() {
    let buf = seed_bytes(0x0102);
    assert_eq!(&buf[..8], &[2, 129, 64, 32, 16, 8, 4, 2]);
    assert!(buf[8..].iter().all(|b| *b == 0));
    let buf = seed_bytes(0xDEAD_BEEF_1234_5678);
    assert_eq!(&buf[..8], &[0x78, 0x3c, 0x9e, 0xcf, 0x67, 0xb3, 0x59, 0xac]);
    assert_eq!(seed_bytes(0), [0u8; 32]);
}

#[test]
fn same_seed_same_numbers() {
    let mut a = seeded_rng(42);
    let mut b = seeded_rng(42);
    for _ in 0..16 {
        assert_eq!(a.next_u64(), b.next_u64());
    }
}

#[test]
fn only_the_low_bits_of_a_seed_count() {
    let mut a = seeded_rng(0x1234);
    let mut b = seeded_rng(0x1234 | (1 << 40));
    assert_eq!(a.next_u64(), b.next_u64());
    let mut c = seeded_rng(0x1235);
    let mut d = seeded_rng(0x1234);
    assert_ne!(c.next_u64(), d.next_u64());
}

#[test]
fn defaults() {
    assert_eq!(DEFAULT_CELL_SIZE, 1);
    let p = GameParams::default();
    assert_eq!(
        p,
        GameParams { survive_min: 2, survive_max: 3, resurrect_min: 3, resurrect_max: 3 }
    );
}
