use arcade::rng::{Rng, DEFAULT_SEED};

fn xorshift(mut x: u32) -> u32 {
    x ^= x << 13;
    x ^= x >> 17;
    x ^= x << 5;
    x
}

#[test]
fn zero_seed_is_replaced_by_default() {
    let mut a = Rng::new(0);
    let mut b = Rng::new(DEFAULT_SEED);
    assert_eq!(a.next(), b.next());
    let mut c = Rng::new(0);
    assert_eq!(c.next(), 0x8798_5AA5);
}

#[test]
fn next_follows_xorshift_sequence() {
    let mut r = Rng::new(0x1234_5678);
    assert_eq!(r.next(), 2_274_908_837);
    assert_eq!(r.next(), 358_294_691);
    assert_eq!(r.next(), 1_210_119_364);
    let mut s = Rng::new(1);
    assert_eq!(s.next(), 270_369);
    assert_eq!(s.next(), xorshift(270_369));
}

#[test]
fn same_seed_same_sequence() {
    let mut a = Rng::new(0xDEAD_BEEF);
    let mut b = Rng::new(0xDEAD_BEEF);
    for _ in 0..1000 {
        let x = a.next();
        assert_eq!(x, b.next());
        assert_ne!(x, 0);
    }
}

#[test]
fn range_zero_returns_zero_without_advancing() {
    let mut a = Rng::new(42);
    let mut b = Rng::new(42);
    assert_eq!(a.range(0), 0);
    assert_eq!(a.next(), b.next());
}

#[test]
fn range_is_next_modulo_max() {
    let mut a = Rng::new(0x1234_5678);
    assert_eq!(a.range(27), 23);
    assert_eq!(a.range(10_000), 4691);
    let mut b = Rng::new(7);
    for max in 1..500u32 {
        let v = b.range(max);
        assert!(v < max);
    }
}

#[test]
fn unit_numerator_is_below_ten_thousand() {
    let mut a = Rng::new(0x1234_5678);
    assert_eq!(a.unit_numerator(), 8837);
    assert_eq!(a.unit_numerator(), 4691);
    assert_eq!(a.unit_numerator(), 9364);
    let mut b = Rng::new(99);
    for _ in 0..1000 {
        assert!(b.unit_numerator() < 10_000);
    }
}

#[test]
fn same_seed_same_mixed_calls() {
    let mut a = Rng::new(0);
    let mut b = Rng::new(DEFAULT_SEED);
    for i in 0..300u32 {
        match i % 3 {
            0 => assert_eq!(a.next(), b.next()),
            1 => assert_eq!(a.range(i), b.range(i)),
            _ => assert_eq!(a.unit_numerator(), b.unit_numerator()),
        }
    }
    assert_eq!(a.next(), b.next());
}
