use dragon_tools::GF256;

fn slow_multiply(a: u8, b: u8) -> u8 {
    let mut a = a as u16;
    let mut b = b;
    let mut product = 0u16;
    while b != 0 {
        if b & 1 != 0 {
            product ^= a;
        }
        a <<= 1;
        if a & 0x100 != 0 {
            a ^= 0x11d;
        }
        b >>= 1;
    }
    product as u8
}

#[test]
fn zero_and_one() {
    let gf = GF256::new();
    for x in 0..=255u8 {
        assert_eq!(gf.multiply(0, x), 0);
        assert_eq!(gf.multiply(x, 0), 0);
        assert_eq!(gf.multiply(1, x), x);
    }
}

#[test]
fn known_products() {
    let gf = GF256::new();
    assert_eq!(gf.multiply(2, 128), 0x1d);
    assert_eq!(gf.multiply(3, 7), 9);
}

#[test]
fn matches_polynomial_multiplication() {
    let gf = GF256::new();
    for a in 0..=255u8 {
        for b in 0..=255u8 {
            assert_eq!(gf.multiply(a, b), slow_multiply(a, b));
        }
    }
}
