use vstd::prelude::*;

verus! {

/// Multiplication by the generator 2 in GF(2^8) reduced by the polynomial
/// x^8 + x^4 + x^3 + x^2 + 1 (0x11d).
pub open spec fn xtime(x: u16) -> u16 {
    if x >= 128 {
        ((x * 2) as u16 ^ 0x11d) as u16
    } else {
        (x * 2) as u16
    }
}

/// The generator raised to the power `i`.
pub open spec fn gf_exp(i: nat) -> u16
    decreases i,
{
    if i == 0 {
        1
    } else {
        xtime(gf_exp((i - 1) as nat))
    }
}

/// The largest `i < n` with `gf_exp(i) == x`, or 0 if there is none.
pub open spec fn log_below(x: nat, n: nat) -> nat
    decreases n,
{
    if n == 0 {
        0
    } else if gf_exp((n - 1) as nat) == x {
        (n - 1) as nat
    } else {
        log_below(x, (n - 1) as nat)
    }
}

/// The discrete logarithm of `x` to the generator (0 for 0).
pub open spec fn gf_log(x: nat) -> nat {
    log_below(x, 255)
}

/// The product of two field elements: the generator raised to the sum of
/// their logarithms, or 0 when either is 0.
pub open spec fn gf_mul(a: u8, b: u8) -> u8 {
    if a == 0 || b == 0 {
        0
    } else {
        gf_exp((gf_log(a as nat) + gf_log(b as nat)) % 255) as u8
    }
}

proof fn lemma_xtime_step(x: u16)
    requires
        0 < x < 256,
    ensures
        0 < xtime(x) < 256,
{
    if x >= 128 {
        let y = ((x * 2) as u16 ^ 0x11d) as u16;
        assert(0 < y && y < 256) by (bit_vector)
            requires
                128 <= x < 256,
                y == ((x * 2) as u16 ^ 0x11d) as u16,
        ;
    }
}

proof fn lemma_exp_in_range(i: nat)
    ensures
        0 < gf_exp(i) < 256,
    decreases i,
{
    if i > 0 {
        lemma_exp_in_range((i - 1) as nat);
        lemma_xtime_step(gf_exp((i - 1) as nat));
    }
}

/// Logarithm and exponential tables of GF(2^8), for Reed-Solomon coding.
pub struct GF256 {
    log_table: [u8; 256],
    exp_table: [u8; 256],
}

impl GF256 {
    #[verifier::type_invariant]
    spec fn tables_match(&self) -> bool {
        &&& forall|i: int| 0 <= i < 255 ==> self.exp_table@[i] == gf_exp(i as nat)
        &&& forall|x: int| 0 <= x < 256 ==> self.log_table@[x] == gf_log(x as nat)
    }

    /// Builds both tables by stepping through the powers of the generator.
    pub fn new() -> (r: Self) {
        let mut log_table = [0u8; 256];
        let mut exp_table = [0u8; 256];
        let mut x: u16 = 1;
        let mut i: usize = 0;
        while i < 255
            invariant
                i <= 255,
                x == gf_exp(i as nat),
                forall|j: int| 0 <= j < i ==> exp_table@[j] == gf_exp(j as nat),
                forall|y: int| 0 <= y < 256 ==> log_table@[y] == log_below(y as nat, i as nat),
            decreases 255 - i,
        {
            proof {
                lemma_exp_in_range(i as nat);
            }
            exp_table[i] = x as u8;
            log_table[x as usize] = i as u8;
            proof {
                assert forall|y: int| 0 <= y < 256 implies log_table@[y] == log_below(
                    y as nat,
                    (i + 1) as nat,
                ) by {}
            }
            x = x * 2;
            if x >= 256 {
                x = x ^ 0x11d;
            }
            proof {
                assert(x == xtime(gf_exp(i as nat)));
            }
            i += 1;
        }
        GF256 { log_table, exp_table }
    }

    /// The product of `a` and `b` in GF(2^8).
    pub fn multiply(&self, a: u8, b: u8) -> (r: u8)
        ensures
            r == gf_mul(a, b),
    {
        proof {
            use_type_invariant(self);
        }
        if a == 0 || b == 0 {
            return 0;
        }
        let log_sum = (self.log_table[a as usize] as u16 + self.log_table[b as usize] as u16) % 255;
        self.exp_table[log_sum as usize]
    }
}

} // verus!
