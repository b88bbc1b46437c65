//! Human-readable byte sizes ("512 B", "1.5 KB"), computed exactly as
//! formatting the size as a double-precision number divided by 1024 per
//! unit, with one decimal.
use vstd::prelude::*;
use crate::strings::{append_str, decimal, push_decimal};

verus! {

/// `2^e`.
pub open spec fn pow2(e: nat) -> nat
    decreases e,
{
    if e == 0 {
        1
    } else {
        2 * pow2((e - 1) as nat)
    }
}

/// Number of binary digits of `n`.
pub open spec fn bit_length(n: nat) -> nat
    decreases n,
{
    if n == 0 {
        0
    } else {
        1 + bit_length(n / 2)
    }
}

/// `n / d` rounded to the nearest integer, ties to even.
pub open spec fn round_half_even(n: nat, d: nat) -> nat {
    let q = n / d;
    let r = n % d;
    if 2 * r > d || (2 * r == d && q % 2 == 1) {
        q + 1
    } else {
        q
    }
}

/// The value of the double nearest to `n` (53 significant bits, ties to
/// even).
pub open spec fn as_double(n: nat) -> nat {
    if bit_length(n) <= 53 {
        n
    } else {
        let s = (bit_length(n) - 53) as nat;
        round_half_even(n, pow2(s)) * pow2(s)
    }
}

/// How many times `v` is divided by 1024: while it is at least 1024 and
/// a larger unit exists (up to four times).
pub open spec fn unit_steps(v: nat, k: nat) -> nat
    decreases 4 - k,
{
    if k < 4 && v >= pow2(10 * (k + 1)) {
        unit_steps(v, k + 1)
    } else {
        k
    }
}

/// The unit after `k` divisions.
pub open spec fn unit_name(k: nat) -> Seq<char> {
    if k == 0 {
        "B"@
    } else if k == 1 {
        "KB"@
    } else if k == 2 {
        "MB"@
    } else if k == 3 {
        "GB"@
    } else {
        "TB"@
    }
}

/// The text of a byte count: the exact count in bytes below 1024, else the
/// size in the largest unit (up to TB) with one decimal, rounded half to
/// even from the double value.
pub open spec fn bytes_text(bytes: nat) -> Seq<char> {
    let v = as_double(bytes);
    let k = unit_steps(v, 0);
    if k == 0 {
        decimal(bytes) + " B"@
    } else {
        let t = round_half_even(v * 10, pow2(10 * k));
        decimal(t / 10) + "."@ + decimal(t % 10) + " "@ + unit_name(k)
    }
}

proof fn lemma_pow2_add(a: nat, b: nat)
    ensures
        pow2(a + b) == pow2(a) * pow2(b),
    decreases b,
{
    if b == 0 {
        assert(pow2(0) == 1);
        assert(a + b == a);
    } else {
        let b1 = (b - 1) as nat;
        lemma_pow2_add(a, b1);
        let x = pow2(a);
        let y = pow2(b1);
        assert(a + b1 + 1 == a + b);
        assert(pow2(a + b) == 2 * pow2(a + b1));
        assert(pow2(b) == 2 * y);
        assert(pow2(a + b1) == x * y);
        assert(2 * (x * y) == x * (2 * y)) by (nonlinear_arith);
    }
}

proof fn lemma_pow2_10()
    ensures
        pow2(10) == 1024,
{
    reveal_with_fuel(pow2, 11);
}

proof fn lemma_pow2_30()
    ensures
        pow2(30) == 0x4000_0000,
{
    lemma_pow2_10();
    lemma_pow2_add(10, 10);
    lemma_pow2_add(20, 10);
}

proof fn lemma_pow2_pos(e: nat)
    ensures
        pow2(e) >= 1,
    decreases e,
{
    if e > 0 {
        lemma_pow2_pos((e - 1) as nat);
    }
}

proof fn lemma_pow2_mono(a: nat, b: nat)
    requires
        a <= b,
    ensures
        pow2(a) <= pow2(b),
    decreases b,
{
    if a < b {
        lemma_pow2_mono(a, (b - 1) as nat);
        lemma_pow2_pos((b - 1) as nat);
    }
}

proof fn lemma_bit_length_bound(n: nat)
    ensures
        n < pow2(bit_length(n)),
        n > 0 ==> pow2((bit_length(n) - 1) as nat) <= n,
    decreases n,
{
    if n > 0 {
        lemma_bit_length_bound(n / 2);
    }
}

fn bit_length_of(n: u64) -> (r: u64)
    ensures
        r == bit_length(n as nat),
        r <= 64,
{
    let mut m: u64 = n;
    let mut count: u64 = 0;
    proof {
        lemma_bit_length_bound(n as nat);
        assert(pow2(64) == 0x1_0000_0000_0000_0000) by {
            lemma_pow2_30();
            lemma_pow2_10();
            lemma_pow2_add(30, 30);
            assert(pow2(60) == 0x1000_0000_0000_0000);
            reveal_with_fuel(pow2, 5);
            assert(pow2(4) == 16);
            lemma_pow2_add(60, 4);
        }
        if bit_length(n as nat) > 64 {
            lemma_pow2_mono(64, (bit_length(n as nat) - 1) as nat);
        }
    }
    while m > 0
        invariant
            count + bit_length(m as nat) == bit_length(n as nat),
            bit_length(n as nat) <= 64,
        decreases m,
    {
        m = m / 2;
        count = count + 1;
    }
    count
}

fn round_div(n: u128, d: u128) -> (r: u128)
    requires
        d > 0,
        d <= 0x1_0000_0000_0000_0000,
        n < 0x1_0000_0000_0000_0000_0000,
    ensures
        r == round_half_even(n as nat, d as nat),
{
    let q = n / d;
    let rem = n % d;
    if 2 * rem > d || (2 * rem == d && q % 2 == 1) {
        q + 1
    } else {
        q
    }
}

/// The byte count as text: "512 B", "1.5 KB", "1.0 GB".
pub fn format_bytes(bytes: u64) -> (r: String)
    ensures
        r@ == bytes_text(bytes as nat),
{
    let bl = bit_length_of(bytes);
    let v: u128 = if bl <= 53 {
        bytes as u128
    } else {
        let s = bl - 53;
        let mut d: u128 = 1;
        let mut i: u64 = 0;
        while i < s
            invariant
                0 <= i <= s,
                s <= 11,
                d == pow2(i as nat),
                d <= 2048,
            decreases s - i,
        {
            proof {
                lemma_pow2_mono((i + 1) as nat, 11);
                reveal_with_fuel(pow2, 12);
            }
            d = d * 2;
            i = i + 1;
        }
        proof {
            lemma_pow2_pos(s as nat);
        }
        let m = round_div(bytes as u128, d);
        assert(m <= bytes as int / d as int + 1);
        assert(m * d <= (bytes as int / d as int + 1) * d) by (nonlinear_arith)
            requires
                m <= bytes as int / d as int + 1,
                d > 0,
        ;
        assert((bytes as int / d as int + 1) * d <= bytes as int + d) by (nonlinear_arith)
            requires
                d > 0,
        ;
        m * d
    };
    assert(v == as_double(bytes as nat));
    let mut k: u64 = 0;
    let mut div: u128 = 1;
    proof {
        lemma_pow2_10();
        reveal_with_fuel(pow2, 1);
    }
    while k < 4 && v >= div * 1024
        invariant
            0 <= k <= 4,
            div == pow2(10 * k as nat),
            div <= 0x100_0000_0000,
            v <= 0x2_0000_0000_0000_0000,
            unit_steps(v as nat, 0) == unit_steps(v as nat, k as nat),
        decreases 4 - k,
    {
        proof {
            lemma_pow2_add(10 * k as nat, 10);
            lemma_pow2_10();
            assert(10 * (k + 1) == 10 * k + 10);
            lemma_pow2_mono(10 * k as nat, 30);
            lemma_pow2_30();
        }
        div = div * 1024;
        k = k + 1;
    }
    proof {
        lemma_pow2_add(10 * k as nat, 10);
        lemma_pow2_10();
        assert(10 * (k + 1) == 10 * k + 10);
    }
    assert(unit_steps(v as nat, k as nat) == k);
    let mut out = String::new();
    proof {
        reveal_strlit(" B");
        reveal_strlit(".");
        reveal_strlit(" ");
        reveal_strlit("B");
        reveal_strlit("KB");
        reveal_strlit("MB");
        reveal_strlit("GB");
        reveal_strlit("TB");
    }
    if k == 0 {
        push_decimal(&mut out, bytes);
        append_str(&mut out, " B");
        return out;
    }
    proof {
        lemma_pow2_mono(10, 10 * k as nat);
        lemma_pow2_10();
    }
    let t = round_div(v * 10, div);
    assert(t <= (v * 10) as int / div as int + 1);
    assert((v * 10) as int / div as int <= (v * 10) as int / 1024) by {
        vstd::arithmetic::div_mod::lemma_div_is_ordered_by_denominator((v * 10) as int, 1024, div as int);
    }
    let whole = (t / 10) as u64;
    let frac = (t % 10) as u64;
    push_decimal(&mut out, whole);
    append_str(&mut out, ".");
    push_decimal(&mut out, frac);
    append_str(&mut out, " ");
    let unit = if k == 1 {
        "KB"
    } else if k == 2 {
        "MB"
    } else if k == 3 {
        "GB"
    } else {
        "TB"
    };
    append_str(&mut out, unit);
    out
}

} // verus!
