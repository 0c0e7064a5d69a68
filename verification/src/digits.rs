use vstd::prelude::*;
use vstd::arithmetic::power::pow;

verus! {

/// The ASCII code of the digit `0`.
pub const ASCII_ZERO: u8 = 48;

/// The decimal representation of `n`, most significant digit first, as ASCII bytes,
/// without leading zeros (`0` is the single digit `0`).
pub open spec fn decimal_digits(n: nat) -> Seq<u8>
    decreases n,
{
    if n < 10 {
        seq![(n + ASCII_ZERO) as u8]
    } else {
        decimal_digits(n / 10).push((n % 10 + ASCII_ZERO) as u8)
    }
}

/// The single digit that `base_10_bytes` gives back for zero.
pub const ZERO_DIGITS: [u8; 1] = [48];

/// Writes the decimal digits of `n` into the front of `buf` and returns them.
pub fn base_10_bytes(n: u64, buf: &mut [u8]) -> (digits: &[u8])
    requires
        n > 0 ==> decimal_digits(n as nat).len() <= old(buf)@.len(),
    ensures
        digits@ == decimal_digits(n as nat),
        n == 0 ==> final(buf)@ == old(buf)@,
        n > 0 ==> final(buf)@ == decimal_digits(n as nat) + old(buf)@.skip(decimal_digits(n as nat).len() as int),
{
    if n == 0 {
        return ZERO_DIGITS.as_slice();
    }
    let ghost total = decimal_digits(n as nat).len();
    let buf_len: usize = buf.len();
    // Count the digits.
    let mut count: usize = 0;
    let mut m: u64 = n;
    while m > 0
        invariant
            count + (if m > 0 { decimal_digits(m as nat).len() } else { 0 }) == total,
            total <= buf_len,
            m <= n,
        decreases m,
    {
        if m >= 10 {
            assert(decimal_digits(m as nat).len() == decimal_digits((m / 10) as nat).len() + 1);
        } else {
            assert(decimal_digits(m as nat).len() == 1);
        }
        count = count + 1;
        m = m / 10;
    }
    // Fill the digits in from the least significant one.
    let mut j: usize = count;
    let mut m: u64 = n;
    while m > 0
        invariant
            j <= count,
            count == total,
            total <= buf@.len(),
            buf@.len() == old(buf)@.len(),
            m > 0 ==> decimal_digits(m as nat).len() == j,
            m == 0 ==> j == 0,
            decimal_digits(n as nat) == (if m > 0 { decimal_digits(m as nat) } else { Seq::<u8>::empty() }) + buf@.subrange(j as int, count as int),
            buf@.skip(count as int) == old(buf)@.skip(count as int),
        decreases m,
    {
        let ghost before = buf@;
        let digit: u8 = (m % 10) as u8 + ASCII_ZERO;
        j = j - 1;
        buf[j] = digit;
        assert(buf@.subrange(j as int, count as int) == seq![digit] + before.subrange(j + 1, count as int));
        assert(buf@.skip(count as int) == before.skip(count as int));
        m = m / 10;
    }
    assert(buf@.subrange(0, count as int) == decimal_digits(n as nat));
    assert(buf@ == buf@.subrange(0, count as int) + buf@.skip(count as int));
    &buf[0..count]
}

/// The number that a sequence of ASCII decimal digits denotes, most significant first.
pub open spec fn decimal_value(digits: Seq<u8>) -> nat
    decreases digits.len(),
{
    if digits.len() == 0 {
        0
    } else {
        decimal_value(digits.drop_last()) * 10 + (digits.last() - ASCII_ZERO) as nat
    }
}

/// The digits of `n` read back as a number give `n`.
pub proof fn decimal_digits_roundtrip(n: nat)
    ensures
        decimal_value(decimal_digits(n)) == n,
    decreases n,
{
    if n >= 10 {
        decimal_digits_roundtrip(n / 10);
        assert(decimal_digits(n).drop_last() == decimal_digits(n / 10));
        assert(decimal_digits(n).last() == (n % 10 + ASCII_ZERO) as u8);
        assert((decimal_digits(n).last() - ASCII_ZERO) as nat == n % 10);
        assert((n / 10) * 10 + n % 10 == n);
        assert(decimal_value(decimal_digits(n)) == decimal_value(decimal_digits(n / 10)) * 10 + (
        decimal_digits(n).last() - ASCII_ZERO) as nat);
    } else {
        assert(decimal_digits(n).drop_last() == Seq::<u8>::empty());
        assert(decimal_digits(n).last() == (n + ASCII_ZERO) as u8);
        assert(decimal_value(Seq::<u8>::empty()) == 0);
        assert(decimal_value(decimal_digits(n)) == decimal_value(Seq::<u8>::empty()) * 10 + (
        decimal_digits(n).last() - ASCII_ZERO) as nat);
    }
}

/// The digits of `n` are ASCII digits, at least one of them, and the first is not `0`
/// unless `n` is zero.
pub proof fn decimal_digits_well_formed(n: nat)
    ensures
        decimal_digits(n).len() >= 1,
        forall|i: int|
            0 <= i < decimal_digits(n).len() ==> ASCII_ZERO <= #[trigger] decimal_digits(n)[i]
                <= ASCII_ZERO + 9,
        n > 0 ==> decimal_digits(n)[0] != ASCII_ZERO,
    decreases n,
{
    if n >= 10 {
        decimal_digits_well_formed(n / 10);
        assert forall|i: int| 0 <= i < decimal_digits(n).len() implies ASCII_ZERO
            <= #[trigger] decimal_digits(n)[i] <= ASCII_ZERO + 9 by {
            if i < decimal_digits(n).len() - 1 {
                assert(decimal_digits(n)[i] == decimal_digits(n / 10)[i]);
            }
        }
        assert(decimal_digits(n)[0] == decimal_digits(n / 10)[0]);
    }
}

/// A number below `10^k` has at most `k` digits, so a buffer of `k` bytes holds them.
pub proof fn decimal_digits_fit(n: nat, k: nat)
    requires
        1 <= k,
        n < pow(10, k),
    ensures
        decimal_digits(n).len() <= k,
    decreases k,
{
    if n >= 10 {
        assert(k >= 2) by {
            if k == 1 {
                vstd::arithmetic::power::lemma_pow1(10);
            }
        }
        vstd::arithmetic::power::lemma_pow_adds(10, 1, (k - 1) as nat);
        vstd::arithmetic::power::lemma_pow1(10);
        assert(n / 10 < pow(10, (k - 1) as nat)) by {
            vstd::arithmetic::div_mod::lemma_div_by_multiple_is_strongly_ordered(
                n as int,
                pow(10, k) as int,
                pow(10, (k - 1) as nat) as int,
                10,
            );
        }
        decimal_digits_fit(n / 10, (k - 1) as nat);
    }
}

} // verus!
