//! Decimal rendering of version numbers for audit labels.

use vstd::prelude::*;

verus! {

/// The decimal digits of a number, most significant first.
pub open spec fn decimal(n: nat) -> Seq<u8>
    decreases n,
{
    if n < 10 {
        seq![(48 + n) as u8]
    } else {
        decimal(n / 10).push((48 + n % 10) as u8)
    }
}

pub open spec fn pow10(k: nat) -> nat
    decreases k,
{
    if k == 0 {
        1
    } else {
        10 * pow10((k - 1) as nat)
    }
}

/// A number below `10^k` has at most `k` digits.
pub proof fn lemma_decimal_len(n: nat, k: nat)
    requires
        k >= 1,
        n < pow10(k),
    ensures
        decimal(n).len() <= k,
    decreases k,
{
    if n >= 10 {
        assert(pow10(1) == 10) by {
            reveal_with_fuel(pow10, 2);
        }
        if k == 1 {
            assert(false);
        }
        let p = pow10((k - 1) as nat);
        assert(pow10(k) == 10 * p);
        assert(n / 10 < p) by (nonlinear_arith)
            requires
                n < 10 * p,
        ;
        lemma_decimal_len(n / 10, (k - 1) as nat);
    }
}

/// A 32-bit number has at most ten digits.
pub proof fn lemma_decimal_u32_len(n: u32)
    ensures
        decimal(n as nat).len() <= 10,
{
    assert(pow10(10) == 10_000_000_000) by {
        reveal_with_fuel(pow10, 11);
    }
    lemma_decimal_len(n as nat, 10);
}

/// Appends the decimal digits of a number to a buffer.
pub fn append_decimal(buf: &mut Vec<u8>, n: u32)
    ensures
        final(buf)@ == old(buf)@ + decimal(n as nat),
    decreases n,
{
    if n >= 10 {
        append_decimal(buf, n / 10);
    }
    buf.push(48 + (n % 10) as u8);
    assert(final(buf)@ =~= old(buf)@ + decimal(n as nat));
}

/// The label of the version a rollback to `target` creates.
pub open spec fn rollback_label(target: u32) -> Seq<u8> {
    seq![114u8, 111, 108, 108, 98, 97, 99, 107, 32, 116, 111, 32, 118] + decimal(target as nat)
}

/// `"rollback to v<target>"`.
pub fn make_rollback_label(target: u32) -> (label: Vec<u8>)
    ensures
        label@ == rollback_label(target),
        label@.len() <= 23,
{
    let mut label: Vec<u8> = Vec::new();
    label.push(114u8);
    label.push(111u8);
    label.push(108u8);
    label.push(108u8);
    label.push(98u8);
    label.push(97u8);
    label.push(99u8);
    label.push(107u8);
    label.push(32u8);
    label.push(116u8);
    label.push(111u8);
    label.push(32u8);
    label.push(118u8);
    append_decimal(&mut label, target);
    proof {
        lemma_decimal_u32_len(target);
    }
    assert(label@ =~= rollback_label(target));
    label
}

} // verus!
