//! Sequence numbers modulo 2^15: how they are counted and compared.

use vstd::prelude::*;

verus! {

/// Sequence numbers count modulo this value (2^15).
pub const SEQ_MODULUS: u16 = 32768;

/// Half the sequence space (2^14): the largest distance at which one number
/// still counts as before another, and the largest window size.
pub const SEQ_HALF: u16 = 16384;

/// Whether `s` is a sequence number.
pub open spec fn is_seq(s: int) -> bool {
    0 <= s < 32768
}

/// The sequence number `n` steps after `s`.
pub open spec fn seq_add(s: int, n: int) -> int {
    (s + n) % 32768
}

/// The number of steps from `from` forward to `to`.
pub open spec fn seq_distance(from: int, to: int) -> int {
    (to - from) % 32768
}

/// `a` is strictly before `b`: going forward from `a`, `b` comes after at
/// least one and at most 2^14 steps.
pub open spec fn seq_before(a: int, b: int) -> bool {
    1 <= seq_distance(a, b) <= 16384
}

/// The sequence number after `s`.
pub fn next_seq(s: u16) -> (r: u16)
    requires
        is_seq(s as int),
    ensures
        r == seq_add(s as int, 1),
        is_seq(r as int),
{
    if s == SEQ_MODULUS - 1 {
        0
    } else {
        s + 1
    }
}

/// The number of steps from `from` forward to `to`.
pub fn distance(from: u16, to: u16) -> (r: u16)
    requires
        is_seq(from as int),
        is_seq(to as int),
    ensures
        r == seq_distance(from as int, to as int),
        is_seq(r as int),
{
    if to >= from {
        to - from
    } else {
        SEQ_MODULUS - from + to
    }
}

/// Whether `a` is strictly before `b`.
pub fn is_before(a: u16, b: u16) -> (r: bool)
    requires
        is_seq(a as int),
        is_seq(b as int),
    ensures
        r == seq_before(a as int, b as int),
{
    let d: u16 = distance(a, b);
    1 <= d && d <= SEQ_HALF
}

/// Steps add up: `a` steps and then `b` steps are `a + b` steps.
pub proof fn seq_add_add(s: int, a: int, b: int)
    ensures
        seq_add(seq_add(s, a), b) == seq_add(s, a + b),
{
    let q = (s + a) / 32768;
    assert(seq_add(s, a) == s + a - 32768 * q);
    assert((s + a + b - 32768 * q) % 32768 == (s + a + b) % 32768) by {
        vstd::arithmetic::div_mod::lemma_mod_multiples_vanish(-q, s + a + b, 32768);
    }
}

/// Going the distance from `from` to `to` leads from `from` to `to`.
pub proof fn add_distance(from: int, to: int)
    requires
        is_seq(to),
    ensures
        seq_add(from, seq_distance(from, to)) == to,
{
    let q = (to - from) / 32768;
    assert(seq_distance(from, to) == to - from - 32768 * q);
    assert((to - 32768 * q) % 32768 == to % 32768) by {
        vstd::arithmetic::div_mod::lemma_mod_multiples_vanish(-q, to, 32768);
    }
}

/// The distance between two numbers that lie `i` and `d` steps after a
/// third is the distance from `i` to `d`.
pub proof fn distance_of_adds(base: int, i: int, d: int)
    ensures
        seq_distance(seq_add(base, i), seq_add(base, d)) == seq_distance(i, d),
{
    let qi = (base + i) / 32768;
    let qd = (base + d) / 32768;
    assert(seq_add(base, i) == base + i - 32768 * qi);
    assert(seq_add(base, d) == base + d - 32768 * qd);
    assert((d - i + 32768 * (qi - qd)) % 32768 == (d - i) % 32768) by {
        vstd::arithmetic::div_mod::lemma_mod_multiples_vanish(qi - qd, d - i, 32768);
    }
}

/// Within half the sequence space, "before" is the order of the steps: of
/// two numbers that lie `i` and `d` steps after a third, the first is
/// strictly before the second exactly when `i < d`.
pub proof fn before_within_window(base: int, i: int, d: int)
    requires
        0 <= i < 16384,
        0 <= d <= 16384,
    ensures
        seq_before(seq_add(base, i), seq_add(base, d)) <==> i < d,
{
    distance_of_adds(base, i, d);
}

/// One more step from `b` is one more step from `a`, short of a full turn.
pub proof fn distance_step(a: int, b: int)
    requires
        is_seq(a),
        is_seq(b),
        seq_distance(a, b) < 32767,
    ensures
        seq_distance(a, seq_add(b, 1)) == seq_distance(a, b) + 1,
{
}

/// A number that lies fewer than 2^14 steps behind another is not before
/// what lies behind it.
pub proof fn not_before_when_behind(a: int, b: int)
    requires
        is_seq(a),
        is_seq(b),
        seq_distance(a, b) < 16384,
    ensures
        !seq_before(b, a),
{
}

} // verus!
