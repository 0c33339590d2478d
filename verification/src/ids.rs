//! Identifiers and the text they are written as.

use vstd::arithmetic::div_mod::{lemma_div_denominator, lemma_fundamental_div_mod};
use vstd::arithmetic::power::{lemma_pow0, lemma_pow1, lemma_pow_adds, lemma_pow_positive, pow};
use vstd::prelude::*;

verus! {

/// The character of one hexadecimal digit, in lower case.
pub open spec fn hex_char(d: int) -> char {
    seq!['0', '1', '2', '3', '4', '5', '6', '7', '8', '9', 'a', 'b', 'c', 'd', 'e', 'f'][d]
}

/// The `k`-th of the 32 hexadecimal digits of `id`, counted from the most
/// significant one.
pub open spec fn hex_digit_of(id: u128, k: int) -> int {
    (id as int / pow(16, (31 - k) as nat)) % 16
}

/// The usual text of a UUID: its 32 hexadecimal digits in lower case, in
/// groups of 8, 4, 4, 4 and 12 with a hyphen between them.
pub open spec fn hyphenated(id: u128) -> Seq<char> {
    Seq::new(
        36,
        |i: int|
            if i == 8 || i == 13 || i == 18 || i == 23 {
                '-'
            } else if i < 8 {
                hex_char(hex_digit_of(id, i))
            } else if i < 13 {
                hex_char(hex_digit_of(id, i - 1))
            } else if i < 18 {
                hex_char(hex_digit_of(id, i - 2))
            } else if i < 23 {
                hex_char(hex_digit_of(id, i - 3))
            } else {
                hex_char(hex_digit_of(id, i - 4))
            },
    )
}

/// Where the `k`-th digit stands in the hyphenated text.
spec fn place_of(k: int) -> int {
    if k < 8 {
        k
    } else if k < 12 {
        k + 1
    } else if k < 16 {
        k + 2
    } else if k < 20 {
        k + 3
    } else {
        k + 4
    }
}

/// The number that the first `k` digits of `id` write.
spec fn head_of(id: u128, k: int) -> int {
    id as int / pow(16, (32 - k) as nat)
}

/// The digit that a hexadecimal character stands for.
spec fn hex_value(c: char) -> int {
    if c == '0' {
        0
    } else if c == '1' {
        1
    } else if c == '2' {
        2
    } else if c == '3' {
        3
    } else if c == '4' {
        4
    } else if c == '5' {
        5
    } else if c == '6' {
        6
    } else if c == '7' {
        7
    } else if c == '8' {
        8
    } else if c == '9' {
        9
    } else if c == 'a' {
        10
    } else if c == 'b' {
        11
    } else if c == 'c' {
        12
    } else if c == 'd' {
        13
    } else if c == 'e' {
        14
    } else {
        15
    }
}

proof fn lemma_hex_char_is_read_back(d: int)
    requires
        0 <= d < 16,
    ensures
        hex_value(hex_char(d)) == d,
{
}

proof fn lemma_sixteen_to_the_32()
    ensures
        pow(16, 32) == 0x1_0000_0000_0000_0000_0000_0000_0000_0000,
{
    lemma_pow1(16);
    let p2 = pow(16, 2);
    assert(p2 == 256) by {
        lemma_pow_adds(16, 1, 1);
    }
    let p4 = pow(16, 4);
    assert(p4 == 65536) by {
        lemma_pow_adds(16, 2, 2);
        assert(p4 == p2 * p2);
    }
    let p8 = pow(16, 8);
    assert(p8 == 0x1_0000_0000) by {
        lemma_pow_adds(16, 4, 4);
        assert(p8 == p4 * p4);
    }
    let p16 = pow(16, 16);
    assert(p16 == 0x1_0000_0000_0000_0000) by {
        lemma_pow_adds(16, 8, 8);
        assert(p16 == p8 * p8);
    }
    assert(pow(16, 32) == 0x1_0000_0000_0000_0000_0000_0000_0000_0000) by {
        lemma_pow_adds(16, 16, 16);
        assert(pow(16, 32) == p16 * p16);
    }
}

/// One digit more: the head grows by the next digit.
proof fn lemma_head_step(id: u128, k: int)
    requires
        0 <= k < 32,
    ensures
        head_of(id, k + 1) == 16 * head_of(id, k) + hex_digit_of(id, k),
{
    let low = pow(16, (31 - k) as nat);
    lemma_pow_positive(16, (31 - k) as nat);
    lemma_pow1(16);
    lemma_pow_adds(16, (31 - k) as nat, 1);
    assert(pow(16, (32 - k) as nat) == low * 16);
    lemma_div_denominator(id as int, low, 16);
    let y = id as int / low;
    lemma_fundamental_div_mod(y, 16);
}

proof fn lemma_heads_agree(a: u128, b: u128, k: int)
    requires
        0 <= k <= 32,
        forall|j: int| 0 <= j < 32 ==> hex_digit_of(a, j) == hex_digit_of(b, j),
    ensures
        head_of(a, k) == head_of(b, k),
    decreases k,
{
    if k == 0 {
        lemma_sixteen_to_the_32();
        assert(head_of(a, 0) == 0);
        assert(head_of(b, 0) == 0);
    } else {
        lemma_heads_agree(a, b, k - 1);
        lemma_head_step(a, k - 1);
        lemma_head_step(b, k - 1);
    }
}

/// Two identifiers with the same text are the same identifier: the text
/// tells every identifier from every other.
pub proof fn lemma_text_tells_ids_apart(a: u128, b: u128)
    requires
        hyphenated(a) == hyphenated(b),
    ensures
        a == b,
{
    assert forall|j: int| 0 <= j < 32 implies hex_digit_of(a, j) == hex_digit_of(b, j) by {
        let p = place_of(j);
        assert(hyphenated(a)[p] == hex_char(hex_digit_of(a, j)));
        assert(hyphenated(b)[p] == hex_char(hex_digit_of(b, j)));
        lemma_pow_positive(16, (31 - j) as nat);
        lemma_hex_char_is_read_back(hex_digit_of(a, j));
        lemma_hex_char_is_read_back(hex_digit_of(b, j));
    }
    lemma_heads_agree(a, b, 32);
    lemma_pow0(16);
}

} // verus!
