//! Building text: joining, decimal numbers, and the extension of a file name.

use vstd::prelude::*;
use vstd::string::*;

verus! {

/// The character of one decimal digit.
pub open spec fn digit_char(d: int) -> char {
    seq!['0', '1', '2', '3', '4', '5', '6', '7', '8', '9'][d]
}

/// The digits of `n` in base ten, without leading zeros.
pub open spec fn decimal(n: nat) -> Seq<char>
    decreases n,
{
    if n < 10 {
        seq![digit_char(n as int)]
    } else {
        decimal(n / 10).push(digit_char((n % 10) as int))
    }
}

/// The digits of `v` in base ten, after a minus sign when `v` is negative.
pub open spec fn signed_decimal(v: int) -> Seq<char> {
    if v < 0 {
        seq!['-'] + decimal((-v) as nat)
    } else {
        decimal(v as nat)
    }
}

/// `decimal(n)`, filled with zeros on the left to at least three digits.
pub open spec fn padded3(n: nat) -> Seq<char> {
    if n < 10 {
        seq!['0', '0'] + decimal(n)
    } else if n < 100 {
        seq!['0'] + decimal(n)
    } else {
        decimal(n)
    }
}

/// The position of the last `.` in `s`, or -1 when it holds none.
pub open spec fn last_dot(s: Seq<char>) -> int
    decreases s.len(),
{
    if s.len() == 0 {
        -1
    } else if s.last() == '.' {
        s.len() - 1
    } else {
        last_dot(s.drop_last())
    }
}

/// What follows the last `.` of `name`; all of `name` when it holds no `.`.
pub open spec fn extension(name: Seq<char>) -> Seq<char> {
    name.subrange(last_dot(name) + 1, name.len() as int)
}

/// `a` followed by `b`.
pub fn joined(a: &str, b: &str) -> (r: String)
    ensures
        r@ == a@ + b@,
{
    let mut r = String::from_str(a);
    r.append(b);
    r
}

/// Whether two texts hold the same characters.
pub fn same_text(a: &str, b: &str) -> (r: bool)
    ensures
        r == (a@ == b@),
{
    String::from_str(a) == String::from_str(b)
}

fn digit_str(d: u64) -> (r: &'static str)
    requires
        d < 10,
    ensures
        r@ == seq![digit_char(d as int)],
{
    proof {
        reveal_strlit("0");
        reveal_strlit("1");
        reveal_strlit("2");
        reveal_strlit("3");
        reveal_strlit("4");
        reveal_strlit("5");
        reveal_strlit("6");
        reveal_strlit("7");
        reveal_strlit("8");
        reveal_strlit("9");
    }
    let r = if d == 0 {
        "0"
    } else if d == 1 {
        "1"
    } else if d == 2 {
        "2"
    } else if d == 3 {
        "3"
    } else if d == 4 {
        "4"
    } else if d == 5 {
        "5"
    } else if d == 6 {
        "6"
    } else if d == 7 {
        "7"
    } else if d == 8 {
        "8"
    } else {
        "9"
    };
    assert(r@ =~= seq![digit_char(d as int)]);
    r
}

/// The decimal text of `n`.
pub fn decimal_text(n: u64) -> (r: String)
    ensures
        r@ == decimal(n as nat),
    decreases n,
{
    if n < 10 {
        String::from_str(digit_str(n))
    } else {
        let mut r = decimal_text(n / 10);
        r.append(digit_str(n % 10));
        assert(r@ =~= decimal(n as nat));
        r
    }
}

/// The decimal text of `v`, with its sign.
pub fn signed_decimal_text(v: i64) -> (r: String)
    ensures
        r@ == signed_decimal(v as int),
{
    if v < 0 {
        proof {
            reveal_strlit("-");
        }
        let magnitude: u64 = if v == i64::MIN {
            9223372036854775808u64
        } else {
            (-v) as u64
        };
        let digits = decimal_text(magnitude);
        let r = joined("-", digits.as_str());
        assert(r@ =~= signed_decimal(v as int));
        r
    } else {
        decimal_text(v as u64)
    }
}

/// The decimal text of `n`, at least three digits wide.
pub fn padded3_text(n: u64) -> (r: String)
    ensures
        r@ == padded3(n as nat),
{
    let digits = decimal_text(n);
    proof {
        reveal_strlit("00");
        reveal_strlit("0");
    }
    if n < 10 {
        let r = joined("00", digits.as_str());
        assert(r@ =~= padded3(n as nat));
        r
    } else if n < 100 {
        let r = joined("0", digits.as_str());
        assert(r@ =~= padded3(n as nat));
        r
    } else {
        digits
    }
}

/// `last_dot` looks only at what lies before the position it returns, plus one.
proof fn lemma_last_dot_of_prefix(s: Seq<char>, i: int)
    requires
        0 <= i <= s.len(),
        forall|j: int| i <= j < s.len() ==> s[j] != '.',
    ensures
        last_dot(s) == last_dot(s.subrange(0, i)),
    decreases s.len() - i,
{
    if i < s.len() {
        assert(s.drop_last().subrange(0, i) =~= s.subrange(0, i));
        lemma_last_dot_of_prefix(s.drop_last(), i);
    } else {
        assert(s.subrange(0, i) =~= s);
    }
}

/// An extension holds no dot, and is the end of the name it was taken from.
pub proof fn lemma_extension_has_no_dot(name: Seq<char>)
    ensures
        -1 <= last_dot(name) < name.len(),
        extension(name).len() == name.len() - last_dot(name) - 1,
        forall|i: int|
            0 <= i < extension(name).len() ==> #[trigger] extension(name)[i] != '.'
                && extension(name)[i] == name[last_dot(name) + 1 + i],
    decreases name.len(),
{
    if name.len() > 0 && name.last() != '.' {
        let front = name.drop_last();
        lemma_extension_has_no_dot(front);
        assert(last_dot(name) == last_dot(front));
        assert forall|i: int| 0 <= i < extension(name).len() implies #[trigger] extension(
            name,
        )[i] != '.' && extension(name)[i] == name[last_dot(name) + 1 + i] by {
            if i < extension(front).len() {
                assert(extension(front)[i] == front[last_dot(front) + 1 + i]);
            }
        }
    }
}

/// The extension of a file name, as `extension` defines it.
pub fn extension_of(name: &str) -> (r: String)
    ensures
        r@ == extension(name@),
{
    let n: usize = name.unicode_len();
    let mut i: usize = n;
    while i > 0 && name.get_char(i - 1) != '.'
        invariant
            i <= n,
            n == name@.len(),
            forall|j: int| i <= j < n ==> name@[j] != '.',
        decreases i,
    {
        i = i - 1;
    }
    proof {
        lemma_last_dot_of_prefix(name@, i as int);
        let head = name@.subrange(0, i as int);
        if i > 0 {
            assert(head.last() == '.');
            assert(last_dot(head) == i - 1);
        } else {
            assert(last_dot(head) == -1);
        }
    }
    String::from_str(name.substring_char(i, n))
}

} // verus!
