//! Small verified functions that show the style of this crate: arithmetic
//! with its bounds stated, borrowed and changed text, a shape with methods,
//! and functions that can fail.

use vstd::prelude::*;
use vstd::string::*;
use vstd::utf8::encode_utf8;
use crate::trusted::{decimal_integer, parse_i32};

verus! {

pub const DIVISION_BY_ZERO: &'static str = "Division by zero";

pub const WORLD: &'static str = ", world!";

/// The sum of two numbers that have one in `i32`.
pub fn add_numbers(a: i32, b: i32) -> (sum: i32)
    requires
        i32::MIN <= a + b <= i32::MAX,
    ensures
        sum == a + b,
{
    a + b
}

/// Sum and difference of two numbers, where `i32` holds both.
pub fn calculate(x: i32, y: i32) -> (r: (i32, i32))
    requires
        i32::MIN <= x + y <= i32::MAX,
        i32::MIN <= x - y <= i32::MAX,
    ensures
        r.0 == x + y,
        r.1 == x - y,
{
    (x + y, x - y)
}

/// The length of a text in bytes of UTF-8.
pub fn calculate_length(s: &String) -> (len: usize)
    ensures
        len == encode_utf8(s@).len() as usize,
{
    s.as_str().len()
}

/// Appends `, world!` to a text.
pub fn change_string(s: &mut String)
    ensures
        final(s)@ == old(s)@ + WORLD@,
{
    s.append(WORLD);
}

/// A rectangle with whole sides.
#[derive(Debug, Clone, Copy, PartialEq, Eq)]
pub struct Rectangle {
    pub width: u32,
    pub height: u32,
}

impl Rectangle {
    /// The area, where a `u32` holds it.
    pub fn area(&self) -> (area: u32)
        requires
            self.width * self.height <= u32::MAX,
        ensures
            area == self.width * self.height,
    {
        self.width * self.height
    }

    /// Whether `other` fits inside with room to spare on both sides.
    pub fn can_hold(&self, other: &Rectangle) -> (fits: bool)
        ensures
            fits == (self.width > other.width && self.height > other.height),
    {
        self.width > other.width && self.height > other.height
    }

    /// The square of the given side.
    pub fn square(size: u32) -> (r: Rectangle)
        ensures
            r.width == size,
            r.height == size,
    {
        Rectangle { width: size, height: size }
    }
}

/// The quotient of `a` by `b`, rounded toward zero.
pub open spec fn quotient(a: int, b: int) -> int
    recommends
        b != 0,
{
    if a >= 0 && b > 0 {
        a / b
    } else if a >= 0 {
        -(a / (-b))
    } else if b > 0 {
        -((-a) / b)
    } else {
        (-a) / (-b)
    }
}

/// Dividing by a negative number negates the quotient by its magnitude.
proof fn lemma_divide_by_negative(a: int, b: int)
    by (nonlinear_arith)
    requires
        a >= 0,
        b < 0,
    ensures
        a / b == -(a / (-b)),
{
}

/// A quotient of magnitudes is no larger than the dividend, and smaller when
/// the divisor is two or more.
proof fn lemma_quotient_bounds(x: int, d: int)
    by (nonlinear_arith)
    requires
        x >= 0,
        d > 0,
    ensures
        0 <= x / d <= x,
        x > 0 && d >= 2 ==> x / d < x,
        d == 1 ==> x / d == x,
{
}

/// Division that reports a zero divisor as an error. The one quotient that
/// an `i32` cannot hold is left out.
pub fn divide(a: i32, b: i32) -> (r: Result<i32, String>)
    requires
        !(a == i32::MIN && b == -1),
    ensures
        match r {
            Ok(q) => b != 0 && q == quotient(a as int, b as int),
            Err(message) => b == 0 && message@ == DIVISION_BY_ZERO@,
        },
{
    if b == 0 {
        Err(DIVISION_BY_ZERO.to_string())
    } else {
        proof {
            let x: int = if a >= 0 {
                a as int
            } else {
                -(a as int)
            };
            let d: int = if b > 0 {
                b as int
            } else {
                -(b as int)
            };
            lemma_quotient_bounds(x, d);
            if b < 0 {
                lemma_divide_by_negative(x, b as int);
            }
        }
        Ok(a / b)
    }
}

/// The number that a text writes in decimal, with an optional sign. Any other
/// text is an error, and so is a number that an `i32` cannot hold.
pub fn read_number_from_string(s: &str) -> (r: Result<i32, core::num::ParseIntError>)
    ensures
        match r {
            Ok(value) => decimal_integer(s@) == Some(value as int),
            Err(_) => match decimal_integer(s@) {
                Some(value) => value < i32::MIN || value > i32::MAX,
                None => true,
            },
        },
{
    let num: i32 = parse_i32(s)?;
    Ok(num)
}

/// Two values of one type.
#[derive(Debug, Clone, Copy, PartialEq, Eq)]
pub struct Pair<T> {
    pub x: T,
    pub y: T,
}

impl<T> Pair<T> {
    /// The pair of `x` and `y`.
    pub fn new(x: T, y: T) -> (pair: Self)
        ensures
            pair.x == x,
            pair.y == y,
    {
        Self { x, y }
    }
}

} // verus!
