//! The calls that leave this crate. Each function here hands its arguments to
//! one function of another crate or of the standard library; its contract is
//! taken on trust from that function's documentation and source, and is the
//! only thing the rest of the crate knows about it.

use vstd::prelude::*;
use vstd::utf8::*;
use crate::ids::hyphenated;

verus! {

/// Characters that may not occur in a stored file name: path separators and
/// the other characters that file systems reserve, and control characters.
pub open spec fn unsafe_in_file_name(c: char) -> bool {
    ||| c == '/'
    ||| c == '?'
    ||| c == '<'
    ||| c == '>'
    ||| c == '\\'
    ||| c == ':'
    ||| c == '*'
    ||| c == '|'
    ||| c == '"'
    ||| c as u32 <= 0x1f
    ||| 0x80 <= c as u32 <= 0x9f
}

/// True of the two names that do not name a file: `.`, the directory itself,
/// and `..`, the directory above it.
pub open spec fn is_dot_name(name: Seq<char>) -> bool {
    name =~= seq!['.'] || name =~= seq!['.', '.']
}

/// The name that `sanitize_filename::sanitize` makes of a file name. Its
/// default options hold one flag that is fixed when the program is built,
/// whether the rules of Windows apply too; `windows` stands for that flag, so
/// that the same two values give the same name on every machine.
pub uninterp spec fn sanitized_name(name: Seq<char>, windows: bool) -> Seq<char>;

/// The JSON text that `serde_json::to_string` writes for a list of strings;
/// `None` where it reports an error.
pub uninterp spec fn json_of_strings(items: Seq<Seq<char>>) -> Option<Seq<char>>;

/// The list of strings that `serde_json::from_str` reads from a text; `None`
/// where the text is not a JSON array of strings.
pub uninterp spec fn strings_of_json(text: Seq<char>) -> Option<Seq<Seq<char>>>;

/// What chrono's `format` writes with the pattern `%d/%m/%Y %H:%M` for the
/// instant that lies `micros` microseconds after the Unix epoch, in UTC;
/// `None` where chrono cannot represent the instant.
pub uninterp spec fn utc_minute(micros: i64) -> Option<Seq<char>>;

/// The error of `str::parse` for an integer. Nothing of it is read here.
#[verifier::external_type_specification]
#[verifier::external_body]
pub struct ExParseIntError(core::num::ParseIntError);

/// True of a decimal digit.
pub open spec fn is_digit(c: char) -> bool {
    '0' <= c <= '9'
}

/// The number that a run of decimal digits writes.
pub open spec fn digits_value(digits: Seq<char>) -> nat
    decreases digits.len(),
{
    if digits.len() == 0 {
        0
    } else {
        digits_value(digits.drop_last()) * 10 + (digits.last() as u32 - '0' as u32) as nat
    }
}

/// True of one decimal digit or more, and nothing else.
pub open spec fn all_digits(digits: Seq<char>) -> bool {
    digits.len() > 0 && forall|i: int| 0 <= i < digits.len() ==> is_digit(#[trigger] digits[i])
}

/// The integer that a text writes in decimal: an optional sign, `+` or `-`,
/// then one digit or more and nothing else. `None` for any other text.
pub open spec fn decimal_integer(text: Seq<char>) -> Option<int> {
    if text.len() > 0 && text[0] == '-' {
        if all_digits(text.skip(1)) {
            Some(-(digits_value(text.skip(1)) as int))
        } else {
            None
        }
    } else if text.len() > 0 && text[0] == '+' {
        if all_digits(text.skip(1)) {
            Some(digits_value(text.skip(1)) as int)
        } else {
            None
        }
    } else if all_digits(text) {
        Some(digits_value(text) as int)
    } else {
        None
    }
}

/// `str::parse` for an `i32`: the integer that the text writes in decimal,
/// where it writes one that an `i32` can hold, and an error otherwise.
#[verifier::external_body]
pub(crate) fn parse_i32(text: &str) -> (r: Result<i32, core::num::ParseIntError>)
    ensures
        match r {
            Ok(value) => decimal_integer(text@) == Some(value as int),
            Err(_) => match decimal_integer(text@) {
                Some(value) => value < i32::MIN || value > i32::MAX,
                None => true,
            },
        },
{
    text.parse::<i32>()
}

/// A fresh random identifier: `uuid::Uuid::new_v4`, turned into its 128-bit
/// value by `Uuid::as_u128`. Nothing is claimed of the value: it comes from
/// the system's random source.
#[verifier::external_body]
pub(crate) fn new_id() -> u128 {
    uuid::Uuid::new_v4().as_u128()
}

/// The text that `uuid::Uuid` displays (`to_string`) for the identifier that
/// `Uuid::from_u128` makes of this value. Claimed: it is the hyphenated form
/// in lower case, the most significant digit first.
#[verifier::external_body]
pub(crate) fn id_text(id: u128) -> (r: String)
    ensures
        r@ == hyphenated(id),
{
    uuid::Uuid::from_u128(id).to_string()
}

/// `sanitize_filename::sanitize` with its default options. The result is
/// named, for one of the two values of the flag that the build fixed. Claimed
/// beyond the name, for either value: no reserved or control character is
/// left, the result has at most 255 characters, and it is neither `.` nor
/// `..` (a name of dots only is emptied, and what is cut for its length stays
/// longer than that).
#[verifier::external_body]
pub(crate) fn sanitized(name: &str) -> (r: String)
    ensures
        exists|windows: bool| r@ == #[trigger] sanitized_name(name@, windows),
        r@.len() <= 255,
        forall|i: int| 0 <= i < r@.len() ==> !unsafe_in_file_name(#[trigger] r@[i]),
        !is_dot_name(r@),
{
    sanitize_filename::sanitize(name)
}

/// The current time: `chrono::Utc::now`, read by `DateTime::timestamp_millis`
/// as milliseconds since the Unix epoch. Nothing is claimed of the value: it
/// comes from the system's clock.
#[verifier::external_body]
pub(crate) fn now_millis() -> i64 {
    chrono::Utc::now().timestamp_millis()
}

/// Day, month, year, hour and minute of an instant in UTC: the instant is made
/// by `chrono::DateTime::from_timestamp_micros` and written by
/// `DateTime::format` with the pattern `%d/%m/%Y %H:%M`. The contract only
/// names the result.
#[verifier::external_body]
pub(crate) fn utc_minute_text(micros: i64) -> (r: Option<String>)
    ensures
        match r {
            Some(text) => utc_minute(micros) == Some(text@),
            None => utc_minute(micros) is None,
        },
{
    match chrono::DateTime::from_timestamp_micros(micros) {
        Some(instant) => Some(instant.format("%d/%m/%Y %H:%M").to_string()),
        None => None,
    }
}

/// `serde_json::to_string` on a list of strings; an error comes back as its
/// message. Claimed beyond the name of the result: reading the text back with
/// `serde_json::from_str` gives the list that was written.
#[verifier::external_body]
pub(crate) fn strings_to_json(items: &Vec<String>) -> (r: Result<String, String>)
    ensures
        match r {
            Ok(text) => json_of_strings(items.deep_view()) == Some(text@) && strings_of_json(text@)
                == Some(items.deep_view()),
            Err(_) => json_of_strings(items.deep_view()) is None,
        },
{
    match serde_json::to_string(items) {
        Ok(text) => Ok(text),
        Err(e) => Err(e.to_string()),
    }
}

/// `serde_json::from_str` for a list of strings. The contract only names the
/// result.
#[verifier::external_body]
pub(crate) fn strings_from_json(text: &str) -> (r: Option<Vec<String>>)
    ensures
        match r {
            Some(items) => strings_of_json(text@) == Some(items.deep_view()),
            None => strings_of_json(text@) is None,
        },
{
    match serde_json::from_str::<Vec<String>>(text) {
        Ok(items) => Some(items),
        Err(_) => None,
    }
}

/// `String::from_utf8`: the text that the bytes encode, where they are valid
/// UTF-8, and nothing otherwise.
#[verifier::external_body]
pub(crate) fn utf8_text(bytes: Vec<u8>) -> (r: Option<String>)
    ensures
        match r {
            Some(text) => valid_utf8(bytes@) && text@ == decode_utf8(bytes@),
            None => !valid_utf8(bytes@),
        },
{
    match String::from_utf8(bytes) {
        Ok(text) => Some(text),
        Err(_) => None,
    }
}

} // verus!
