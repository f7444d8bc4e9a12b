//! Store keys: every sighting is filed under `sighting:` followed by its
//! identifier.

use vstd::prelude::*;
use vstd::string::StringExecFns;

verus! {

/// The character that writes the digit `d`.
pub open spec fn digit_char(d: int) -> char {
    if d == 0 {
        '0'
    } else if d == 1 {
        '1'
    } else if d == 2 {
        '2'
    } else if d == 3 {
        '3'
    } else if d == 4 {
        '4'
    } else if d == 5 {
        '5'
    } else if d == 6 {
        '6'
    } else if d == 7 {
        '7'
    } else if d == 8 {
        '8'
    } else {
        '9'
    }
}

/// A natural number in decimal, most significant digit first, without
/// leading zeros.
pub open spec fn decimal_digits(n: nat) -> Seq<char>
    decreases n,
{
    if n < 10 {
        seq![digit_char(n as int)]
    } else {
        decimal_digits(n / 10).push(digit_char((n % 10) as int))
    }
}

/// An integer in decimal: a minus sign for a negative one, then its digits.
pub open spec fn decimal_text(n: int) -> Seq<char> {
    if n < 0 {
        seq!['-'] + decimal_digits((-n) as nat)
    } else {
        decimal_digits(n as nat)
    }
}

/// What every key starts with.
pub open spec fn key_prefix() -> Seq<char> {
    seq!['s', 'i', 'g', 'h', 't', 'i', 'n', 'g', ':']
}

/// The key of the document whose identifier is written `identifier`.
pub open spec fn document_key_text(identifier: Seq<char>) -> Seq<char> {
    key_prefix() + identifier
}

/// The key that a request for the integer identifier `id` looks up.
pub open spec fn sighting_key_text(id: int) -> Seq<char> {
    document_key_text(decimal_text(id))
}

fn digit_str(d: u64) -> (text: &'static str)
    requires
        d < 10,
    ensures
        text@ == seq![digit_char(d as int)],
{
    proof {
        reveal_strlit("0");
        reveal_strlit("1");
        reveal_strlit("2");
        reveal_strlit("3");
        reveal_strlit("4");
        reveal_strlit("5");
        reveal_strlit("6");
        reveal_strlit("7");
        reveal_strlit("8");
        reveal_strlit("9");
    }
    let text = if d == 0 {
        "0"
    } else if d == 1 {
        "1"
    } else if d == 2 {
        "2"
    } else if d == 3 {
        "3"
    } else if d == 4 {
        "4"
    } else if d == 5 {
        "5"
    } else if d == 6 {
        "6"
    } else if d == 7 {
        "7"
    } else if d == 8 {
        "8"
    } else {
        "9"
    };
    assert(text@ =~= seq![digit_char(d as int)]);
    text
}

fn push_decimal_digits(n: u64, out: &mut String)
    ensures
        final(out)@ == old(out)@ + decimal_digits(n as nat),
    decreases n,
{
    if n >= 10 {
        push_decimal_digits(n / 10, out);
    }
    out.append(digit_str(n % 10));
    proof {
        if n >= 10 {
            assert(final(out)@ =~= old(out)@ + decimal_digits(n as nat));
        } else {
            assert(final(out)@ =~= old(out)@ + decimal_digits(n as nat));
        }
    }
}

/// Writes a natural number in decimal.
pub fn decimal_of_natural(n: u64) -> (text: String)
    ensures
        text@ == decimal_text(n as int),
{
    let mut text = String::new();
    push_decimal_digits(n, &mut text);
    assert(text@ =~= decimal_text(n as int));
    text
}

/// Writes an integer in decimal.
pub fn decimal_string(n: i64) -> (text: String)
    ensures
        text@ == decimal_text(n as int),
{
    let mut text = String::new();
    if n < 0 {
        text.append("-");
        proof {
            reveal_strlit("-");
        }
        let magnitude: u64 = (-(n + 1)) as u64 + 1;
        push_decimal_digits(magnitude, &mut text);
        assert(text@ =~= decimal_text(n as int));
    } else {
        push_decimal_digits(n as u64, &mut text);
        assert(text@ =~= decimal_text(n as int));
    }
    text
}

/// The key under which the document with the given identifier is stored.
/// The identifier is used as it is written.
pub fn document_key(identifier: &str) -> (key: String)
    ensures
        key@ == document_key_text(identifier@),
{
    let mut key = String::from_str("sighting:");
    proof {
        reveal_strlit("sighting:");
        assert("sighting:"@ =~= key_prefix());
    }
    key.append(identifier);
    key
}

/// The key that a request for the integer identifier `id` looks up.
pub fn sighting_key(id: i64) -> (key: String)
    ensures
        key@ == sighting_key_text(id as int),
{
    let identifier = decimal_string(id);
    document_key(identifier.as_str())
}

} // verus!
