//! Numbers as they are written. A numeric column is kept as the text that
//! was read, once that text is known to write a number: an optional sign,
//! then `inf`, `infinity` or `nan` in either case, or decimal digits with an
//! optional point and an optional exponent.

use vstd::prelude::*;
use vstd::string::StrSliceExecFns;

verus! {

pub open spec fn is_digit(c: char) -> bool {
    '0' <= c && c <= '9'
}

pub open spec fn is_sign(c: char) -> bool {
    c == '+' || c == '-'
}

pub open spec fn is_exponent_mark(c: char) -> bool {
    c == 'e' || c == 'E'
}

/// Digits with at most one point among them, and at least one digit.
pub open spec fn is_mantissa(m: Seq<char>) -> bool {
    &&& forall|i: int| 0 <= i < m.len() ==> is_digit(#[trigger] m[i]) || m[i] == '.'
    &&& forall|i: int, j: int|
        0 <= i < j < m.len() ==> !(#[trigger] m[i] == '.' && #[trigger] m[j] == '.')
    &&& exists|i: int| 0 <= i < m.len() && is_digit(#[trigger] m[i])
}

/// One digit or more, and nothing else.
pub open spec fn is_digits(digits: Seq<char>) -> bool {
    digits.len() > 0 && forall|i: int| 0 <= i < digits.len() ==> is_digit(#[trigger] digits[i])
}

/// What is left of a text after its sign, if it has one.
pub open spec fn unsigned_part(text: Seq<char>) -> Seq<char> {
    if text.len() > 0 && is_sign(text[0]) {
        text.skip(1)
    } else {
        text
    }
}

/// What follows an exponent mark: an optional sign, then one digit or more.
pub open spec fn is_exponent(x: Seq<char>) -> bool {
    is_digits(unsigned_part(x))
}

/// A mantissa, alone or followed by an exponent mark and an exponent.
pub open spec fn is_decimal(body: Seq<char>) -> bool {
    is_mantissa(body) || exists|k: int|
        0 <= k < body.len() && is_exponent_mark(#[trigger] body[k]) && is_mantissa(body.take(k))
            && is_exponent(body.skip(k + 1))
}

/// Whether `c` is the lower-case letter `letter` or its capital.
pub open spec fn is_letter(c: char, letter: char) -> bool {
    c == letter || (c as int) + 32 == (letter as int)
}

/// Whether `body` spells the lower-case `word`, capitals allowed.
pub open spec fn spells(body: Seq<char>, word: Seq<char>) -> bool {
    body.len() == word.len() && forall|i: int|
        0 <= i < body.len() ==> is_letter(#[trigger] body[i], word[i])
}

/// The names of the values that are not finite.
pub open spec fn is_special(body: Seq<char>) -> bool {
    spells(body, seq!['i', 'n', 'f']) || spells(
        body,
        seq!['i', 'n', 'f', 'i', 'n', 'i', 't', 'y'],
    ) || spells(body, seq!['n', 'a', 'n'])
}

/// Whether `text` writes a number.
pub open spec fn is_number_text(text: Seq<char>) -> bool {
    is_special(unsigned_part(text)) || is_decimal(unsigned_part(text))
}

fn is_digit_char(c: char) -> (yes: bool)
    ensures
        yes == is_digit(c),
{
    c >= '0' && c <= '9'
}

fn is_letter_char(c: char, letter: char) -> (yes: bool)
    ensures
        yes == is_letter(c, letter),
{
    let code: u32 = c as u32;
    let wanted: u32 = letter as u32;
    c == letter || (code <= 0x10ffff && code + 32 == wanted)
}

/// Where the run of digits that starts at `from` ends.
fn digits_end(text: &str, length: usize, from: usize) -> (end: usize)
    requires
        length == text@.len(),
        from <= length,
    ensures
        from <= end <= length,
        forall|i: int| from <= i < end ==> is_digit(#[trigger] text@[i]),
        end < length ==> !is_digit(text@[end as int]),
{
    let mut end: usize = from;
    while end < length
        invariant
            length == text@.len(),
            from <= end <= length,
            forall|i: int| from <= i < end ==> is_digit(#[trigger] text@[i]),
        ensures
            from <= end <= length,
            forall|i: int| from <= i < end ==> is_digit(#[trigger] text@[i]),
            end < length ==> !is_digit(text@[end as int]),
        decreases length - end,
    {
        if !is_digit_char(text.get_char(end)) {
            break;
        }
        end = end + 1;
    }
    end
}

/// Whether what follows position `start` spells `word`.
fn spells_from(text: &str, length: usize, start: usize, word: &str) -> (yes: bool)
    requires
        length == text@.len(),
        start <= length,
    ensures
        yes == spells(text@.skip(start as int), word@),
{
    let wanted = word.unicode_len();
    if length - start != wanted {
        return false;
    }
    let ghost body = text@.skip(start as int);
    let mut at: usize = 0;
    while at < wanted
        invariant
            length == text@.len(),
            start <= length,
            wanted == word@.len(),
            length - start == wanted,
            at <= wanted,
            body == text@.skip(start as int),
            forall|i: int| 0 <= i < at ==> is_letter(#[trigger] body[i], word@[i]),
        decreases wanted - at,
    {
        if !is_letter_char(text.get_char(start + at), word.get_char(at)) {
            assert(body[at as int] == text@[start + at]);
            return false;
        }
        assert(body[at as int] == text@[start + at]);
        at = at + 1;
    }
    true
}

fn special_from(text: &str, length: usize, start: usize) -> (yes: bool)
    requires
        length == text@.len(),
        start <= length,
    ensures
        yes == is_special(text@.skip(start as int)),
{
    proof {
        reveal_strlit("inf");
        reveal_strlit("infinity");
        reveal_strlit("nan");
        assert("inf"@ =~= seq!['i', 'n', 'f']);
        assert("infinity"@ =~= seq!['i', 'n', 'f', 'i', 'n', 'i', 't', 'y']);
        assert("nan"@ =~= seq!['n', 'a', 'n']);
    }
    spells_from(text, length, start, "inf") || spells_from(text, length, start, "infinity")
        || spells_from(text, length, start, "nan")
}

/// A mantissa reaches no further than the digits and the one point that a
/// scan from the start finds: `stop` is the first position that such a scan
/// cannot pass.
proof fn lemma_mantissa_within(body: Seq<char>, point: int, stop: int, k: int)
    requires
        0 <= point <= stop <= body.len(),
        forall|i: int| 0 <= i < stop && i != point ==> is_digit(#[trigger] body[i]),
        point < stop ==> body[point] == '.',
        stop < body.len() ==> !is_digit(body[stop]),
        stop < body.len() && point == stop ==> body[stop] != '.',
        0 <= k <= body.len(),
        is_mantissa(body.take(k)),
    ensures
        k <= stop,
{
    if k > stop {
        let m = body.take(k);
        assert(m[stop] == body[stop]);
        if point < stop {
            assert(m[point] == body[point]);
        }
    }
}

/// Where the longest run of digits with at most one point, from `start`
/// on, stops, and whether that run is a mantissa.
fn mantissa_end(text: &str, length: usize, start: usize) -> (found: (usize, bool))
    requires
        length == text@.len(),
        start <= length,
    ensures
        start <= found.0 <= length,
        found.1 == is_mantissa(text@.skip(start as int).take(found.0 - start)),
        forall|k: int|
            0 <= k <= length - start && is_mantissa(
                #[trigger] text@.skip(start as int).take(k),
            ) ==> k <= found.0 - start,
        forall|i: int|
            0 <= i < found.0 - start ==> !is_exponent_mark(
                #[trigger] text@.skip(start as int)[i],
            ),
{
    let ghost body = text@.skip(start as int);
    let whole_end = digits_end(text, length, start);
    let mut stop: usize = whole_end;
    let mut digits: usize = whole_end - start;
    let mut pointed = false;
    if whole_end < length && text.get_char(whole_end) == '.' {
        stop = digits_end(text, length, whole_end + 1);
        digits = digits + (stop - (whole_end + 1));
        pointed = true;
    }
    let ghost point: int = if pointed {
        whole_end - start
    } else {
        stop - start
    };
    let ghost reach: int = stop - start;
    proof {
        assert forall|i: int| 0 <= i < reach && i != point implies is_digit(#[trigger] body[i]) by {
            assert(body[i] == text@[start + i]);
        }
        if point < reach {
            assert(body[point] == text@[start + point]);
        }
        if reach < body.len() {
            assert(body[reach] == text@[start + reach]);
        }
        assert forall|k: int| 0 <= k <= body.len() && is_mantissa(#[trigger] body.take(k)) implies k
            <= reach by {
            lemma_mantissa_within(body, point, reach, k);
        }
        let m = body.take(reach);
        assert forall|i: int| 0 <= i < m.len() implies #[trigger] m[i] == body[i] by {}
        if digits == 0 {
            assert forall|i: int| 0 <= i < m.len() implies !is_digit(#[trigger] m[i]) by {
                assert(m[i] == body[i]);
            }
            assert(!is_mantissa(m));
        } else {
            assert forall|i: int, j: int| 0 <= i < j < m.len() implies !(#[trigger] m[i] == '.'
                && #[trigger] m[j] == '.') by {
                assert(m[i] == body[i]);
                assert(m[j] == body[j]);
            }
            let witness: int = if pointed && whole_end == start {
                point + 1
            } else {
                0
            };
            assert(0 <= witness < reach);
            assert(m[witness] == body[witness]);
            assert(is_digit(m[witness]));
            assert(is_mantissa(m));
        }
    }
    (stop, digits != 0)
}

/// Whether what follows position `start` is an exponent.
fn exponent_from(text: &str, length: usize, start: usize) -> (yes: bool)
    requires
        length == text@.len(),
        start <= length,
    ensures
        yes == is_exponent(text@.skip(start as int)),
{
    let ghost tail = text@.skip(start as int);
    let mut first: usize = start;
    if first < length {
        let sign = text.get_char(first);
        if sign == '+' || sign == '-' {
            first = first + 1;
        }
    }
    let last = digits_end(text, length, first);
    proof {
        if tail.len() > 0 {
            assert(tail[0] == text@[start as int]);
        }
        let exponent_digits = unsigned_part(tail);
        assert(exponent_digits.len() == length - first);
        assert forall|i: int| 0 <= i < exponent_digits.len() implies #[trigger] exponent_digits[i]
            == text@[first + i] by {}
        if last < length {
            assert(exponent_digits[last - first] == text@[last as int]);
        }
    }
    last > first && last == length
}

/// Whether what follows position `start` is a decimal.
fn decimal_from(text: &str, length: usize, start: usize) -> (yes: bool)
    requires
        length == text@.len(),
        start <= length,
    ensures
        yes == is_decimal(text@.skip(start as int)),
{
    let ghost body = text@.skip(start as int);
    let (stop, valid) = mantissa_end(text, length, start);
    let ghost reach: int = stop - start;
    proof {
        assert(body.take(body.len() as int) =~= body);
        assert forall|k: int|
            0 <= k < body.len() && is_exponent_mark(#[trigger] body[k]) && is_mantissa(
                body.take(k),
            ) implies k == reach by {}
    }
    if !valid {
        return false;
    }
    if stop == length {
        return true;
    }
    let mark = text.get_char(stop);
    proof {
        assert(body[reach] == mark);
        assert(body.skip(reach + 1) =~= text@.skip(stop + 1));
    }
    if !(mark == 'e' || mark == 'E') {
        return false;
    }
    exponent_from(text, length, stop + 1)
}

/// Whether `text` writes a number.
pub fn is_number(text: &str) -> (yes: bool)
    ensures
        yes == is_number_text(text@),
{
    let length = text.unicode_len();
    let mut start: usize = 0;
    if length > 0 {
        let sign = text.get_char(0);
        if sign == '+' || sign == '-' {
            start = 1;
        }
    }
    proof {
        assert(text@.skip(0) =~= text@);
    }
    special_from(text, length, start) || decimal_from(text, length, start)
}

/// A number as it was written. Every value of this type holds a text that
/// writes a number.
#[derive(Debug, PartialEq, Eq)]
pub struct Numeral {
    text: String,
}

impl View for Numeral {
    type V = Seq<char>;

    closed spec fn view(&self) -> Seq<char> {
        self.text@
    }
}

impl Clone for Numeral {
    fn clone(&self) -> (copy: Self)
        ensures
            copy@ == self@,
    {
        proof {
            use_type_invariant(self);
        }
        Numeral { text: self.text.clone() }
    }
}

impl Numeral {
    #[verifier::type_invariant]
    spec fn well_formed(&self) -> bool {
        is_number_text(self.text@)
    }

    /// The numeral that `text` writes, if it writes a number.
    pub fn parse(text: &str) -> (made: Option<Numeral>)
        ensures
            made is Some <==> is_number_text(text@),
            made is Some ==> made->Some_0@ == text@,
    {
        if is_number(text) {
            Some(Numeral { text: String::from_str(text) })
        } else {
            None
        }
    }

    /// The text of the numeral, which writes a number.
    pub fn as_str(&self) -> (text: &str)
        ensures
            text@ == self@,
            is_number_text(text@),
    {
        proof {
            use_type_invariant(self);
        }
        self.text.as_str()
    }
}

} // verus!
