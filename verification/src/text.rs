//! Text building blocks: numerals, character sequences and substring search.
//!
//! Records and filters speak of text as sequences of characters. Everything here
//! is stated over `Seq<char>`, the view of `String` and `str`.

use vstd::prelude::*;

verus! {

/// Appends one character to a string, as `String::push` does: the string
/// afterwards is the string before with `c` at its end.
#[verifier::external_body]
pub(crate) fn push_char(s: &mut String, c: char)
    ensures
        final(s)@ == old(s)@.push(c),
{
    s.push(c);
}

/// What `str::to_uppercase` returns for a text. Unicode decides it, character by
/// character and sometimes by context, so it is left without a definition.
pub uninterp spec fn uppercase_of(s: Seq<char>) -> Seq<char>;

/// What `str::to_lowercase` returns for a text.
pub uninterp spec fn lowercase_of(s: Seq<char>) -> Seq<char>;

/// Calls `str::to_uppercase`. Nothing is claimed of the result but that it is
/// the upper-case form that the standard library gives to this text.
#[verifier::external_body]
pub(crate) fn to_upper(s: &str) -> (r: String)
    ensures
        r@ == uppercase_of(s@),
{
    s.to_uppercase()
}

/// Calls `str::to_lowercase`. Nothing is claimed of the result but that it is
/// the lower-case form that the standard library gives to this text.
#[verifier::external_body]
pub(crate) fn to_lower(s: &str) -> (r: String)
    ensures
        r@ == lowercase_of(s@),
{
    s.to_lowercase()
}

/// The character that stands for a digit below ten.
pub open spec fn digit_char(d: int) -> char {
    seq!['0', '1', '2', '3', '4', '5', '6', '7', '8', '9'][d]
}

/// The decimal numeral of `n`, without leading zeros.
pub open spec fn decimal(n: nat) -> Seq<char>
    decreases n,
{
    if n < 10 {
        seq![digit_char(n as int)]
    } else {
        decimal(n / 10).push(digit_char((n % 10) as int))
    }
}

fn digit_of(d: u64) -> (c: char)
    requires
        d < 10,
    ensures
        c == digit_char(d as int),
{
    if d == 0 {
        '0'
    } else if d == 1 {
        '1'
    } else if d == 2 {
        '2'
    } else if d == 3 {
        '3'
    } else if d == 4 {
        '4'
    } else if d == 5 {
        '5'
    } else if d == 6 {
        '6'
    } else if d == 7 {
        '7'
    } else if d == 8 {
        '8'
    } else {
        '9'
    }
}

/// Appends the decimal numeral of `n`.
pub fn push_decimal(s: &mut String, n: u64)
    ensures
        final(s)@ == old(s)@ + decimal(n as nat),
    decreases n,
{
    if n >= 10 {
        push_decimal(s, n / 10);
    }
    push_char(s, digit_of(n % 10));
}

/// The decimal numeral of a byte.
pub open spec fn decimal_u8(n: u8) -> Seq<char> {
    decimal(n as nat)
}

/// The decimal numeral of a 16-bit number.
pub open spec fn decimal_u16(n: u16) -> Seq<char> {
    decimal(n as nat)
}

/// Appends the decimal numeral of a byte.
pub fn push_decimal_u8(s: &mut String, n: u8)
    ensures
        final(s)@ == old(s)@ + decimal_u8(n),
{
    push_decimal(s, n as u64);
}

/// Appends the decimal numeral of a 16-bit number.
pub fn push_decimal_u16(s: &mut String, n: u16)
    ensures
        final(s)@ == old(s)@ + decimal_u16(n),
{
    push_decimal(s, n as u64);
}

/// The characters of a text, in order.
pub fn chars_of(s: &str) -> (v: Vec<char>)
    ensures
        v@ == s@,
{
    let mut v: Vec<char> = Vec::new();
    for c in it: s.chars()
        invariant
            it.seq() == s@,
            v@ == it.seq().take(it.index()),
    {
        v.push(c);
    }
    v
}

/// Whether two texts are the same.
pub fn same_text(a: &str, b: &str) -> (r: bool)
    ensures
        r == (a@ == b@),
{
    a.to_string() == b.to_string()
}

/// The texts of a list of strings.
pub open spec fn texts(names: Seq<String>) -> Seq<Seq<char>> {
    Seq::new(names.len(), |i: int| names[i]@)
}

/// Whether a text is among the texts of a list.
pub fn has_text(names: &Vec<String>, wanted: &str) -> (r: bool)
    ensures
        r == texts(names@).contains(wanted@),
{
    let mut i: usize = 0;
    while i < names.len()
        invariant
            i <= names.len(),
            forall|j: int| 0 <= j < i ==> texts(names@)[j] != wanted@,
        decreases names.len() - i,
    {
        if same_text(names[i].as_str(), wanted) {
            proof {
                assert(texts(names@)[i as int] == wanted@);
            }
            return true;
        }
        i += 1;
    }
    false
}

/// `needle` stands in `hay` at position `at`.
pub open spec fn occurs_at(needle: Seq<char>, hay: Seq<char>, at: int) -> bool {
    &&& 0 <= at
    &&& at + needle.len() <= hay.len()
    &&& hay.subrange(at, at + needle.len()) == needle
}

/// `needle` stands somewhere in `hay`. The empty text stands in every text.
pub open spec fn is_infix(needle: Seq<char>, hay: Seq<char>) -> bool {
    exists|at: int| occurs_at(needle, hay, at)
}

fn matches_at(needle: &Vec<char>, hay: &Vec<char>, at: usize) -> (r: bool)
    requires
        at + needle.len() <= hay.len(),
    ensures
        r == occurs_at(needle@, hay@, at as int),
{
    let mut k: usize = 0;
    while k < needle.len()
        invariant
            k <= needle.len(),
            at + needle.len() <= hay.len(),
            forall|j: int| 0 <= j < k ==> hay@[at + j] == needle@[j],
        decreases needle.len() - k,
    {
        if hay[at + k] != needle[k] {
            proof {
                let window = hay@.subrange(at as int, at + needle.len());
                assert(window[k as int] == hay@[at + k]);
            }
            return false;
        }
        k += 1;
    }
    proof {
        assert(hay@.subrange(at as int, at + needle.len()) =~= needle@);
    }
    true
}

/// Whether `needle` stands somewhere in `hay`.
pub fn contains_chars(hay: &Vec<char>, needle: &Vec<char>) -> (r: bool)
    ensures
        r == is_infix(needle@, hay@),
{
    if needle.len() > hay.len() {
        return false;
    }
    let last: usize = hay.len() - needle.len();
    let mut at: usize = 0;
    while at < last
        invariant
            last == hay.len() - needle.len(),
            needle.len() <= hay.len(),
            at <= last,
            forall|j: int| 0 <= j < at ==> !occurs_at(needle@, hay@, j),
        decreases last - at,
    {
        if matches_at(needle, hay, at) {
            return true;
        }
        at += 1;
    }
    matches_at(needle, hay, last)
}

} // verus!
