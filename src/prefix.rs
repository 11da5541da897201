use vstd::prelude::*;
use vstd::string::StrSliceExecFns;

use number_prefix::NumberPrefix;

verus! {

/// A letter at which number_prefix's parser takes the prefix to begin.
pub open spec fn is_prefix_letter(c: char) -> bool {
    c == 'k' || c == 'K' || c == 'M' || c == 'G' || c == 'T' || c == 'P' || c == 'E' || c
        == 'Z' || c == 'Y'
}

/// Index of the first prefix letter in `s`, or `s.len()` if there is none.
pub open spec fn prefix_start(s: Seq<char>) -> nat
    decreases s.len(),
{
    if s.len() == 0 {
        0
    } else if is_prefix_letter(s[0]) {
        0
    } else {
        1 + prefix_start(s.drop_first())
    }
}

/// A unit letter that the parser strips around the prefix (bytes or metres).
pub open spec fn is_unit_letter(c: char) -> bool {
    c == 'b' || c == 'B' || c == 'm'
}

pub open spec fn strip_unit_front(s: Seq<char>) -> Seq<char>
    decreases s.len(),
{
    if s.len() > 0 && is_unit_letter(s[0]) {
        strip_unit_front(s.drop_first())
    } else {
        s
    }
}

pub open spec fn strip_unit_back(s: Seq<char>) -> Seq<char>
    decreases s.len(),
{
    if s.len() > 0 && is_unit_letter(s.last()) {
        strip_unit_back(s.drop_last())
    } else {
        s
    }
}

/// The prefix word of `s`: what follows the first prefix letter (that letter
/// included), with unit letters stripped from both ends. It is empty exactly
/// when `s` holds no prefix letter.
pub open spec fn prefix_word(s: Seq<char>) -> Seq<char> {
    strip_unit_back(strip_unit_front(s.subrange(prefix_start(s) as int, s.len() as int)))
}

/// The symbol of the prefix that a non-empty prefix word stands for, if any:
/// a decimal prefix from kilo to yotta (`K` is read as kilo), or a binary one
/// from kibi to yobi.
pub open spec fn symbol_of_word(w: Seq<char>) -> Option<Seq<char>> {
    if w.len() == 1 && w[0] == 'K' {
        Some(seq!['k'])
    } else if w.len() == 1 && is_prefix_letter(w[0]) {
        Some(w)
    } else if w.len() == 2 && w[0] != 'k' && is_prefix_letter(w[0]) && w[1] == 'i' {
        Some(w)
    } else {
        None
    }
}

/// The text of the number as number_prefix's parser cuts it from its input:
/// the part before the first prefix letter, with white space trimmed.
pub uninterp spec fn number_text_of(s: Seq<char>) -> Seq<char>;

/// Text split into its prefix and its number, as number_prefix reads it.
pub struct PrefixSplit {
    /// The prefix's symbol (`k`, `M`, ..., `Ki`, `Mi`, ...), if there is one.
    pub symbol: Option<String>,
    /// The text of the number, not yet read as a number.
    pub number: String,
}

/// Relies on number_prefix's `FromStr for NumberPrefix<T>`, here with
/// `T = String` (whose parse never fails): it cuts the text at the first
/// prefix letter, keeps the trimmed part before it as the number, strips
/// `b`, `B` and `m` from both ends of the rest, and reads what is left as a
/// prefix, with no prefix when nothing is left. It fails exactly when what is
/// left is no prefix. The result is returned as the prefix's `symbol()` and
/// the number's text.
#[verifier::external_body]
fn split_prefixed(text: &str) -> (r: Option<PrefixSplit>)
    ensures
        r is None <==> (prefix_word(text@).len() > 0 && symbol_of_word(prefix_word(text@)) is None),
        r matches Some(t) ==> t.number@ == number_text_of(text@),
        r matches Some(t) ==> (prefix_word(text@).len() == 0 <==> t.symbol is None),
        r matches Some(t) ==> (t.symbol matches Some(y) ==> y@ == symbol_of_word(
            prefix_word(text@),
        )->0),
{
    match text.parse::<NumberPrefix<String>>() {
        Ok(NumberPrefix::Standalone(n)) => Some(PrefixSplit { symbol: None, number: n }),
        Ok(NumberPrefix::Prefixed(p, n)) => Some(
            PrefixSplit { symbol: Some(p.symbol().to_string()), number: n },
        ),
        Err(_) => None,
    }
}

} // verus!

verus! {

/// The power of ten that a decimal prefix symbol stands for, from `k` (3) to
/// `Y` (24); none for any other text, the binary prefixes included.
pub open spec fn decimal_exponent(s: Seq<char>) -> Option<u32> {
    if s.len() != 1 {
        None
    } else {
        match s[0] {
            'k' => Some(3),
            'M' => Some(6),
            'G' => Some(9),
            'T' => Some(12),
            'P' => Some(15),
            'E' => Some(18),
            'Z' => Some(21),
            'Y' => Some(24),
            _ => None,
        }
    }
}

/// The power of ten that the prefix word `w` scales the number by: zero for
/// an empty word, and none for a word that names no decimal prefix.
pub open spec fn word_exponent(w: Seq<char>) -> Option<u32> {
    if w.len() == 0 {
        Some(0)
    } else {
        match symbol_of_word(w) {
            Some(y) => decimal_exponent(y),
            None => None,
        }
    }
}

/// The power of ten that the decimal prefix `symbol` stands for.
pub fn symbol_exponent(symbol: &str) -> (r: Option<u32>)
    ensures
        r == decimal_exponent(symbol@),
{
    if symbol.unicode_len() != 1 {
        return None;
    }
    let c = symbol.get_char(0);
    if c == 'k' {
        Some(3)
    } else if c == 'M' {
        Some(6)
    } else if c == 'G' {
        Some(9)
    } else if c == 'T' {
        Some(12)
    } else if c == 'P' {
        Some(15)
    } else if c == 'E' {
        Some(18)
    } else if c == 'Z' {
        Some(21)
    } else if c == 'Y' {
        Some(24)
    } else {
        None
    }
}

/// A magnitude entered with a metric prefix: the number written in `mantissa`
/// times ten to the power `exponent`.
#[derive(Debug, PartialEq, Eq)]
pub struct MetricMagnitude {
    pub mantissa: String,
    pub exponent: u32,
}

#[derive(Clone, Copy, Debug, PartialEq, Eq, Structural)]
pub enum ParseError {
    /// The text holds a prefix that is not a decimal metric one, or the
    /// number before it is malformed.
    InvalidMagnitude,
}

/// Reads a split text as a magnitude: a missing prefix scales by one, a
/// decimal prefix by its power of ten, and any other prefix is refused.
pub fn magnitude_of_split(split: PrefixSplit) -> (r: Result<MetricMagnitude, ParseError>)
    ensures
        r is Err <==> (split.symbol matches Some(y) && decimal_exponent(y@) is None),
        r matches Ok(m) ==> m.mantissa == split.number,
        r matches Ok(m) ==> (split.symbol is None ==> m.exponent == 0),
        r matches Ok(m) ==> (split.symbol matches Some(y) ==> m.exponent == decimal_exponent(
            y@,
        )->0),
{
    match split.symbol {
        None => Ok(MetricMagnitude { mantissa: split.number, exponent: 0 }),
        Some(y) => match symbol_exponent(y.as_str()) {
            Some(e) => Ok(MetricMagnitude { mantissa: split.number, exponent: e }),
            None => Err(ParseError::InvalidMagnitude),
        },
    }
}

/// Parses a magnitude written as a number optionally followed by a decimal
/// metric prefix (`20M`, `2.4 G`, `500`).
pub fn parse_metric_prefixed(text: &str) -> (r: Result<MetricMagnitude, ParseError>)
    ensures
        r is Ok <==> word_exponent(prefix_word(text@)) is Some,
        r matches Ok(m) ==> m.mantissa@ == number_text_of(text@),
        r matches Ok(m) ==> m.exponent == word_exponent(prefix_word(text@))->0,
{
    match split_prefixed(text) {
        Some(split) => magnitude_of_split(split),
        None => Err(ParseError::InvalidMagnitude),
    }
}

} // verus!
