//! Text helpers: comparison, search, trimming, replacement and decimal
//! numerals, each stated over sequences of characters.

use vstd::prelude::*;

verus! {

/// `String::push` appends one character at the end of the text.
pub assume_specification[ String::push ](s: &mut String, c: char)
    ensures
        final(s)@ == old(s)@.push(c),
;

/// `std::str::from_utf8` accepts exactly the byte sequences that are valid
/// UTF-8, and the text it hands out holds the characters they encode.
#[verifier::external_body]
pub(crate) fn utf8_text(bytes: &[u8]) -> (text: Option<&str>)
    ensures
        text is Some <==> vstd::utf8::valid_utf8(bytes@),
        text matches Some(t) ==> t@ == vstd::utf8::decode_utf8(bytes@),
{
    std::str::from_utf8(bytes).ok()
}

/// The text that the debug formatter of `str` writes for `text`: the text in
/// double quotes, with the characters escaped that the formatter escapes.
pub uninterp spec fn quoted(text: Seq<char>) -> Seq<char>;

/// The debug formatter of `str`. Which characters it escapes, and how, is not
/// stated: the result is only known to depend on the text alone.
#[verifier::external_body]
pub(crate) fn quoted_text(text: &str) -> (rendered: String)
    ensures
        rendered@ == quoted(text@),
{
    format!("{:?}", text)
}

/// Whether two texts hold the same characters.
pub fn same_text(a: &str, b: &str) -> (same: bool)
    ensures
        same == (a@ == b@),
{
    broadcast use vstd::utf8::encode_utf8_decode_utf8;

    let x: &[u8] = a.as_bytes();
    let y: &[u8] = b.as_bytes();
    if x.len() != y.len() {
        return false;
    }
    let mut i: usize = 0;
    while i < x.len()
        invariant
            x@ == vstd::utf8::encode_utf8(a@),
            y@ == vstd::utf8::encode_utf8(b@),
            x@.len() == y@.len(),
            i <= x@.len(),
            forall|j: int| 0 <= j < i ==> x@[j] == y@[j],
        decreases x@.len() - i,
    {
        if x[i] != y[i] {
            return false;
        }
        i += 1;
    }
    proof {
        assert(x@ =~= y@);
        assert(vstd::utf8::decode_utf8(vstd::utf8::encode_utf8(a@)) == a@);
        assert(vstd::utf8::decode_utf8(vstd::utf8::encode_utf8(b@)) == b@);
    }
    true
}

/// The characters of a text, one by one.
pub fn characters(text: &str) -> (chars: Vec<char>)
    ensures
        chars@ == text@,
{
    let mut chars: Vec<char> = Vec::new();
    for c in iter: text.chars()
        invariant
            iter.seq() == text@,
            chars@ == text@.take(iter.index() as int),
    {
        assert(text@.take(iter.index() as int + 1) =~= text@.take(iter.index() as int).push(c));
        chars.push(c);
    }
    assert(text@.take(text@.len() as int) =~= text@);
    chars
}

/// The text made of the characters from `from` up to, but not including, `to`.
pub fn text_between(chars: &Vec<char>, from: usize, to: usize) -> (text: String)
    requires
        from <= to <= chars@.len(),
    ensures
        text@ == chars@.subrange(from as int, to as int),
{
    let mut text = String::new();
    let mut i: usize = from;
    while i < to
        invariant
            from <= i <= to <= chars@.len(),
            text@ == chars@.subrange(from as int, i as int),
        decreases to - i,
    {
        assert(chars@.subrange(from as int, i + 1) =~= chars@.subrange(from as int, i as int).push(
            chars@[i as int],
        ));
        text.push(chars[i]);
        i += 1;
    }
    text
}

/// Whether `needle` stands in `text` at position `at`.
pub open spec fn occurs_at(text: Seq<char>, needle: Seq<char>, at: int) -> bool {
    &&& 0 <= at
    &&& at + needle.len() <= text.len()
    &&& text.subrange(at, at + needle.len()) == needle
}

/// Whether `needle` stands anywhere in `text`.
pub open spec fn occurs(text: Seq<char>, needle: Seq<char>) -> bool {
    exists|at: int| #[trigger] occurs_at(text, needle, at)
}

/// Decides whether `needle` stands in `text` at position `at`.
pub fn matches_at(text: &Vec<char>, needle: &Vec<char>, at: usize) -> (found: bool)
    requires
        at <= text@.len(),
    ensures
        found == occurs_at(text@, needle@, at as int),
{
    if needle.len() > text.len() - at {
        return false;
    }
    let mut i: usize = 0;
    while i < needle.len()
        invariant
            i <= needle@.len(),
            at + needle.len() <= text.len(),
            forall|j: int| 0 <= j < i ==> text@[at + j] == needle@[j],
        decreases needle@.len() - i,
    {
        if text[at + i] != needle[i] {
            assert(text@.subrange(at as int, at + needle@.len())[i as int] == text@[at + i]);
            return false;
        }
        i += 1;
    }
    assert(text@.subrange(at as int, at + needle@.len()) =~= needle@);
    true
}

/// The leftmost position at which `needle` stands in `text`.
pub fn find(text: &Vec<char>, needle: &Vec<char>) -> (at: Option<usize>)
    ensures
        match at {
            Some(i) => occurs_at(text@, needle@, i as int) && forall|j: int|
                0 <= j < i ==> !#[trigger] occurs_at(text@, needle@, j),
            None => !occurs(text@, needle@),
        },
{
    let mut i: usize = 0;
    loop
        invariant
            i <= text@.len(),
            forall|j: int| 0 <= j < i ==> !#[trigger] occurs_at(text@, needle@, j),
        decreases text@.len() - i,
    {
        if matches_at(text, needle, i) {
            return Some(i);
        }
        if i == text.len() {
            return None;
        }
        i += 1;
    }
}

/// Whether `text` begins with `prefix`.
pub fn has_prefix(text: &str, prefix: &str) -> (found: bool)
    ensures
        found == prefix@.is_prefix_of(text@),
{
    let chars: Vec<char> = characters(text);
    let head: Vec<char> = characters(prefix);
    matches_at(&chars, &head, 0)
}

/// The characters that Unicode marks as `White_Space`.
pub open spec fn white_space(c: char) -> bool {
    let p = c as u32;
    ||| 0x09 <= p <= 0x0d
    ||| p == 0x20
    ||| p == 0x85
    ||| p == 0xa0
    ||| p == 0x1680
    ||| 0x2000 <= p <= 0x200a
    ||| p == 0x2028
    ||| p == 0x2029
    ||| p == 0x202f
    ||| p == 0x205f
    ||| p == 0x3000
}

/// Decides whether a character is white space.
pub fn is_white_space(c: char) -> (white: bool)
    ensures
        white == white_space(c),
{
    let p: u32 = c as u32;
    (0x09 <= p && p <= 0x0d) || p == 0x20 || p == 0x85 || p == 0xa0 || p == 0x1680 || (0x2000 <= p
        && p <= 0x200a) || p == 0x2028 || p == 0x2029 || p == 0x202f || p == 0x205f || p == 0x3000
}

/// The text without the white space at its front.
pub open spec fn trimmed_front(text: Seq<char>) -> Seq<char>
    decreases text.len(),
{
    if text.len() > 0 && white_space(text.first()) {
        trimmed_front(text.drop_first())
    } else {
        text
    }
}

/// The text without the white space at its back.
pub open spec fn trimmed_back(text: Seq<char>) -> Seq<char>
    decreases text.len(),
{
    if text.len() > 0 && white_space(text.last()) {
        trimmed_back(text.drop_last())
    } else {
        text
    }
}

/// The text without the white space at either end.
pub open spec fn trimmed(text: Seq<char>) -> Seq<char> {
    trimmed_back(trimmed_front(text))
}

/// Whether nothing but white space is in the text.
pub open spec fn blank(text: Seq<char>) -> bool {
    forall|i: int| 0 <= i < text.len() ==> white_space(#[trigger] text[i])
}

/// A text is blank exactly when trimming leaves nothing of it.
pub proof fn blank_iff_trimmed_empty(text: Seq<char>)
    ensures
        blank(text) <==> trimmed(text).len() == 0,
{
    trimmed_front_facts(text);
    trimmed_back_facts(trimmed_front(text));
}

proof fn trimmed_front_facts(text: Seq<char>)
    ensures
        trimmed_front(text).len() == 0 <==> blank(text),
        trimmed_front(text).len() > 0 ==> !white_space(trimmed_front(text)[0]),
    decreases text.len(),
{
    if text.len() > 0 && white_space(text.first()) {
        trimmed_front_facts(text.drop_first());
        if blank(text.drop_first()) {
            assert forall|i: int| 0 <= i < text.len() implies white_space(#[trigger] text[i]) by {
                if i > 0 {
                    assert(text.drop_first()[i - 1] == text[i]);
                }
            }
        }
        if blank(text) {
            assert forall|i: int| 0 <= i < text.len() - 1 implies white_space(
                #[trigger] text.drop_first()[i],
            ) by {
                assert(text.drop_first()[i] == text[i + 1]);
            }
        }
    } else if text.len() > 0 {
        assert(!white_space(text[0]));
    }
}

proof fn trimmed_back_facts(text: Seq<char>)
    requires
        text.len() > 0 ==> !white_space(text[0]),
    ensures
        trimmed_back(text).len() == 0 <==> text.len() == 0,
    decreases text.len(),
{
    if text.len() > 0 && white_space(text.last()) {
        assert(text.len() > 1);
        assert(text.drop_last()[0] == text[0]);
        trimmed_back_facts(text.drop_last());
    }
}

/// Trims the white space at both ends.
pub fn trim(text: &str) -> (core: String)
    ensures
        core@ == trimmed(text@),
{
    let chars: Vec<char> = characters(text);
    let mut from: usize = 0;
    assert(chars@.skip(0) =~= chars@);
    while from < chars.len() && is_white_space(chars[from])
        invariant
            from <= chars@.len(),
            chars@ == text@,
            trimmed_front(text@) == trimmed_front(chars@.skip(from as int)),
        decreases chars@.len() - from,
    {
        assert(chars@.skip(from as int).drop_first() =~= chars@.skip(from + 1));
        from += 1;
    }
    let mut to: usize = chars.len();
    assert(chars@.subrange(from as int, to as int) =~= chars@.skip(from as int));
    while to > from && is_white_space(chars[to - 1])
        invariant
            from <= to <= chars@.len(),
            chars@ == text@,
            trimmed(text@) == trimmed_back(chars@.subrange(from as int, to as int)),
        decreases to - from,
    {
        assert(chars@.subrange(from as int, to as int).drop_last() =~= chars@.subrange(
            from as int,
            to - 1,
        ));
        to -= 1;
    }
    text_between(&chars, from, to)
}

/// Decides whether nothing but white space is in the text.
pub fn is_blank(text: &str) -> (empty: bool)
    ensures
        empty == blank(text@),
{
    let chars: Vec<char> = characters(text);
    let mut i: usize = 0;
    while i < chars.len()
        invariant
            i <= chars@.len(),
            chars@ == text@,
            forall|j: int| 0 <= j < i ==> white_space(#[trigger] text@[j]),
        decreases chars@.len() - i,
    {
        if !is_white_space(chars[i]) {
            return false;
        }
        i += 1;
    }
    true
}

/// The text with every occurrence of `needle`, taken from the left and without
/// overlap, replaced by `with`. An empty needle stands before every character
/// and at the end.
pub open spec fn replaced(text: Seq<char>, needle: Seq<char>, with: Seq<char>) -> Seq<char>
    decreases text.len(),
{
    if needle.len() == 0 {
        if text.len() == 0 {
            with
        } else {
            with.push(text.first()) + replaced(text.drop_first(), needle, with)
        }
    } else if text.len() == 0 {
        Seq::empty()
    } else if occurs_at(text, needle, 0) {
        with + replaced(text.skip(needle.len() as int), needle, with)
    } else {
        seq![text.first()] + replaced(text.drop_first(), needle, with)
    }
}

/// Replaces every occurrence of `needle` by `with`.
pub fn replace(text: &str, needle: &str, with: &str) -> (result: String)
    ensures
        result@ == replaced(text@, needle@, with@),
{
    let chars: Vec<char> = characters(text);
    let pattern: Vec<char> = characters(needle);
    let mut result = String::new();
    let mut i: usize = 0;
    assert(chars@.skip(0) =~= chars@);
    while i < chars.len()
        invariant
            i <= chars@.len(),
            chars@ == text@,
            pattern@ == needle@,
            result@ + replaced(chars@.skip(i as int), needle@, with@) == replaced(
                text@,
                needle@,
                with@,
            ),
        decreases chars@.len() - i,
    {
        let ghost rest = chars@.skip(i as int);
        let ghost before = result@;
        let here: bool = matches_at(&chars, &pattern, i);
        proof {
            if here {
                assert(rest.subrange(0, needle@.len() as int) =~= chars@.subrange(
                    i as int,
                    i + needle@.len(),
                ));
            } else if i + needle@.len() <= chars@.len() {
                assert(rest.subrange(0, needle@.len() as int) =~= chars@.subrange(
                    i as int,
                    i + needle@.len(),
                ));
            }
            assert(here == occurs_at(rest, needle@, 0));
            assert(rest.drop_first() =~= chars@.skip(i + 1));
        }
        if pattern.len() == 0 {
            result.append(with);
            result.push(chars[i]);
            proof {
                let tail = replaced(chars@.skip(i + 1), needle@, with@);
                assert(result@ + tail =~= before + (with@.push(rest.first()) + tail));
            }
            i += 1;
        } else if here {
            result.append(with);
            proof {
                assert(rest.skip(needle@.len() as int) =~= chars@.skip(i + needle@.len()));
                let tail = replaced(chars@.skip(i + needle@.len()), needle@, with@);
                assert(result@ + tail =~= before + (with@ + tail));
            }
            i += pattern.len();
        } else {
            result.push(chars[i]);
            proof {
                let tail = replaced(chars@.skip(i + 1), needle@, with@);
                assert(result@ + tail =~= before + (seq![rest.first()] + tail));
            }
            i += 1;
        }
    }
    if pattern.len() == 0 {
        result.append(with);
    }
    proof {
        assert(chars@.skip(i as int).len() == 0);
        assert(result@ =~= replaced(text@, needle@, with@)) by {
            reveal_with_fuel(replaced, 2);
        }
    }
    result
}

/// The pieces joined by a separator.
pub open spec fn joined(pieces: Seq<Seq<char>>, separator: Seq<char>) -> Seq<char>
    decreases pieces.len(),
{
    if pieces.len() == 0 {
        Seq::empty()
    } else if pieces.len() == 1 {
        pieces[0]
    } else {
        pieces[0] + separator + joined(pieces.drop_first(), separator)
    }
}

/// The pieces of a text between the occurrences of `needle` that replacement
/// takes.
pub open spec fn pieces_between(text: Seq<char>, needle: Seq<char>) -> Seq<Seq<char>>
    decreases text.len(),
{
    if needle.len() == 0 || text.len() == 0 {
        seq![text]
    } else if occurs_at(text, needle, 0) {
        seq![Seq::<char>::empty()] + pieces_between(text.skip(needle.len() as int), needle)
    } else {
        let rest = pieces_between(text.drop_first(), needle);
        rest.update(0, seq![text.first()] + rest[0])
    }
}

/// Replacement leaves nothing of a non-empty needle but what overlaps the text
/// put in its place: the original is made of pieces joined by the needle, the
/// result of the same pieces joined by the replacement, and the needle stands
/// in none of the pieces.
pub proof fn replacement_takes_every_occurrence(
    text: Seq<char>,
    needle: Seq<char>,
    with: Seq<char>,
)
    requires
        needle.len() > 0,
    ensures
        joined(pieces_between(text, needle), needle) == text,
        joined(pieces_between(text, needle), with) == replaced(text, needle, with),
        forall|i: int|
            0 <= i < pieces_between(text, needle).len() ==> !occurs(
                #[trigger] pieces_between(text, needle)[i],
                needle,
            ),
    decreases text.len(),
{
    let pieces = pieces_between(text, needle);
    if text.len() == 0 {
        assert(pieces =~= seq![text]);
        assert forall|at: int| !#[trigger] occurs_at(text, needle, at) by {}
    } else if occurs_at(text, needle, 0) {
        let tail = text.skip(needle.len() as int);
        replacement_takes_every_occurrence(tail, needle, with);
        pieces_are_some(tail, needle);
        let rest = pieces_between(tail, needle);
        assert(pieces.drop_first() =~= rest);
        assert(text =~= text.subrange(0, needle.len() as int) + tail);
        assert(Seq::<char>::empty() + needle + tail =~= text);
        assert(joined(pieces, with) =~= with + joined(rest, with));
        assert forall|i: int| 0 <= i < pieces.len() implies !occurs(#[trigger] pieces[i], needle) by {
            if i == 0 {
                assert forall|at: int| !#[trigger] occurs_at(pieces[0], needle, at) by {}
            } else {
                assert(pieces[i] == rest[i - 1]);
            }
        }
    } else {
        let tail = text.drop_first();
        replacement_takes_every_occurrence(tail, needle, with);
        pieces_are_some(tail, needle);
        let rest = pieces_between(tail, needle);
        let head = seq![text.first()];
        assert(text =~= head + tail);
        first_piece_grows(rest, head, needle);
        first_piece_grows(rest, head, with);
        assert forall|i: int| 0 <= i < pieces.len() implies !occurs(#[trigger] pieces[i], needle) by {
            if i == 0 {
                first_piece_is_prefix(tail, needle);
                assert forall|at: int| !#[trigger] occurs_at(pieces[0], needle, at) by {
                    if occurs_at(pieces[0], needle, at) {
                        if at == 0 {
                            assert(pieces[0].subrange(0, needle.len() as int) =~= text.subrange(
                                0,
                                needle.len() as int,
                            )) by {
                                assert forall|k: int| 0 <= k < pieces[0].len() implies pieces[0][k]
                                    == text[k] by {
                                    if k > 0 {
                                        assert(rest[0][k - 1] == tail[k - 1]);
                                    }
                                }
                            }
                        } else {
                            assert(pieces[0].subrange(at, at + needle.len())
                                =~= rest[0].subrange(at - 1, at - 1 + needle.len()));
                            assert(occurs_at(rest[0], needle, at - 1));
                        }
                    }
                }
            } else {
                assert(pieces[i] == rest[i]);
            }
        }
    }
}

proof fn pieces_are_some(text: Seq<char>, needle: Seq<char>)
    ensures
        pieces_between(text, needle).len() > 0,
    decreases text.len(),
{
    if needle.len() > 0 && text.len() > 0 && !occurs_at(text, needle, 0) {
        pieces_are_some(text.drop_first(), needle);
    }
}

proof fn first_piece_grows(pieces: Seq<Seq<char>>, head: Seq<char>, separator: Seq<char>)
    requires
        pieces.len() > 0,
    ensures
        joined(pieces.update(0, head + pieces[0]), separator) == head + joined(pieces, separator),
{
    let grown = pieces.update(0, head + pieces[0]);
    assert(grown.drop_first() =~= pieces.drop_first());
    assert(joined(grown, separator) =~= head + joined(pieces, separator));
}

proof fn first_piece_is_prefix(text: Seq<char>, needle: Seq<char>)
    requires
        needle.len() > 0,
    ensures
        pieces_between(text, needle).len() > 0,
        pieces_between(text, needle)[0].len() <= text.len(),
        forall|k: int|
            0 <= k < pieces_between(text, needle)[0].len() ==> #[trigger] pieces_between(
                text,
                needle,
            )[0][k] == text[k],
    decreases text.len(),
{
    pieces_are_some(text, needle);
    if text.len() > 0 && !occurs_at(text, needle, 0) {
        let tail = text.drop_first();
        first_piece_is_prefix(tail, needle);
        let rest = pieces_between(tail, needle);
        let piece = pieces_between(text, needle)[0];
        assert(piece =~= seq![text.first()] + rest[0]);
        assert forall|k: int| 0 <= k < piece.len() implies #[trigger] piece[k] == text[k] by {
            if k > 0 {
                assert(rest[0][k - 1] == tail[k - 1]);
            }
        }
    }
}

/// The character of a decimal digit.
pub open spec fn digit(value: nat) -> char
    recommends
        value < 10,
{
    (48 + value) as char
}

/// The decimal numeral of a number, without leading zeros.
pub open spec fn decimal(value: nat) -> Seq<char>
    decreases value,
{
    if value < 10 {
        seq![digit(value)]
    } else {
        decimal(value / 10).push(digit(value % 10))
    }
}

/// The character of a decimal digit.
pub fn digit_char(value: u8) -> (c: char)
    requires
        value < 10,
    ensures
        c == digit(value as nat),
{
    (48 + value) as char
}

/// Writes a number in decimal.
pub fn decimal_text(value: u128) -> (text: String)
    ensures
        text@ == decimal(value as nat),
    decreases value,
{
    if value < 10 {
        let mut text = String::new();
        text.push(digit_char(value as u8));
        assert(text@ =~= decimal(value as nat));
        text
    } else {
        let mut text = decimal_text(value / 10);
        text.push(digit_char((value % 10) as u8));
        text
    }
}

/// Whether a character is one of the ten decimal digits.
pub open spec fn is_digit(c: char) -> bool {
    48 <= c as u32 <= 57
}

/// Whether every character is a decimal digit.
pub open spec fn all_digits(text: Seq<char>) -> bool {
    forall|i: int| 0 <= i < text.len() ==> is_digit(#[trigger] text[i])
}

/// The number that a row of decimal digits denotes.
pub open spec fn numeral_value(text: Seq<char>) -> nat
    decreases text.len(),
{
    if text.len() == 0 {
        0
    } else {
        numeral_value(text.drop_last()) * 10 + (text.last() as u32 - 48) as nat
    }
}

/// The digits of an unsigned numeral, which may carry a plus sign in front.
pub open spec fn unsigned_digits(text: Seq<char>) -> Seq<char> {
    if text.len() > 0 && text.first() == '+' {
        text.drop_first()
    } else {
        text
    }
}

/// The unsigned 64-bit number that a text denotes: an optional plus sign and
/// then one or more decimal digits, whose value is in range.
pub open spec fn unsigned_value(text: Seq<char>) -> Option<u64> {
    let digits = unsigned_digits(text);
    if digits.len() > 0 && all_digits(digits) && numeral_value(digits) <= u64::MAX {
        Some(numeral_value(digits) as u64)
    } else {
        None
    }
}

proof fn numeral_grows(text: Seq<char>, shorter: int)
    requires
        0 <= shorter <= text.len(),
        all_digits(text),
    ensures
        numeral_value(text.take(shorter)) <= numeral_value(text),
    decreases text.len() - shorter,
{
    if shorter < text.len() {
        let next = text.take(shorter + 1);
        assert(next.drop_last() =~= text.take(shorter));
        assert(is_digit(text[shorter]));
        numeral_grows(text, shorter + 1);
    } else {
        assert(text.take(shorter) =~= text);
    }
}

/// Reads an unsigned 64-bit number.
pub fn parse_unsigned(text: &str) -> (value: Option<u64>)
    ensures
        value == unsigned_value(text@),
{
    let chars: Vec<char> = characters(text);
    let start: usize = if chars.len() > 0 && chars[0] == '+' {
        1
    } else {
        0
    };
    let ghost digits = unsigned_digits(text@);
    assert(digits =~= chars@.skip(start as int));
    if chars.len() == start {
        return None;
    }
    let mut value: u64 = 0;
    let mut i: usize = start;
    assert(digits.take(0) =~= Seq::<char>::empty());
    while i < chars.len()
        invariant
            start <= i <= chars@.len(),
            digits == chars@.skip(start as int),
            digits == unsigned_digits(text@),
            value == numeral_value(digits.take(i - start)),
            forall|j: int| 0 <= j < i - start ==> is_digit(#[trigger] digits[j]),
        decreases chars@.len() - i,
    {
        let c: u32 = chars[i] as u32;
        assert(digits[i - start] == chars@[i as int]);
        if c < 48 || c > 57 {
            return None;
        }
        let ghost next = digits.take(i - start + 1);
        proof {
            assert(next.drop_last() =~= digits.take(i - start));
            assert(numeral_value(next) == value * 10 + (c - 48));
        }
        let wide: u128 = value as u128 * 10 + (c - 48) as u128;
        if wide > 0xffff_ffff_ffff_ffff {
            proof {
                if all_digits(digits) {
                    numeral_grows(digits, i - start + 1);
                }
            }
            return None;
        }
        value = wide as u64;
        i += 1;
    }
    assert(digits.take(i - start) =~= digits);
    Some(value)
}

/// Reading back a number written in decimal gives the number.
pub proof fn unsigned_value_of_decimal(value: u64)
    ensures
        unsigned_value(decimal(value as nat)) == Some(value),
{
    decimal_facts(value as nat);
    let text = decimal(value as nat);
    assert(is_digit(text[0]));
    assert(unsigned_digits(text) == text);
}

proof fn decimal_facts(value: nat)
    ensures
        decimal(value).len() > 0,
        all_digits(decimal(value)),
        numeral_value(decimal(value)) == value,
    decreases value,
{
    if value < 10 {
        let text = decimal(value);
        assert(text.drop_last() =~= Seq::<char>::empty());
        reveal_with_fuel(numeral_value, 2);
    } else {
        decimal_facts(value / 10);
        let text = decimal(value);
        assert(text.drop_last() =~= decimal(value / 10));
        assert forall|i: int| 0 <= i < text.len() implies is_digit(#[trigger] text[i]) by {
            if i < text.len() - 1 {
                assert(text[i] == decimal(value / 10)[i]);
            }
        }
    }
}

/// Trimming takes the white space at both ends and nothing else: of a text
/// between two blank ones, whose own ends are visible, it leaves that text.
pub proof fn trimming_takes_white_space_alone(
    front: Seq<char>,
    core: Seq<char>,
    back: Seq<char>,
)
    requires
        forall|i: int| 0 <= i < front.len() ==> white_space(#[trigger] front[i]),
        forall|i: int| 0 <= i < back.len() ==> white_space(#[trigger] back[i]),
        core.len() > 0 ==> !white_space(core[0]) && !white_space(core[core.len() - 1]),
    ensures
        trimmed(front + core + back) == core,
    decreases front.len() + back.len(),
{
    let text = front + core + back;
    if front.len() > 0 {
        let rest = front.drop_first();
        assert(text.first() == front[0]);
        assert forall|i: int| 0 <= i < rest.len() implies white_space(#[trigger] rest[i]) by {
            assert(rest[i] == front[i + 1]);
        }
        assert(text.drop_first() =~= rest + core + back);
        trimming_takes_white_space_alone(rest, core, back);
    } else if core.len() == 0 {
        assert(text =~= back);
        assert(blank(text));
        blank_iff_trimmed_empty(text);
        assert(trimmed(text) =~= core);
    } else {
        assert(text =~= core + back);
        assert(text.first() == core[0]);
        assert(trimmed(text) == trimmed_back(text));
        trimmed_back_of(core, back);
    }
}

proof fn trimmed_back_of(core: Seq<char>, back: Seq<char>)
    requires
        core.len() > 0,
        !white_space(core[core.len() - 1]),
        forall|i: int| 0 <= i < back.len() ==> white_space(#[trigger] back[i]),
    ensures
        trimmed_back(core + back) == core,
    decreases back.len(),
{
    let text = core + back;
    if back.len() > 0 {
        let rest = back.drop_last();
        assert(text.last() == back[back.len() - 1]);
        assert(text.drop_last() =~= core + rest);
        assert forall|i: int| 0 <= i < rest.len() implies white_space(#[trigger] rest[i]) by {
            assert(rest[i] == back[i]);
        }
        trimmed_back_of(core, rest);
    } else {
        assert(text =~= core);
    }
}

/// A text in which the needle does not stand is not changed by replacement.
pub proof fn nothing_is_replaced_where_nothing_stands(
    text: Seq<char>,
    needle: Seq<char>,
    with: Seq<char>,
)
    requires
        needle.len() > 0,
        !occurs(text, needle),
    ensures
        replaced(text, needle, with) == text,
    decreases text.len(),
{
    if text.len() > 0 {
        assert(!occurs_at(text, needle, 0));
        let tail = text.drop_first();
        assert forall|at: int| !#[trigger] occurs_at(tail, needle, at) by {
            if occurs_at(tail, needle, at) {
                assert(tail.subrange(at, at + needle.len()) =~= text.subrange(
                    at + 1,
                    at + 1 + needle.len(),
                ));
                assert(occurs_at(text, needle, at + 1));
            }
        }
        nothing_is_replaced_where_nothing_stands(tail, needle, with);
        assert(seq![text.first()] + tail =~= text);
    } else {
        assert(replaced(text, needle, with) =~= text);
    }
}

/// A numeral is a row of digits of which the last counts ones and the others
/// are the numeral of the tens; no numeral of more than one digit begins with
/// a zero.
pub proof fn numerals_count_tens_and_ones(tens: nat, ones: nat)
    requires
        ones < 10,
    ensures
        tens > 0 ==> decimal(10 * tens + ones) == decimal(tens).push((('0' as u32) + ones) as char),
        tens == 0 ==> decimal(10 * tens + ones) == seq![(('0' as u32) + ones) as char],
        tens > 0 ==> decimal(tens)[0] != '0',
        all_digits(decimal(tens)),
    decreases tens,
{
    decimal_facts(tens);
    if tens > 0 {
        assert((10 * tens + ones) / 10 == tens && (10 * tens + ones) % 10 == ones);
        if tens >= 10 {
            numerals_count_tens_and_ones(tens / 10, tens % 10);
            decimal_facts(tens / 10);
            assert(decimal(tens)[0] == decimal(tens / 10)[0]);
        }
    }
}

/// A number is read from nothing but digits, with or without a plus sign in
/// front; without one, leading zeros do not matter.
pub proof fn numbers_are_read_from_digits_alone(text: Seq<char>)
    ensures
        unsigned_value(text) is Some ==> text.len() > 0 && forall|i: int|
            0 <= i < text.len() ==> ('0' as u32) <= #[trigger] text[i] as u32 <= ('9' as u32) || (i
                == 0 && text[i] == '+'),
        text.len() > 0 && text[0] != '+' ==> unsigned_value(seq!['+'] + text) == unsigned_value(
            text,
        ) && unsigned_value(seq!['0'] + text) == unsigned_value(text),
        text.len() == 0 ==> unsigned_value(text) is None,
{
    let digits = unsigned_digits(text);
    if unsigned_value(text) is Some {
        assert forall|i: int| 0 <= i < text.len() implies ('0' as u32) <= #[trigger] text[i] as u32
            <= ('9' as u32) || (i == 0 && text[i] == '+') by {
            if text[0] == '+' {
                if i > 0 {
                    assert(is_digit(digits[i - 1]));
                }
            } else {
                assert(is_digit(digits[i]));
            }
        }
    }
    if text.len() > 0 && text[0] != '+' {
        assert((seq!['+'] + text).drop_first() =~= text);
        let longer = seq!['0'] + text;
        leading_zero(text);
        if all_digits(text) {
            assert forall|i: int| 0 <= i < longer.len() implies is_digit(#[trigger] longer[i]) by {
                if i > 0 {
                    assert(is_digit(text[i - 1]));
                }
            }
        }
        if all_digits(longer) {
            assert forall|i: int| 0 <= i < text.len() implies is_digit(#[trigger] text[i]) by {
                assert(is_digit(longer[i + 1]));
            }
        }
    }
}

proof fn leading_zero(text: Seq<char>)
    ensures
        numeral_value(seq!['0'] + text) == numeral_value(text),
    decreases text.len(),
{
    let longer = seq!['0'] + text;
    if text.len() > 0 {
        leading_zero(text.drop_last());
        assert(longer.drop_last() =~= seq!['0'] + text.drop_last());
        assert(longer.last() == text.last());
    } else {
        assert(longer.drop_last() =~= Seq::<char>::empty());
        reveal_with_fuel(numeral_value, 2);
    }
}

} // verus!
