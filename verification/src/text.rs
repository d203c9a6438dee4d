//! Character-level primitives: the text operations every resolver is built on,
//! each with its meaning stated over `Seq<char>`.

use vstd::prelude::*;
use vstd::slice::slice_subrange;

verus! {

/// The characters of `s`, in order, as an indexable vector.
pub fn chars_of(s: &str) -> (chars: Vec<char>)
    ensures
        chars@ == s@,
{
    let mut chars: Vec<char> = Vec::new();
    for c in it: s.chars()
        invariant
            chars@ == it.seq().take(it.index()),
    {
        chars.push(c);
    }
    chars
}

/// Whether `c` carries the Unicode `White_Space` property.
pub open spec fn is_whitespace(c: char) -> bool {
    let u = c as u32;
    ||| 0x09 <= u <= 0x0D
    ||| u == 0x20
    ||| u == 0x85
    ||| u == 0xA0
    ||| u == 0x1680
    ||| 0x2000 <= u <= 0x200A
    ||| u == 0x2028
    ||| u == 0x2029
    ||| u == 0x202F
    ||| u == 0x205F
    ||| u == 0x3000
}

/// `s` without its leading whitespace.
pub open spec fn trim_start(s: Seq<char>) -> Seq<char>
    decreases s.len(),
{
    if s.len() > 0 && is_whitespace(s[0]) {
        trim_start(s.drop_first())
    } else {
        s
    }
}

/// `s` without its trailing whitespace.
pub open spec fn trim_end(s: Seq<char>) -> Seq<char>
    decreases s.len(),
{
    if s.len() > 0 && is_whitespace(s.last()) {
        trim_end(s.drop_last())
    } else {
        s
    }
}

/// `s` without leading and trailing whitespace.
pub open spec fn trim(s: Seq<char>) -> Seq<char> {
    trim_end(trim_start(s))
}

/// Whether `c` is whitespace.
pub fn is_whitespace_char(c: char) -> (b: bool)
    ensures
        b == is_whitespace(c),
{
    let u: u32 = c as u32;
    (0x09 <= u && u <= 0x0D) || u == 0x20 || u == 0x85 || u == 0xA0 || u == 0x1680 || (0x2000 <= u
        && u <= 0x200A) || u == 0x2028 || u == 0x2029 || u == 0x202F || u == 0x205F || u == 0x3000
}

/// Index of the first character of `s` that is not whitespace, or `s.len()`.
pub fn skip_whitespace(s: &[char]) -> (start: usize)
    ensures
        start <= s@.len(),
        trim_start(s@) == s@.skip(start as int),
{
    let mut start: usize = 0;
    assert(s@.skip(0) == s@);
    while start < s.len() && is_whitespace_char(s[start])
        invariant
            start <= s@.len(),
            trim_start(s@) == trim_start(s@.skip(start as int)),
        decreases s@.len() - start,
    {
        assert(s@.skip(start as int).drop_first() == s@.skip(start as int + 1));
        start += 1;
    }
    start
}

/// `s` with whitespace removed from both ends.
pub fn trim_chars(s: &[char]) -> (t: &[char])
    ensures
        t@ == trim(s@),
{
    let start = skip_whitespace(s);
    let mut end: usize = s.len();
    while end > start && is_whitespace_char(s[end - 1])
        invariant
            start <= end <= s@.len(),
            trim(s@) == trim_end(s@.subrange(start as int, end as int)),
        decreases end,
    {
        assert(s@.subrange(start as int, end as int).drop_last() == s@.subrange(
            start as int,
            end as int - 1,
        ));
        end -= 1;
    }
    slice_subrange(s, start, end)
}

/// The text of each slice in `pieces`.
pub open spec fn texts(pieces: Seq<&[char]>) -> Seq<Seq<char>> {
    pieces.map_values(|p: &[char]| p@)
}

/// Index of the first `sep` in `s`, or `s.len()` when `s` holds none.
pub open spec fn first_index_of(s: Seq<char>, sep: char) -> int
    decreases s.len(),
{
    if s.len() == 0 || s[0] == sep {
        0
    } else {
        1 + first_index_of(s.drop_first(), sep)
    }
}

/// The pieces of `s` between occurrences of `sep`: one more than there are
/// separators, empty pieces included.
pub open spec fn split(s: Seq<char>, sep: char) -> Seq<Seq<char>>
    decreases s.len(),
{
    let i = first_index_of(s, sep);
    if 0 <= i < s.len() {
        seq![s.take(i)] + split(s.skip(i + 1), sep)
    } else {
        seq![s]
    }
}

/// `first_index_of` is the one index before which no `sep` stands and at
/// which one does, or the length.
pub proof fn lemma_first_index_of(s: Seq<char>, sep: char, i: int)
    requires
        0 <= i <= s.len(),
        forall|k: int| 0 <= k < i ==> s[k] != sep,
        i < s.len() ==> s[i] == sep,
    ensures
        first_index_of(s, sep) == i,
    decreases i,
{
    if i > 0 {
        let rest = s.drop_first();
        assert forall|k: int| 0 <= k < i - 1 implies rest[k] != sep by {
            assert(rest[k] == s[k + 1]);
        }
        lemma_first_index_of(rest, sep, i - 1);
    }
}

/// Splits `s` at every `sep`.
pub fn split_chars<'a>(s: &'a [char], sep: char) -> (pieces: Vec<&'a [char]>)
    ensures
        texts(pieces@) == split(s@, sep),
        pieces@.len() >= 1,
{
    let mut pieces: Vec<&'a [char]> = Vec::new();
    let mut start: usize = 0;
    let mut i: usize = 0;
    assert(s@.skip(0) == s@);
    assert(texts(pieces@) == Seq::<Seq<char>>::empty());
    while i < s.len()
        invariant
            start <= i <= s@.len(),
            forall|k: int| start <= k < i ==> s@[k] != sep,
            split(s@, sep) == texts(pieces@) + split(s@.skip(start as int), sep),
        decreases s@.len() - i,
    {
        if s[i] == sep {
            let piece = slice_subrange(s, start, i);
            proof {
                let rest = s@.skip(start as int);
                lemma_first_index_of(rest, sep, i - start);
                assert(rest.take(i - start) == piece@);
                assert(rest.skip(i - start + 1) == s@.skip(i as int + 1));
                assert(texts(pieces@.push(piece)) == texts(pieces@).push(piece@));
            }
            pieces.push(piece);
            start = i + 1;
        }
        i += 1;
    }
    let piece = slice_subrange(s, start, s.len());
    proof {
        let rest = s@.skip(start as int);
        lemma_first_index_of(rest, sep, rest.len() as int);
        assert(rest == piece@);
        assert(texts(pieces@.push(piece)) == texts(pieces@).push(piece@));
    }
    pieces.push(piece);
    pieces
}

/// Whether `c` is one of the ten ASCII digits.
pub open spec fn is_digit(c: char) -> bool {
    0x30 <= c as u32 <= 0x39
}

/// The number that the digit `c` stands for.
pub open spec fn digit_value(c: char) -> nat {
    (c as u32 - 0x30) as nat
}

/// Whether `s` consists of ASCII digits only.
pub open spec fn all_digits(s: Seq<char>) -> bool {
    forall|i: int| 0 <= i < s.len() ==> is_digit(#[trigger] s[i])
}

/// The number that the digits `s` denote in base ten, most significant first.
pub open spec fn digits_value(s: Seq<char>) -> nat
    decreases s.len(),
{
    if s.len() == 0 {
        0
    } else {
        digits_value(s.drop_last()) * 10 + digit_value(s.last())
    }
}

/// The number that unsigned decimal text denotes: an optional `+`, then at
/// least one digit, and nothing else.
pub open spec fn unsigned_decimal(s: Seq<char>) -> Option<nat> {
    let digits = if s.len() > 0 && s[0] == '+' {
        s.drop_first()
    } else {
        s
    };
    if digits.len() > 0 && all_digits(digits) {
        Some(digits_value(digits))
    } else {
        None
    }
}

/// The number that signed decimal text denotes: an optional `+` or `-`, then
/// at least one digit, and nothing else.
pub open spec fn signed_decimal(s: Seq<char>) -> Option<int> {
    if s.len() > 0 && s[0] == '-' {
        let digits = s.drop_first();
        if digits.len() > 0 && all_digits(digits) {
            Some(-(digits_value(digits) as int))
        } else {
            None
        }
    } else {
        match unsigned_decimal(s) {
            Some(n) => Some(n as int),
            None => None,
        }
    }
}

/// What `s` denotes as a `u32`, if it denotes one that fits.
pub open spec fn parse_u32(s: Seq<char>) -> Option<u32> {
    match unsigned_decimal(s) {
        Some(n) if n <= u32::MAX => Some(n as u32),
        _ => None,
    }
}

/// What `s` denotes as a `u8`, if it denotes one that fits.
pub open spec fn parse_u8(s: Seq<char>) -> Option<u8> {
    match unsigned_decimal(s) {
        Some(n) if n <= u8::MAX => Some(n as u8),
        _ => None,
    }
}

/// What `s` denotes as an `i32`, if it denotes one that fits.
pub open spec fn parse_i32(s: Seq<char>) -> Option<i32> {
    match signed_decimal(s) {
        Some(n) if i32::MIN <= n <= i32::MAX => Some(n as i32),
        _ => None,
    }
}

/// What `s` denotes as a flag: a number that fits a `u32`, zero for `false`
/// and anything else for `true`.
pub open spec fn parse_flag(s: Seq<char>) -> Option<bool> {
    match parse_u32(s) {
        Some(n) => Some(n != 0),
        None => None,
    }
}

/// A longer run of digits never denotes less than a prefix of it.
pub proof fn lemma_digits_value_prefix(s: Seq<char>, k: int)
    requires
        0 <= k <= s.len(),
    ensures
        digits_value(s.take(k)) <= digits_value(s),
    decreases s.len() - k,
{
    if k == s.len() {
        assert(s.take(k) == s);
    } else {
        lemma_digits_value_prefix(s.drop_last(), k);
        assert(s.drop_last().take(k) == s.take(k));
    }
}

/// The value of the digits `s`, when there is at least one, all are digits
/// and the value is at most `max`.
pub fn parse_digits(s: &[char], max: u32) -> (value: Option<u32>)
    ensures
        value == if s@.len() > 0 && all_digits(s@) && digits_value(s@) <= max {
            Some(digits_value(s@) as u32)
        } else {
            None
        },
{
    if s.len() == 0 {
        return None;
    }
    let limit: u64 = max as u64;
    let mut acc: u64 = 0;
    let mut i: usize = 0;
    assert(s@.take(0) == Seq::<char>::empty());
    while i < s.len()
        invariant
            i <= s@.len(),
            limit == max,
            all_digits(s@.take(i as int)),
            acc == digits_value(s@.take(i as int)),
            acc <= limit,
        decreases s@.len() - i,
    {
        let u: u32 = s[i] as u32;
        if u < 0x30 || u > 0x39 {
            return None;
        }
        let next: u64 = acc * 10 + (u - 0x30) as u64;
        proof {
            let longer = s@.take(i as int + 1);
            assert(longer.drop_last() == s@.take(i as int));
            assert(longer.last() == s@[i as int]);
            assert(next == digits_value(longer));
            lemma_digits_value_prefix(s@, i as int + 1);
        }
        if next > limit {
            return None;
        }
        acc = next;
        i += 1;
    }
    assert(s@.take(i as int) == s@);
    Some(acc as u32)
}

/// The number that `s` denotes, when it is unsigned decimal text for a
/// number up to `max`.
pub fn parse_unsigned(s: &[char], max: u32) -> (value: Option<u32>)
    ensures
        value == match unsigned_decimal(s@) {
            Some(n) if n <= max => Some(n as u32),
            _ => None,
        },
{
    if s.len() > 0 && s[0] == '+' {
        let digits = slice_subrange(s, 1, s.len());
        assert(digits@ == s@.drop_first());
        parse_digits(digits, max)
    } else {
        parse_digits(s, max)
    }
}

/// A kind of value that the text of an entry can denote.
pub trait Scalar: Copy {
    /// The value that `text` denotes, if it denotes one.
    spec fn from_text(text: Seq<char>) -> Option<Self>;

    /// Reads a value from `text`.
    fn parse(text: &[char]) -> (value: Option<Self>)
        ensures
            value == Self::from_text(text@),
    ;
}

impl Scalar for u32 {
    open spec fn from_text(text: Seq<char>) -> Option<u32> {
        parse_u32(text)
    }

    fn parse(text: &[char]) -> (value: Option<u32>) {
        parse_unsigned(text, 0xFFFF_FFFF)
    }
}

impl Scalar for u8 {
    open spec fn from_text(text: Seq<char>) -> Option<u8> {
        parse_u8(text)
    }

    fn parse(text: &[char]) -> (value: Option<u8>) {
        match parse_unsigned(text, 0xFF) {
            Some(n) => Some(n as u8),
            None => None,
        }
    }
}

impl Scalar for bool {
    open spec fn from_text(text: Seq<char>) -> Option<bool> {
        parse_flag(text)
    }

    fn parse(text: &[char]) -> (value: Option<bool>) {
        match parse_unsigned(text, 0xFFFF_FFFF) {
            Some(n) => Some(n != 0),
            None => None,
        }
    }
}

impl Scalar for i32 {
    open spec fn from_text(text: Seq<char>) -> Option<i32> {
        parse_i32(text)
    }

    fn parse(text: &[char]) -> (value: Option<i32>) {
        if text.len() > 0 && text[0] == '-' {
            let digits = slice_subrange(text, 1, text.len());
            assert(digits@ == text@.drop_first());
            match parse_digits(digits, 0x8000_0000) {
                Some(n) => Some((0 - n as i64) as i32),
                None => None,
            }
        } else {
            match parse_unsigned(text, 0x7FFF_FFFF) {
                Some(n) => Some(n as i32),
                None => None,
            }
        }
    }
}

/// `String::push` appends the one character to the end of the string.
pub assume_specification[ String::push ](s: &mut String, c: char)
    ensures
        final(s)@ == old(s)@.push(c),
;

/// The ASCII digit that stands for `d`, for `d` below ten.
pub open spec fn digit_char(d: nat) -> char {
    ((0x30 + d) as u8) as char
}

/// `n` written in base ten, without sign or leading zeros.
pub open spec fn decimal(n: nat) -> Seq<char>
    decreases n,
{
    if n < 10 {
        seq![digit_char(n)]
    } else {
        decimal(n / 10).push(digit_char(n % 10))
    }
}

/// Appends `n`, written in base ten, to `out`.
pub fn push_decimal(out: &mut String, n: u32)
    ensures
        final(out)@ == old(out)@ + decimal(n as nat),
    decreases n,
{
    if n >= 10 {
        push_decimal(out, n / 10);
    }
    let d: u8 = (n % 10) as u8;
    out.push((0x30u8 + d) as char);
    proof {
        if n >= 10 {
            assert(out@ == old(out)@ + decimal(n as nat / 10).push(digit_char(n as nat % 10)));
        } else {
            assert(out@ == old(out)@ + seq![digit_char(n as nat)]);
        }
    }
}

/// Whether `a` and `b` hold the same characters.
pub fn same_text(a: &[char], b: &[char]) -> (same: bool)
    ensures
        same == (a@ == b@),
{
    if a.len() != b.len() {
        return false;
    }
    let mut i: usize = 0;
    while i < a.len()
        invariant
            i <= a@.len(),
            a@.len() == b@.len(),
            a@.take(i as int) == b@.take(i as int),
        decreases a@.len() - i,
    {
        if a[i] != b[i] {
            return false;
        }
        assert(a@.take(i as int + 1) == a@.take(i as int).push(a@[i as int]));
        assert(b@.take(i as int + 1) == b@.take(i as int).push(b@[i as int]));
        i += 1;
    }
    assert(a@.take(i as int) == a@);
    assert(b@.take(i as int) == b@);
    true
}

} // verus!
