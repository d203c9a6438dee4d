//! The resolution primitives: how one key, one list, one family of numbered
//! keys or one colour is read from the entries of a section. Nothing here
//! fails: what is absent or cannot be read gives the default, or is left out.

use crate::document::{lookup, property_entries, property_get, Entries};
use crate::text::{
    chars_of, decimal, parse_u32, parse_u8, push_decimal, split, split_chars, texts, trim,
    trim_chars, Scalar,
};
use ini::Properties;
use vstd::prelude::*;

verus! {

/// The value under `key` read as a `T`, where the key is present and its
/// text denotes one.
pub open spec fn optional_scalar<T: Scalar>(entries: Entries, key: Seq<char>) -> Option<T> {
    match lookup(entries, key) {
        Some(text) => T::from_text(text),
        None => None,
    }
}

/// The value under `key` read as a `T`; `default` where the key is absent
/// or its text denotes no `T`.
pub open spec fn scalar<T: Scalar>(entries: Entries, key: Seq<char>, default: T) -> T {
    match optional_scalar::<T>(entries, key) {
        Some(value) => value,
        None => default,
    }
}

/// The text under `key`; empty where the key is absent.
pub open spec fn text_value(entries: Entries, key: Seq<char>) -> Seq<char> {
    match lookup(entries, key) {
        Some(text) => text,
        None => Seq::empty(),
    }
}

/// The numbers of a comma-separated list, in order: each piece is trimmed
/// and read as a `u32`, and a piece that is no number is left out.
pub open spec fn number_list(text: Seq<char>) -> Seq<u32> {
    numbers_among(split(text, ','))
}

/// The numbers among `pieces`, in order: what each piece denotes as a
/// `u32` once trimmed, without the pieces that denote none.
pub open spec fn numbers_among(pieces: Seq<Seq<char>>) -> Seq<u32> {
    pieces.filter_map(|piece: Seq<char>| parse_u32(trim(piece)))
}

/// The numbers of the list that `value` holds; none where there is no list.
pub open spec fn optional_number_list(value: Option<Seq<char>>) -> Seq<u32> {
    match value {
        Some(text) => number_list(text),
        None => Seq::empty(),
    }
}

/// The key of member `i` of a family: the prefix, the index in decimal,
/// the suffix.
pub open spec fn family_key(prefix: Seq<char>, i: nat, suffix: Seq<char>) -> Seq<char> {
    prefix + decimal(i) + suffix
}

/// The family of `count` values under `prefix`, numbered from 0: a member
/// whose key is absent or unreadable is `default`.
pub open spec fn family<T: Scalar>(entries: Entries, prefix: Seq<char>, count: u32, default: T) -> Seq<T> {
    Seq::new(
        count as nat,
        |i: int| scalar(entries, family_key(prefix, i as nat, Seq::empty()), default),
    )
}

/// The family of `count` texts under `prefix` and `suffix`, numbered from
/// 0: a member whose key is absent is empty.
pub open spec fn text_family(entries: Entries, prefix: Seq<char>, count: u32, suffix: Seq<char>) -> Seq<Seq<char>> {
    Seq::new(count as nat, |i: int| text_value(entries, family_key(prefix, i as nat, suffix)))
}

/// Component `i` of a colour written as the comma-separated `pieces`.
pub open spec fn component(pieces: Seq<Seq<char>>, i: int) -> Option<u8> {
    parse_u8(trim(pieces[i]))
}

/// The red, green and blue of the colour that `text` denotes: its first
/// three comma-separated pieces, where there are that many and each is a
/// `u8` once trimmed. Further pieces are not looked at.
pub open spec fn rgb(text: Seq<char>) -> Option<Seq<u8>> {
    let pieces = split(text, ',');
    if pieces.len() >= 3 && component(pieces, 0) is Some && component(pieces, 1) is Some
        && component(pieces, 2) is Some {
        Some(seq![component(pieces, 0)->0, component(pieces, 1)->0, component(pieces, 2)->0])
    } else {
        None
    }
}

/// The alpha of the colour that `text` denotes: its fourth piece where
/// there is one and it is a `u8` once trimmed, else 255.
pub open spec fn alpha(text: Seq<char>) -> u8 {
    let pieces = split(text, ',');
    if pieces.len() >= 4 && component(pieces, 3) is Some {
        component(pieces, 3)->0
    } else {
        255
    }
}

/// The colour with alpha that `text` denotes, where it denotes one.
pub open spec fn rgba(text: Seq<char>) -> Option<Seq<u8>> {
    match rgb(text) {
        Some(c) => Some(c.push(alpha(text))),
        None => None,
    }
}

/// The colour with alpha under `key`; `default` where the key is absent
/// or its text denotes no colour.
pub open spec fn rgba_or(entries: Entries, key: Seq<char>, default: Seq<u8>) -> Seq<u8> {
    match lookup(entries, key) {
        Some(text) => match rgba(text) {
            Some(c) => c,
            None => default,
        },
        None => default,
    }
}

/// The colour without alpha under `key`; `default` where the key is absent
/// or its text denotes no colour.
pub open spec fn rgb_or(entries: Entries, key: Seq<char>, default: Seq<u8>) -> Seq<u8> {
    match lookup(entries, key) {
        Some(text) => match rgb(text) {
            Some(c) => c,
            None => default,
        },
        None => default,
    }
}

/// Member `i` of a family of colours: the colour with alpha under the
/// prefix and the index, where the key is present and denotes one.
pub open spec fn numbered_color(entries: Entries, prefix: Seq<char>, i: nat) -> Option<Seq<u8>> {
    match lookup(entries, family_key(prefix, i, Seq::empty())) {
        Some(text) => rgba(text),
        None => None,
    }
}

/// The family of colours under `prefix`, numbered from 1 to `count`: a
/// member whose key is absent or denotes no colour is left out, so the
/// family may have fewer than `count` members.
pub open spec fn color_family(entries: Entries, prefix: Seq<char>, count: u32) -> Seq<Seq<u8>> {
    Seq::new(count as nat, |i: int| numbered_color(entries, prefix, (i + 1) as nat)).filter_map(
        |c: Option<Seq<u8>>| c,
    )
}

/// The text of each string in `strings`.
pub open spec fn string_views(strings: Seq<String>) -> Seq<Seq<char>> {
    strings.map_values(|s: String| s@)
}

/// The components of each colour in `colors`.
pub open spec fn rgba_views(colors: Seq<[u8; 4]>) -> Seq<Seq<u8>> {
    colors.map_values(|c: [u8; 4]| c@)
}

/// The text of an optional string.
pub open spec fn optional_text(value: Option<&str>) -> Option<Seq<char>> {
    match value {
        Some(text) => Some(text@),
        None => None,
    }
}

/// The text of an optional suffix: none is the empty suffix.
pub open spec fn suffix_text(suffix: Option<&str>) -> Seq<char> {
    match suffix {
        Some(text) => text@,
        None => Seq::empty(),
    }
}

/// Reads the value under `key` as a `T`, if there is one to read.
pub fn resolve_optional<T: Scalar>(props: &Properties, key: &str) -> (value: Option<T>)
    ensures
        value == optional_scalar::<T>(property_entries(*props), key@),
{
    match property_get(props, key) {
        Some(text) => {
            let chars = chars_of(text);
            T::parse(chars.as_slice())
        },
        None => None,
    }
}

/// Reads the value under `key` as a `T`, or gives `default`.
pub fn resolve_scalar<T: Scalar>(props: &Properties, key: &str, default: T) -> (value: T)
    ensures
        value == scalar(property_entries(*props), key@, default),
{
    match resolve_optional::<T>(props, key) {
        Some(value) => value,
        None => default,
    }
}

/// Copies the text under `key`, or gives the empty string.
pub fn resolve_text(props: &Properties, key: &str) -> (value: String)
    ensures
        value@ == text_value(property_entries(*props), key@),
{
    match property_get(props, key) {
        Some(text) => text.to_owned(),
        None => String::new(),
    }
}

/// Reads piece `i` of `pieces` as a colour component.
fn parse_component(pieces: &Vec<&[char]>, i: usize) -> (value: Option<u8>)
    requires
        i < pieces@.len(),
    ensures
        value == component(texts(pieces@), i as int),
{
    u8::parse(trim_chars(pieces[i]))
}

/// Reads a colour with alpha from text such as `255,128,64` or
/// `255, 128, 64, 192`. Red, green and blue are required; alpha is 255
/// where the text has no fourth piece or that piece is no `u8`.
pub fn parse_color(color_str: &str) -> (color: Option<[u8; 4]>)
    ensures
        match color {
            Some(c) => rgba(color_str@) == Some(c@),
            None => rgba(color_str@) is None,
        },
{
    let chars = chars_of(color_str);
    let pieces = split_chars(chars.as_slice(), ',');
    if pieces.len() < 3 {
        return None;
    }
    let r = match parse_component(&pieces, 0) {
        Some(v) => v,
        None => return None,
    };
    let g = match parse_component(&pieces, 1) {
        Some(v) => v,
        None => return None,
    };
    let b = match parse_component(&pieces, 2) {
        Some(v) => v,
        None => return None,
    };
    let a = if pieces.len() >= 4 {
        match parse_component(&pieces, 3) {
            Some(v) => v,
            None => 255,
        }
    } else {
        255
    };
    let c = [r, g, b, a];
    assert(c@ == seq![r, g, b].push(a));
    Some(c)
}

/// Reads a colour without alpha from text such as `255,128,64`. A fourth
/// piece is not looked at.
pub fn parse_color_rgb(color_str: &str) -> (color: Option<[u8; 3]>)
    ensures
        match color {
            Some(c) => rgb(color_str@) == Some(c@),
            None => rgb(color_str@) is None,
        },
{
    let chars = chars_of(color_str);
    let pieces = split_chars(chars.as_slice(), ',');
    if pieces.len() < 3 {
        return None;
    }
    let r = match parse_component(&pieces, 0) {
        Some(v) => v,
        None => return None,
    };
    let g = match parse_component(&pieces, 1) {
        Some(v) => v,
        None => return None,
    };
    let b = match parse_component(&pieces, 2) {
        Some(v) => v,
        None => return None,
    };
    let c = [r, g, b];
    assert(c@ == seq![r, g, b]);
    Some(c)
}

/// Reads the numbers of a comma-separated list such as `32, 32,48`. A piece
/// that is no number is left out; no list gives no numbers.
pub fn parse_comma_separated_numbers(value: Option<&str>) -> (numbers: Vec<u32>)
    ensures
        numbers@ == optional_number_list(optional_text(value)),
{
    let mut numbers: Vec<u32> = Vec::new();
    let text = match value {
        Some(text) => text,
        None => return numbers,
    };
    let chars = chars_of(text);
    let pieces = split_chars(chars.as_slice(), ',');
    let ghost all = split(text@, ',');
    let mut k: usize = 0;
    assert(all.take(0) == Seq::<Seq<char>>::empty());
    while k < pieces.len()
        invariant
            k <= pieces@.len(),
            texts(pieces@) == all,
            numbers@ == numbers_among(all.take(k as int)),
        decreases pieces@.len() - k,
    {
        let read = u32::parse(trim_chars(pieces[k]));
        proof {
            assert(texts(pieces@)[k as int] == pieces@[k as int]@);
            assert(all.take(k as int + 1).drop_last() == all.take(k as int));
        }
        match read {
            Some(n) => {
                numbers.push(n);
                assert(numbers@ == numbers_among(all.take(k as int)) + seq![n]);
            },
            None => {},
        }
        k += 1;
    }
    assert(all.take(k as int) == all);
    numbers
}

/// Builds the key of member `i` of a family.
pub fn numbered_key(prefix: &str, i: u32, suffix: &str) -> (key: String)
    ensures
        key@ == family_key(prefix@, i as nat, suffix@),
{
    let mut key = prefix.to_owned();
    push_decimal(&mut key, i);
    key.append(suffix);
    key
}

/// Reads the family of `count` texts under `prefix` and `suffix`, numbered
/// from 0, such as `KeyImage0D`, `KeyImage1D`. The result always has
/// `count` members: one whose key is absent is empty.
pub fn parse_numbered_strings(props: &Properties, prefix: &str, count: u32, suffix: Option<&str>) -> (values: Vec<String>)
    ensures
        string_views(values@) == text_family(
            property_entries(*props),
            prefix@,
            count,
            suffix_text(suffix),
        ),
        values@.len() == count,
{
    let suffix = match suffix {
        Some(text) => text,
        None => "",
    };
    proof {
        reveal_strlit("");
        assert(""@ == Seq::<char>::empty());
    }
    let mut values: Vec<String> = Vec::new();
    let mut i: u32 = 0;
    while i < count
        invariant
            i <= count,
            string_views(values@) == text_family(property_entries(*props), prefix@, i, suffix@),
        decreases count - i,
    {
        let key = numbered_key(prefix, i, suffix);
        let value = resolve_text(props, key.as_str());
        proof {
            assert(string_views(values@.push(value)) == string_views(values@).push(value@));
        }
        values.push(value);
        i += 1;
    }
    assert(string_views(values@).len() == values@.len());
    values
}

/// Reads the family of colours under `prefix`, numbered from 1 to `count`,
/// such as `Colour1`, `Colour2`. A member whose key is absent, or whose
/// text denotes no colour, is left out: the result may have fewer than
/// `count` members.
pub fn parse_numbered_colors(props: &Properties, prefix: &str, count: u32) -> (colors: Vec<[u8; 4]>)
    ensures
        rgba_views(colors@) == color_family(property_entries(*props), prefix@, count),
        colors@.len() <= count,
{
    let mut colors: Vec<[u8; 4]> = Vec::new();
    let mut i: u32 = 0;
    let ghost entries = property_entries(*props);
    assert(Seq::new(0, |k: int| numbered_color(entries, prefix@, (k + 1) as nat)) == Seq::<
        Option<Seq<u8>>,
    >::empty());
    while i < count
        invariant
            i <= count,
            entries == property_entries(*props),
            rgba_views(colors@) == color_family(entries, prefix@, i),
        decreases count - i,
    {
        let key = numbered_key(prefix, i + 1, "");
        let read = match property_get(props, key.as_str()) {
            Some(text) => parse_color(text),
            None => None,
        };
        proof {
            reveal_strlit("");
            assert(key@ == family_key(prefix@, (i + 1) as nat, Seq::empty()));
            let longer = Seq::new(
                (i + 1) as nat,
                |k: int| numbered_color(entries, prefix@, (k + 1) as nat),
            );
            let shorter = Seq::new(
                i as nat,
                |k: int| numbered_color(entries, prefix@, (k + 1) as nat),
            );
            assert(longer.drop_last() == shorter);
            assert(longer.last() == numbered_color(entries, prefix@, (i + 1) as nat));
        }
        match read {
            Some(c) => {
                proof {
                    assert(rgba_views(colors@.push(c)) == rgba_views(colors@).push(c@));
                    assert(rgba_views(colors@).push(c@) == rgba_views(colors@) + seq![c@]);
                }
                colors.push(c);
            },
            None => {},
        }
        i += 1;
    }
    proof {
        lemma_color_family_len(entries, prefix@, count);
    }
    colors
}

/// Reads the family of `count` values under `prefix`, numbered from 0, such
/// as `NoteBodyStyle0`, `NoteBodyStyle1`. The result always has `count`
/// members: one whose key is absent or unreadable is `default`.
pub fn parse_numbered_values<T: Scalar>(props: &Properties, prefix: &str, count: u32, default: T) -> (values: Vec<T>)
    ensures
        values@ == family(property_entries(*props), prefix@, count, default),
        values@.len() == count,
{
    let mut values: Vec<T> = Vec::new();
    let mut i: u32 = 0;
    while i < count
        invariant
            i <= count,
            values@ == family(property_entries(*props), prefix@, i, default),
        decreases count - i,
    {
        let key = numbered_key(prefix, i, "");
        proof {
            reveal_strlit("");
            assert(key@ == family_key(prefix@, i as nat, Seq::empty()));
        }
        let value = resolve_scalar(props, key.as_str(), default);
        values.push(value);
        i += 1;
    }
    values
}

/// Reads the family of `count` flags under `prefix`, numbered from 0. A
/// flag is written as a number: 0 is `false`, any other `u32` is `true`,
/// and a member whose key is absent or unreadable is `false`.
pub fn parse_numbered_bools(props: &Properties, prefix: &str, count: u32) -> (values: Vec<bool>)
    ensures
        values@ == family(property_entries(*props), prefix@, count, false),
        values@.len() == count,
{
    parse_numbered_values(props, prefix, count, false)
}

/// Copies the text under `key`, if the key is present.
pub fn resolve_optional_text(props: &Properties, key: &str) -> (value: Option<String>)
    ensures
        match value {
            Some(text) => lookup(property_entries(*props), key@) == Some(text@),
            None => lookup(property_entries(*props), key@) is None,
        },
{
    match property_get(props, key) {
        Some(text) => Some(text.to_owned()),
        None => None,
    }
}

/// Reads the list of numbers under `key`; no numbers where the key is
/// absent.
pub fn resolve_numbers(props: &Properties, key: &str) -> (numbers: Vec<u32>)
    ensures
        numbers@ == optional_number_list(lookup(property_entries(*props), key@)),
{
    parse_comma_separated_numbers(property_get(props, key))
}

/// Reads the colour with alpha under `key`, or gives `default`.
pub fn resolve_rgba(props: &Properties, key: &str, default: [u8; 4]) -> (color: [u8; 4])
    ensures
        color@ == rgba_or(property_entries(*props), key@, default@),
{
    match property_get(props, key) {
        Some(text) => match parse_color(text) {
            Some(c) => c,
            None => default,
        },
        None => default,
    }
}

/// Reads the colour without alpha under `key`, or gives `default`.
pub fn resolve_rgb(props: &Properties, key: &str, default: [u8; 3]) -> (color: [u8; 3])
    ensures
        color@ == rgb_or(property_entries(*props), key@, default@),
{
    match property_get(props, key) {
        Some(text) => match parse_color_rgb(text) {
            Some(c) => c,
            None => default,
        },
        None => default,
    }
}

/// Whitespace around the pieces of a list does not matter: two runs of
/// pieces that agree once trimmed hold the same numbers.
pub proof fn lemma_numbers_ignore_outer_whitespace(a: Seq<Seq<char>>, b: Seq<Seq<char>>)
    requires
        a.len() == b.len(),
        forall|i: int| 0 <= i < a.len() ==> trim(#[trigger] a[i]) == trim(b[i]),
    ensures
        numbers_among(a) == numbers_among(b),
    decreases a.len(),
{
    if a.len() > 0 {
        lemma_numbers_ignore_outer_whitespace(a.drop_last(), b.drop_last());
        assert(trim(a[a.len() - 1]) == trim(b[a.len() - 1]));
    }
}

/// A text of three or four comma-separated pieces, each a `u8` once
/// trimmed, denotes the colour with those components in that order; where
/// there are only three, its alpha is 255.
pub proof fn lemma_rgba_of_components(text: Seq<char>)
    requires
        3 <= split(text, ',').len() <= 4,
        forall|i: int| 0 <= i < split(text, ',').len() ==> component(split(text, ','), i) is Some,
    ensures
        rgba(text) == Some(
            seq![
                component(split(text, ','), 0)->0,
                component(split(text, ','), 1)->0,
                component(split(text, ','), 2)->0,
                if split(text, ',').len() == 4 {
                    component(split(text, ','), 3)->0
                } else {
                    255u8
                },
            ],
        ),
{
    let pieces = split(text, ',');
    assert(component(pieces, 0) is Some);
    assert(component(pieces, 1) is Some);
    assert(component(pieces, 2) is Some);
    if pieces.len() == 4 {
        assert(component(pieces, 3) is Some);
    }
    assert(rgba(text)->0 =~= seq![
        component(pieces, 0)->0,
        component(pieces, 1)->0,
        component(pieces, 2)->0,
        alpha(text),
    ]);
}

/// A text with fewer than three comma-separated pieces, or with one of the
/// first three that is no `u8`, denotes no colour, with alpha or without.
pub proof fn lemma_no_color(text: Seq<char>)
    requires
        split(text, ',').len() < 3 || exists|i: int|
            0 <= i < 3 && component(split(text, ','), i) is None,
    ensures
        rgba(text) is None,
        rgb(text) is None,
{
}

/// A family has as many members as it was asked for, whatever the section
/// holds; where the section has none of its keys, every member is the
/// default.
pub proof fn lemma_family_without_keys<T: Scalar>(
    entries: Entries,
    prefix: Seq<char>,
    count: u32,
    default: T,
)
    ensures
        family(entries, prefix, count, default).len() == count,
        (forall|i: nat| i < count ==> lookup(entries, #[trigger] family_key(prefix, i, Seq::empty()))
            is None) ==> family(entries, prefix, count, default) == Seq::new(
            count as nat,
            |i: int| default,
        ),
{
    if forall|i: nat| i < count ==> lookup(entries, #[trigger] family_key(prefix, i, Seq::empty()))
        is None {
        assert forall|i: int| 0 <= i < count implies family(entries, prefix, count, default)[i]
            == default by {
            assert(lookup(entries, family_key(prefix, i as nat, Seq::empty())) is None);
        }
        assert(family(entries, prefix, count, default) =~= Seq::new(count as nat, |i: int| default));
    }
}

/// What the last index adds to a family of colours: its colour where the
/// key is present and denotes one, and nothing otherwise. No default takes
/// the place of a member that is left out.
pub proof fn lemma_color_family_last(entries: Entries, prefix: Seq<char>, count: u32)
    requires
        count > 0,
    ensures
        color_family(entries, prefix, count) == match numbered_color(entries, prefix, count as nat) {
            Some(c) => color_family(entries, prefix, (count - 1) as u32).push(c),
            None => color_family(entries, prefix, (count - 1) as u32),
        },
{
    let longer = Seq::new(count as nat, |i: int| numbered_color(entries, prefix, (i + 1) as nat));
    let shorter = Seq::new(
        (count - 1) as nat,
        |i: int| numbered_color(entries, prefix, (i + 1) as nat),
    );
    assert(longer.drop_last() == shorter);
    assert(longer.last() == numbered_color(entries, prefix, count as nat));
    match numbered_color(entries, prefix, count as nat) {
        Some(c) => {
            assert(color_family(entries, prefix, count) == color_family(
                entries,
                prefix,
                (count - 1) as u32,
            ) + seq![c]);
        },
        None => {},
    }
}

/// A family of colours never has more members than it was asked for.
pub proof fn lemma_color_family_len(entries: Entries, prefix: Seq<char>, count: u32)
    ensures
        color_family(entries, prefix, count).len() <= count,
    decreases count,
{
    if count > 0 {
        lemma_color_family_len(entries, prefix, (count - 1) as u32);
        lemma_color_family_last(entries, prefix, count);
    }
}

} // verus!
