//! The tokenized document: sections of key/value text as the `ini` crate
//! holds them, what is assumed of that crate, and the cleaning that a raw
//! skin file needs before it can be tokenized.

use crate::text::{chars_of, skip_whitespace, split, split_chars, texts, trim_start};
use ini::{Ini, Properties};
use vstd::prelude::*;
use vstd::slice::slice_subrange;

verus! {

/// `ini::Properties`, the entries of one section. Its inside is not looked
/// at: what it holds is known through `property_entries` alone.
#[verifier::external_type_specification]
#[verifier::external_body]
pub struct ExProperties(Properties);

/// `ini::Ini`, a tokenized document. Its inside is not looked at: what it
/// holds is known through `ini_sections` alone.
#[verifier::external_type_specification]
#[verifier::external_body]
pub struct ExIni(Ini);

/// The key/value pairs of a section, in the order in which they were inserted.
pub type Entries = Seq<(Seq<char>, Seq<char>)>;

/// A section of a document: its name, if it has one, and its entries.
pub type Section = (Option<Seq<char>>, Entries);

/// The key/value pairs that `props` holds, in insertion order.
pub uninterp spec fn property_entries(props: Properties) -> Entries;

/// The sections that `ini` holds, in insertion order; sections that share a
/// name stand apart, each with its own entries.
pub uninterp spec fn ini_sections(ini: Ini) -> Seq<Section>;

/// What `Ini::load_from_str` makes of `text`: the sections of the document,
/// or the line, the column and the message of the syntax error.
pub uninterp spec fn tokenized(text: Seq<char>) -> Result<Seq<Section>, (usize, usize, Seq<char>)>;

/// The value of the first entry of `entries` under `key`.
pub open spec fn lookup(entries: Entries, key: Seq<char>) -> Option<Seq<char>>
    decreases entries.len(),
{
    if entries.len() == 0 {
        None
    } else if entries[0].0 == key {
        Some(entries[0].1)
    } else {
        lookup(entries.drop_first(), key)
    }
}

/// The model of one item that iterating over a document yields.
pub open spec fn section_of(item: (Option<&str>, &Properties)) -> Section {
    (
        match item.0 {
            Some(name) => Some(name@),
            None => None,
        },
        property_entries(*item.1),
    )
}

/// A document that the tokenizer rejected.
#[derive(Debug)]
pub struct SyntaxError {
    /// Line of the offending character, counted from one.
    pub line: usize,
    /// Column of the offending character, counted from one.
    pub col: usize,
    /// What the tokenizer expected or refused.
    pub message: String,
}

/// `Properties::get`: the first value stored under `key`, by insertion
/// order, or `None` when no entry has that key. Keys compare exactly.
#[verifier::external_body]
pub(crate) fn property_get<'a>(props: &'a Properties, key: &str) -> (value: Option<&'a str>)
    ensures
        match value {
            Some(v) => lookup(property_entries(*props), key@) == Some(v@),
            None => lookup(property_entries(*props), key@) is None,
        },
{
    props.get(key)
}

/// `Ini::iter`: every section with its name, one item per section and in
/// insertion order, also where several sections share a name.
#[verifier::external_body]
pub(crate) fn section_list<'a>(ini: &'a Ini) -> (sections: Vec<(Option<&'a str>, &'a Properties)>)
    ensures
        sections@.len() == ini_sections(*ini).len(),
        forall|i: int|
            0 <= i < sections@.len() ==> section_of(#[trigger] sections@[i]) == ini_sections(
                *ini,
            )[i],
{
    ini.iter().collect()
}

/// `Ini::load_from_str`: the document that `text` denotes, a function of
/// the text alone; on a syntax error, the position and message it reports.
#[verifier::external_body]
pub(crate) fn tokenize(text: &str) -> (outcome: Result<Ini, SyntaxError>)
    ensures
        match outcome {
            Ok(ini) => tokenized(text@) == Ok::<Seq<Section>, (usize, usize, Seq<char>)>(
                ini_sections(ini),
            ),
            Err(e) => tokenized(text@) == Err::<Seq<Section>, (usize, usize, Seq<char>)>(
                (e.line, e.col, e.message@),
            ),
        },
{
    match Ini::load_from_str(text) {
        Ok(ini) => Ok(ini),
        Err(e) => Err(SyntaxError { line: e.line, col: e.col, message: e.msg.into_owned() }),
    }
}

/// `line` without the carriage return at its end, if it has one.
pub open spec fn strip_cr(line: Seq<char>) -> Seq<char> {
    if line.len() > 0 && line.last() == '\r' {
        line.drop_last()
    } else {
        line
    }
}

/// The lines that the line feeds after all `pieces` but the last end.
pub open spec fn ended_lines(pieces: Seq<Seq<char>>) -> Seq<Seq<char>> {
    pieces.drop_last().map_values(|p: Seq<char>| strip_cr(p))
}

/// The lines of `s`. A line ends at a line feed or at the end of the text.
/// The line feed, and a carriage return right before it, are not part of
/// the line, and text that ends in a line feed has no further, empty line.
pub open spec fn lines(s: Seq<char>) -> Seq<Seq<char>> {
    let pieces = split(s, '\n');
    let ended = ended_lines(pieces);
    if pieces.last().len() == 0 {
        ended
    } else {
        ended.push(pieces.last())
    }
}

/// Whether `line` is a comment: its first two characters after any leading
/// whitespace are `//`.
pub open spec fn is_comment(line: Seq<char>) -> bool {
    let t = trim_start(line);
    t.len() >= 2 && t[0] == '/' && t[1] == '/'
}

/// The lines among `lines` that are no comments, in order.
pub open spec fn without_comments(lines: Seq<Seq<char>>) -> Seq<Seq<char>> {
    lines.filter(|l: Seq<char>| !is_comment(l))
}

/// `lines` put together with one line feed between each two.
pub open spec fn join_lines(lines: Seq<Seq<char>>) -> Seq<char>
    decreases lines.len(),
{
    if lines.len() == 0 {
        Seq::empty()
    } else if lines.len() == 1 {
        lines[0]
    } else {
        join_lines(lines.drop_last()).push('\n') + lines.last()
    }
}

/// `s` with every backslash doubled.
pub open spec fn escape_backslashes(s: Seq<char>) -> Seq<char>
    decreases s.len(),
{
    if s.len() == 0 {
        Seq::empty()
    } else if s.last() == '\\' {
        escape_backslashes(s.drop_last()).push('\\').push('\\')
    } else {
        escape_backslashes(s.drop_last()).push(s.last())
    }
}

/// The text handed to the tokenizer for the raw text `raw`: its lines
/// without the comment lines, joined by line feeds, every backslash doubled.
pub open spec fn preprocessed(raw: Seq<char>) -> Seq<char> {
    escape_backslashes(join_lines(without_comments(lines(raw))))
}

/// Doubling backslashes works piece by piece.
pub proof fn lemma_escape_concat(a: Seq<char>, b: Seq<char>)
    ensures
        escape_backslashes(a + b) == escape_backslashes(a) + escape_backslashes(b),
    decreases b.len(),
{
    if b.len() == 0 {
        assert(a + b == a);
    } else {
        assert((a + b).drop_last() == a + b.drop_last());
        lemma_escape_concat(a, b.drop_last());
    }
}

/// What one more line adds to the lines kept so far.
pub proof fn lemma_without_comments_push(lines: Seq<Seq<char>>, line: Seq<char>)
    ensures
        without_comments(lines.push(line)) == if is_comment(line) {
            without_comments(lines)
        } else {
            without_comments(lines).push(line)
        },
{
    reveal(Seq::filter);
    assert(lines.push(line).drop_last() == lines);
}

/// What one more line adds to the cleaned text.
pub proof fn lemma_clean_push(kept: Seq<Seq<char>>, line: Seq<char>)
    ensures
        escape_backslashes(join_lines(kept.push(line))) == if kept.len() == 0 {
            escape_backslashes(line)
        } else {
            escape_backslashes(join_lines(kept)).push('\n') + escape_backslashes(line)
        },
{
    let longer = kept.push(line);
    assert(longer.drop_last() == kept);
    if kept.len() > 0 {
        let head = join_lines(kept);
        lemma_escape_concat(head.push('\n'), line);
        assert(head.push('\n').drop_last() == head);
    }
}

/// Whether `line` is a comment line.
pub fn is_comment_line(line: &[char]) -> (b: bool)
    ensures
        b == is_comment(line@),
{
    let start = skip_whitespace(line);
    line.len() - start >= 2 && line[start] == '/' && line[start + 1] == '/'
}

/// Appends `line` to `out`, doubling its backslashes.
pub fn push_escaped(out: &mut String, line: &[char])
    ensures
        final(out)@ == old(out)@ + escape_backslashes(line@),
{
    let mut j: usize = 0;
    assert(line@.take(0) == Seq::<char>::empty());
    while j < line.len()
        invariant
            j <= line@.len(),
            out@ == old(out)@ + escape_backslashes(line@.take(j as int)),
        decreases line@.len() - j,
    {
        let c = line[j];
        assert(line@.take(j as int + 1).drop_last() == line@.take(j as int));
        if c == '\\' {
            out.push('\\');
        }
        out.push(c);
        j += 1;
    }
    assert(line@.take(j as int) == line@);
}

/// Appends `line` as the next line of the cleaned text `out`, which holds
/// the lines `kept` so far; `first` says that it holds none.
fn push_line(out: &mut String, line: &[char], first: bool, Ghost(kept): Ghost<Seq<Seq<char>>>)
    requires
        old(out)@ == escape_backslashes(join_lines(kept)),
        first == (kept.len() == 0),
    ensures
        final(out)@ == escape_backslashes(join_lines(kept.push(line@))),
{
    if !first {
        out.push('\n');
    }
    push_escaped(out, line);
    proof {
        lemma_clean_push(kept, line@);
    }
}

/// Cleans the raw text of a skin file for the tokenizer: drops the comment
/// lines and doubles every backslash, so that a path such as `a\b` in a
/// value is not read as an escape sequence.
pub fn preprocess(raw: &str) -> (clean: String)
    ensures
        clean@ == preprocessed(raw@),
{
    let chars = chars_of(raw);
    let pieces = split_chars(chars.as_slice(), '\n');
    let ghost parts = split(raw@, '\n');
    let ghost ended = ended_lines(parts);
    let n = pieces.len();
    let mut clean = String::new();
    let mut any = false;
    let ghost mut kept: Seq<Seq<char>> = Seq::empty();
    let mut k: usize = 0;
    proof {
        reveal(Seq::filter);
        assert(ended.take(0) == Seq::<Seq<char>>::empty());
    }
    while k < n - 1
        invariant
            n == pieces@.len(),
            n >= 1,
            k <= n - 1,
            texts(pieces@) == parts,
            ended == ended_lines(parts),
            kept == without_comments(ended.take(k as int)),
            clean@ == escape_backslashes(join_lines(kept)),
            any == (kept.len() > 0),
        decreases n - k,
    {
        let piece = pieces[k];
        let line = if piece.len() > 0 && piece[piece.len() - 1] == '\r' {
            slice_subrange(piece, 0, piece.len() - 1)
        } else {
            piece
        };
        proof {
            assert(texts(pieces@)[k as int] == piece@);
            assert(line@ == strip_cr(parts[k as int]));
            assert(ended[k as int] == line@);
            assert(ended.take(k as int + 1) == ended.take(k as int).push(line@));
            lemma_without_comments_push(ended.take(k as int), line@);
        }
        if !is_comment_line(line) {
            push_line(&mut clean, line, !any, Ghost(kept));
            proof {
                kept = kept.push(line@);
            }
            any = true;
        }
        k += 1;
    }
    let last = pieces[n - 1];
    proof {
        assert(ended.take(k as int) == ended);
        assert(texts(pieces@)[n - 1] == last@);
        assert(parts.last() == last@);
    }
    if last.len() > 0 {
        proof {
            lemma_without_comments_push(ended, last@);
        }
        if !is_comment_line(last) {
            push_line(&mut clean, last, !any, Ghost(kept));
        }
    }
    clean
}

/// Reads the document that the raw text of a skin file denotes: the text is
/// cleaned, then tokenized. The tokenizer decides between a document and a
/// syntax error.
pub fn load_ini(raw: &str) -> (outcome: Result<Ini, SyntaxError>)
    ensures
        match outcome {
            Ok(ini) => tokenized(preprocessed(raw@)) == Ok::<Seq<Section>, (usize, usize, Seq<char>)>(
                ini_sections(ini),
            ),
            Err(e) => tokenized(preprocessed(raw@)) == Err::<Seq<Section>, (usize, usize, Seq<char>)>(
                (e.line, e.col, e.message@),
            ),
        },
{
    let clean = preprocess(raw);
    tokenize(clean.as_str())
}

} // verus!
