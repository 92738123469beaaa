//! Small verified operations on text, stated over sequences of characters.

use vstd::prelude::*;
use vstd::string::*;

verus! {

/// Whether `s` begins with the characters of `prefix`.
pub open spec fn has_prefix(s: Seq<char>, prefix: Seq<char>) -> bool {
    prefix.len() <= s.len() && s.subrange(0, prefix.len() as int) == prefix
}

/// The characters of `s` from position `from` to the end.
pub open spec fn suffix_from(s: Seq<char>, from: int) -> Seq<char> {
    s.subrange(from, s.len() as int)
}

/// The characters of a text that may be absent.
pub open spec fn chars_of(text: Option<String>) -> Option<Seq<char>> {
    match text {
        Some(s) => Some(s@),
        None => None,
    }
}

/// Compares two texts character by character.
pub fn same_text(a: &str, b: &str) -> (same: bool)
    ensures
        same == (a@ == b@),
{
    let n: usize = a.unicode_len();
    if b.unicode_len() != n {
        return false;
    }
    let mut i: usize = 0;
    while i < n
        invariant
            i <= n,
            n == a@.len(),
            n == b@.len(),
            a@.subrange(0, i as int) == b@.subrange(0, i as int),
        decreases n - i,
    {
        if a.get_char(i) != b.get_char(i) {
            return false;
        }
        i = i + 1;
    }
    assert(a@ =~= a@.subrange(0, n as int));
    assert(b@ =~= b@.subrange(0, n as int));
    true
}

/// Whether `s` begins with `prefix`.
pub fn starts_with(s: &str, prefix: &str) -> (found: bool)
    ensures
        found == has_prefix(s@, prefix@),
{
    let n: usize = prefix.unicode_len();
    if s.unicode_len() < n {
        return false;
    }
    let mut i: usize = 0;
    while i < n
        invariant
            i <= n,
            n == prefix@.len(),
            n <= s@.len(),
            s@.subrange(0, i as int) == prefix@.subrange(0, i as int),
        decreases n - i,
    {
        if s.get_char(i) != prefix.get_char(i) {
            return false;
        }
        assert(prefix@.subrange(0, i + 1) =~= prefix@.subrange(0, i as int).push(
            prefix@[i as int],
        ));
        i = i + 1;
    }
    assert(prefix@ =~= prefix@.subrange(0, n as int));
    true
}

/// The part of `s` that follows its first `from` characters.
pub fn text_after(s: &str, from: usize) -> (rest: String)
    requires
        from <= s@.len(),
    ensures
        rest@ == suffix_from(s@, from as int),
{
    let n: usize = s.unicode_len();
    String::from_str(s.substring_char(from, n))
}

/// The position of the first `sep` in `s`, or the length of `s` if there is
/// none.
pub open spec fn first_sep(s: Seq<char>, sep: char) -> int
    decreases s.len(),
{
    if s.len() == 0 {
        0
    } else if s[0] == sep {
        0
    } else {
        1 + first_sep(s.drop_first(), sep)
    }
}

/// The pieces that `s` falls into when it is cut at every `sep`. There is
/// always at least one piece, and a piece may be empty.
pub open spec fn fields(s: Seq<char>, sep: char) -> Seq<Seq<char>>
    decreases s.len(),
{
    let cut = first_sep(s, sep);
    if 0 <= cut < s.len() {
        seq![s.subrange(0, cut)] + fields(s.subrange(cut + 1, s.len() as int), sep)
    } else {
        seq![s]
    }
}

/// The texts of a list of strings.
pub open spec fn texts(list: Seq<String>) -> Seq<Seq<char>> {
    Seq::new(list.len(), |i: int| list[i]@)
}

/// `first_sep` is the one position that has `sep` and nothing but other
/// characters before it, or the length where `sep` does not occur.
pub proof fn lemma_first_sep(s: Seq<char>, sep: char)
    ensures
        0 <= first_sep(s, sep) <= s.len(),
        forall|j: int| 0 <= j < first_sep(s, sep) ==> s[j] != sep,
        first_sep(s, sep) < s.len() ==> s[first_sep(s, sep)] == sep,
    decreases s.len(),
{
    if s.len() > 0 && s[0] != sep {
        let rest = s.drop_first();
        lemma_first_sep(rest, sep);
        assert forall|j: int| 0 <= j < first_sep(s, sep) implies s[j] != sep by {
            if j > 0 {
                assert(s[j] == rest[j - 1]);
            }
        }
    }
}

/// A position with the defining property of `first_sep` is `first_sep`.
pub proof fn lemma_first_sep_is(s: Seq<char>, sep: char, cut: int)
    requires
        0 <= cut <= s.len(),
        forall|j: int| 0 <= j < cut ==> s[j] != sep,
        cut < s.len() ==> s[cut] == sep,
    ensures
        first_sep(s, sep) == cut,
{
    lemma_first_sep(s, sep);
}

/// A text without `sep` is a single field.
pub proof fn lemma_fields_single(s: Seq<char>, sep: char)
    requires
        !s.contains(sep),
    ensures
        fields(s, sep) == seq![s],
{
    lemma_first_sep(s, sep);
}

/// A text that starts with a piece free of `sep`, followed by `sep`, has
/// that piece as its first field and the fields of the rest after it.
pub proof fn lemma_fields_cons(head: Seq<char>, sep: char, rest: Seq<char>)
    requires
        !head.contains(sep),
    ensures
        fields(head + seq![sep] + rest, sep) == seq![head] + fields(rest, sep),
{
    let s = head + seq![sep] + rest;
    lemma_first_sep_is(s, sep, head.len() as int);
    assert(s.subrange(0, head.len() as int) =~= head);
    assert(s.subrange(head.len() as int + 1, s.len() as int) =~= rest);
}

/// Cuts `s` at every `sep`.
pub fn split_fields(s: &str, sep: char) -> (parts: Vec<String>)
    ensures
        texts(parts@) == fields(s@, sep),
{
    let n: usize = s.unicode_len();
    let mut parts: Vec<String> = Vec::new();
    let mut start: usize = 0;
    let mut i: usize = 0;
    assert(s@.subrange(0, n as int) =~= s@);
    while i < n
        invariant
            start <= i <= n,
            n == s@.len(),
            forall|j: int| start <= j < i ==> s@[j] != sep,
            fields(s@, sep) == texts(parts@) + fields(s@.subrange(start as int, n as int), sep),
        decreases n - i,
    {
        if s.get_char(i) == sep {
            let piece: String = String::from_str(s.substring_char(start, i));
            proof {
                let rest = s@.subrange(start as int, n as int);
                lemma_first_sep_is(rest, sep, i - start);
                assert(rest.subrange(0, i - start) =~= piece@);
                assert(rest.subrange(i - start + 1, rest.len() as int) =~= s@.subrange(
                    i + 1,
                    n as int,
                ));
            }
            parts.push(piece);
            start = i + 1;
        }
        i = i + 1;
    }
    let last: String = String::from_str(s.substring_char(start, n));
    proof {
        let rest = s@.subrange(start as int, n as int);
        lemma_first_sep_is(rest, sep, rest.len() as int);
    }
    parts.push(last);
    parts
}

/// Whether `c` is white space, as `char::is_whitespace` tells: whether it
/// has the Unicode property `White_Space`.
pub uninterp spec fn white_space(c: char) -> bool;

/// Calls `char::is_whitespace`. The contract names its answer, which
/// depends on the character alone.
#[verifier::external_body]
pub(crate) fn is_white_space(c: char) -> (white: bool)
    ensures
        white == white_space(c),
{
    c.is_whitespace()
}

/// The number of white-space characters that `s` begins with.
pub open spec fn leading_white(s: Seq<char>) -> int
    decreases s.len(),
{
    if s.len() > 0 && white_space(s[0]) {
        1 + leading_white(s.drop_first())
    } else {
        0
    }
}

/// The number of white-space characters that `s` ends with.
pub open spec fn trailing_white(s: Seq<char>) -> int
    decreases s.len(),
{
    if s.len() > 0 && white_space(s.last()) {
        1 + trailing_white(s.drop_last())
    } else {
        0
    }
}

/// `s` without the white space at its start.
pub open spec fn trimmed_start(s: Seq<char>) -> Seq<char> {
    s.subrange(leading_white(s), s.len() as int)
}

/// `s` without the white space at its start and at its end.
pub open spec fn trimmed(s: Seq<char>) -> Seq<char> {
    let t = trimmed_start(s);
    t.subrange(0, t.len() - trailing_white(t))
}

/// Removes the white space at both ends of `s`.
pub fn trim(s: &str) -> (out: String)
    ensures
        out@ == trimmed(s@),
{
    let n: usize = s.unicode_len();
    let mut start: usize = 0;
    assert(s@.subrange(0, n as int) =~= s@);
    while start < n && is_white_space(s.get_char(start))
        invariant
            start <= n,
            n == s@.len(),
            leading_white(s@) == start + leading_white(s@.subrange(start as int, n as int)),
        decreases n - start,
    {
        assert(s@.subrange(start as int, n as int).drop_first() =~= s@.subrange(
            start + 1,
            n as int,
        ));
        start = start + 1;
    }
    let ghost t = trimmed_start(s@);
    let mut end: usize = n;
    assert(t.subrange(0, t.len() as int) =~= t);
    while end > start && is_white_space(s.get_char(end - 1))
        invariant
            start <= end <= n,
            n == s@.len(),
            t == s@.subrange(start as int, n as int),
            trailing_white(t) == (n - end) + trailing_white(t.subrange(0, end - start)),
        decreases end - start,
    {
        let ghost part = t.subrange(0, end - start);
        assert(part.drop_last() =~= t.subrange(0, end - 1 - start));
        end = end - 1;
    }
    let out: String = String::from_str(s.substring_char(start, end));
    out
}

/// The parts put together in their order, with `sep` between each two.
pub open spec fn joined(parts: Seq<Seq<char>>, sep: Seq<char>) -> Seq<char>
    decreases parts.len(),
{
    if parts.len() == 0 {
        Seq::empty()
    } else if parts.len() == 1 {
        parts[0]
    } else {
        joined(parts.drop_last(), sep) + sep + parts.last()
    }
}

/// Parts that are not empty join into a text that is not empty.
pub proof fn lemma_joined_not_empty(parts: Seq<Seq<char>>, sep: Seq<char>)
    requires
        parts.len() > 0,
        forall|i: int| 0 <= i < parts.len() ==> (#[trigger] parts[i]).len() > 0,
    ensures
        joined(parts, sep).len() > 0,
{
}

/// Puts the parts together in their order, with `sep` between each two.
pub fn join(parts: &[String], sep: &str) -> (out: String)
    ensures
        out@ == joined(texts(parts@), sep@),
{
    let n: usize = parts.len();
    let mut out: String = String::new();
    let mut i: usize = 0;
    let ghost all = texts(parts@);
    while i < n
        invariant
            i <= n,
            n == parts@.len(),
            all == texts(parts@),
            out@ == joined(all.subrange(0, i as int), sep@),
        decreases n - i,
    {
        let ghost done = all.subrange(0, i as int);
        let ghost more = all.subrange(0, i + 1);
        assert(more.drop_last() =~= done);
        if i > 0 {
            out.append(sep);
        } else {
        }
        out.append(parts[i].as_str());
        i = i + 1;
    }
    assert(all.subrange(0, n as int) =~= all);
    out
}

/// `s` without a carriage return at its end.
pub open spec fn without_cr(s: Seq<char>) -> Seq<char> {
    if s.len() > 0 && s.last() == '\r' {
        s.drop_last()
    } else {
        s
    }
}

/// The lines of a text. A line ends at a line feed, and a carriage return
/// just before the line feed belongs to the line ending. What follows the
/// last line feed is a line too, unless it is empty.
pub open spec fn lines_of(text: Seq<char>) -> Seq<Seq<char>> {
    let pieces = fields(text, '\n');
    let ended = Seq::new((pieces.len() - 1) as nat, |i: int| without_cr(pieces[i]));
    if pieces.last().len() == 0 {
        ended
    } else {
        ended.push(pieces.last())
    }
}

/// Cutting a text into fields gives at least one field.
pub proof fn lemma_fields_not_empty(s: Seq<char>, sep: char)
    ensures
        fields(s, sep).len() >= 1,
{
}

/// Cuts a text into its lines.
pub fn text_lines(text: &str) -> (lines: Vec<String>)
    ensures
        texts(lines@) == lines_of(text@),
{
    let pieces: Vec<String> = split_fields(text, '\n');
    proof {
        lemma_fields_not_empty(text@, '\n');
    }
    let ghost all = texts(pieces@);
    let n: usize = pieces.len();
    let mut lines: Vec<String> = Vec::new();
    let mut i: usize = 0;
    while i < n - 1
        invariant
            i <= n - 1,
            n == pieces@.len(),
            n >= 1,
            all == texts(pieces@),
            lines@.len() == i,
            forall|j: int| 0 <= j < i ==> (#[trigger] lines@[j])@ == without_cr(all[j]),
        decreases n - 1 - i,
    {
        let piece: &str = pieces[i].as_str();
        let len: usize = piece.unicode_len();
        let line: String = if len > 0 && piece.get_char(len - 1) == '\r' {
            String::from_str(piece.substring_char(0, len - 1))
        } else {
            String::from_str(piece)
        };
        lines.push(line);
        i = i + 1;
    }
    if pieces[n - 1].as_str().unicode_len() > 0 {
        let last: String = pieces[n - 1].clone();
        lines.push(last);
    }
    lines
}

/// A text followed by `sep` and a piece free of `sep` has the fields of
/// the text and then that piece.
pub proof fn lemma_fields_push(s: Seq<char>, sep: char, last: Seq<char>)
    requires
        !last.contains(sep),
    ensures
        fields(s + seq![sep] + last, sep) == fields(s, sep).push(last),
    decreases s.len(),
{
    lemma_first_sep(s, sep);
    let cut = first_sep(s, sep);
    if cut < s.len() {
        let head = s.subrange(0, cut);
        let rest = s.subrange(cut + 1, s.len() as int);
        lemma_fields_push(rest, sep, last);
        assert(s + seq![sep] + last =~= head + seq![sep] + (rest + seq![sep] + last));
        lemma_fields_cons(head, sep, rest + seq![sep] + last);
        assert(seq![head] + fields(rest, sep).push(last) =~= (seq![head] + fields(rest, sep)).push(
            last,
        ));
    } else {
        lemma_fields_cons(s, sep, last);
        lemma_fields_single(last, sep);
    }
}

/// Parts free of `sep`, joined by `sep`, are the fields of the joined
/// text.
pub proof fn lemma_fields_of_joined(parts: Seq<Seq<char>>, sep: char)
    requires
        parts.len() > 0,
        forall|i: int| 0 <= i < parts.len() ==> !(#[trigger] parts[i]).contains(sep),
    ensures
        fields(joined(parts, seq![sep]), sep) == parts,
    decreases parts.len(),
{
    if parts.len() == 1 {
        lemma_fields_single(parts[0], sep);
    } else {
        let front = parts.drop_last();
        lemma_fields_of_joined(front, sep);
        lemma_fields_push(joined(front, seq![sep]), sep, parts.last());
    }
}

/// Lines that hold neither a line feed nor a carriage return, joined by
/// line feeds, are the lines of the joined text, provided that the last
/// of them is not empty.
pub proof fn lemma_lines_of_joined(parts: Seq<Seq<char>>)
    requires
        parts.len() > 0,
        forall|i: int|
            0 <= i < parts.len() ==> !(#[trigger] parts[i]).contains('\n') && !parts[i].contains(
                '\r',
            ),
        parts.last().len() > 0,
    ensures
        lines_of(joined(parts, seq!['\n'])) == parts,
{
    lemma_fields_of_joined(parts, '\n');
}

} // verus!
