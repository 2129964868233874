//! Character-level building blocks: whitespace, trimming, prefixes, splitting
//! at a separator and splitting into lines.
//!
//! Every executable function works on a slice of `char` and is specified
//! against a spec function over `Seq<char>`.
use vstd::prelude::*;
use vstd::slice::slice_subrange;

verus! {

/// A half-open range `start..end` of positions in a character sequence.
#[derive(Clone, Copy, Debug)]
pub struct Span {
    pub start: usize,
    pub end: usize,
}

impl Span {
    /// The range lies inside a sequence of length `len`.
    pub open spec fn fits(self, len: nat) -> bool {
        self.start <= self.end <= len
    }

    /// The characters of `s` that the range covers.
    pub open spec fn of(self, s: Seq<char>) -> Seq<char> {
        s.subrange(self.start as int, self.end as int)
    }
}

/// The pieces of `s` that a list of ranges covers, in order.
pub open spec fn spans_of(spans: Seq<Span>, s: Seq<char>) -> Seq<Seq<char>> {
    Seq::new(spans.len(), |i: int| spans[i].of(s))
}

/// Every range of the list lies inside a sequence of length `len`.
pub open spec fn spans_fit(spans: Seq<Span>, len: nat) -> bool {
    forall|i: int| 0 <= i < spans.len() ==> (#[trigger] spans[i]).fits(len)
}

/// The view of an optional string.
pub open spec fn spec_opt_view(s: Option<String>) -> Option<Seq<char>> {
    match s {
        Some(s) => Some(s@),
        None => None,
    }
}

/// The view of an optional string slice.
pub open spec fn spec_opt_str(s: Option<&str>) -> Option<Seq<char>> {
    match s {
        Some(s) => Some(s@),
        None => None,
    }
}

/// The characters that Unicode counts as white space (`White_Space`).
pub open spec fn spec_is_whitespace(c: char) -> bool {
    let n = c as u32;
    ||| 0x09 <= n <= 0x0D
    ||| n == 0x20
    ||| n == 0x85
    ||| n == 0xA0
    ||| n == 0x1680
    ||| 0x2000 <= n <= 0x200A
    ||| n == 0x2028
    ||| n == 0x2029
    ||| n == 0x202F
    ||| n == 0x205F
    ||| n == 0x3000
}

/// `s` without its leading whitespace.
pub open spec fn spec_trim_start(s: Seq<char>) -> Seq<char>
    decreases s.len(),
{
    if s.len() > 0 && spec_is_whitespace(s[0]) {
        spec_trim_start(s.drop_first())
    } else {
        s
    }
}

/// `s` without its trailing whitespace.
pub open spec fn spec_trim_end(s: Seq<char>) -> Seq<char>
    decreases s.len(),
{
    if s.len() > 0 && spec_is_whitespace(s.last()) {
        spec_trim_end(s.drop_last())
    } else {
        s
    }
}

/// `s` without its leading and trailing whitespace.
pub open spec fn spec_trim(s: Seq<char>) -> Seq<char> {
    spec_trim_end(spec_trim_start(s))
}

/// The position of the first `c` in `s`, or the length of `s` if there is none.
pub open spec fn spec_find(s: Seq<char>, c: char) -> nat
    decreases s.len(),
{
    if s.len() == 0 || s[0] == c {
        0
    } else {
        1 + spec_find(s.drop_first(), c)
    }
}

/// The pieces of `s` between occurrences of `sep`. There is always at least
/// one piece; `n` separators give `n + 1` pieces, some of which may be empty.
pub open spec fn spec_split(s: Seq<char>, sep: char) -> Seq<Seq<char>>
    decreases s.len(),
{
    let n = spec_find(s, sep);
    if n < s.len() {
        seq![s.take(n as int)] + spec_split(s.skip(n as int + 1), sep)
    } else {
        seq![s]
    }
}

/// `s` without one trailing carriage return, if it ends in one.
pub open spec fn spec_strip_cr(s: Seq<char>) -> Seq<char> {
    if s.len() > 0 && s.last() == '\r' {
        s.drop_last()
    } else {
        s
    }
}

/// The lines of `s`. A line ends at a line feed, or at a carriage return
/// directly followed by a line feed; the line ending is not part of the line.
/// What follows the last line feed is a line of its own unless it is empty.
pub open spec fn spec_lines(s: Seq<char>) -> Seq<Seq<char>> {
    let pieces = spec_split(s, '\n');
    let ended = Seq::new((pieces.len() - 1) as nat, |i: int| spec_strip_cr(pieces[i]));
    if pieces.last().len() == 0 {
        ended
    } else {
        ended.push(pieces.last())
    }
}

/// The parts joined into one sequence with `sep` between neighbours.
pub open spec fn spec_join(parts: Seq<Seq<char>>, sep: Seq<char>) -> Seq<char>
    decreases parts.len(),
{
    if parts.len() == 0 {
        Seq::empty()
    } else if parts.len() == 1 {
        parts[0]
    } else {
        spec_join(parts.drop_last(), sep) + sep + parts.last()
    }
}

/// `spec_find` never runs past the end.
pub proof fn lemma_find_bound(s: Seq<char>, c: char)
    ensures
        spec_find(s, c) <= s.len(),
    decreases s.len(),
{
    if s.len() > 0 && s[0] != c {
        lemma_find_bound(s.drop_first(), c);
    }
}

/// A position before which `c` does not occur, and which holds `c` or is the
/// end, is the one `spec_find` gives.
pub proof fn lemma_find_is(s: Seq<char>, c: char, n: int)
    requires
        0 <= n <= s.len(),
        forall|i: int| 0 <= i < n ==> s[i] != c,
        n < s.len() ==> s[n] == c,
    ensures
        spec_find(s, c) == n,
    decreases s.len(),
{
    if n > 0 {
        let t = s.drop_first();
        assert forall|i: int| 0 <= i < n - 1 implies t[i] != c by {
            assert(t[i] == s[i + 1]);
        }
        lemma_find_is(t, c, n - 1);
    }
}

/// Splitting gives at least one piece.
pub proof fn lemma_split_nonempty(s: Seq<char>, sep: char)
    ensures
        spec_split(s, sep).len() >= 1,
{
}

/// Joining is the same from the front as from the back: the first part,
/// the separator, and the others joined.
pub proof fn lemma_join_front(parts: Seq<Seq<char>>, sep: Seq<char>)
    requires
        parts.len() >= 2,
    ensures
        spec_join(parts, sep) == parts[0] + sep + spec_join(parts.drop_first(), sep),
    decreases parts.len(),
{
    let rest = parts.drop_first();
    if parts.len() == 2 {
        assert(parts.drop_last().len() == 1);
        assert(spec_join(parts.drop_last(), sep) == parts[0]);
        assert(spec_join(rest, sep) == parts[1]);
    } else {
        lemma_join_front(parts.drop_last(), sep);
        assert(parts.drop_last().drop_first() =~= rest.drop_last());
        assert(rest.last() == parts.last());
        assert(spec_join(parts, sep) =~= parts[0] + sep + (spec_join(rest.drop_last(), sep) + sep
            + rest.last()));
    }
}

/// A piece without the separator, the separator and a rest split into that
/// piece and the pieces of the rest.
pub proof fn lemma_split_front(piece: Seq<char>, sep: char, rest: Seq<char>)
    requires
        !piece.contains(sep),
    ensures
        spec_split(piece + seq![sep] + rest, sep) == seq![piece] + spec_split(rest, sep),
{
    let s = piece + seq![sep] + rest;
    assert forall|i: int| 0 <= i < piece.len() implies s[i] != sep by {
        assert(piece.contains(piece[i]));
    }
    lemma_find_is(s, sep, piece.len() as int);
    assert(s.take(piece.len() as int) =~= piece);
    assert(s.skip(piece.len() as int + 1) =~= rest);
}

/// Parts without the separator, at least one, are the pieces of their
/// join.
pub proof fn lemma_split_of_join(parts: Seq<Seq<char>>, sep: char)
    requires
        parts.len() >= 1,
        forall|i: int| 0 <= i < parts.len() ==> !(#[trigger] parts[i]).contains(sep),
    ensures
        spec_split(spec_join(parts, seq![sep]), sep) == parts,
    decreases parts.len(),
{
    if parts.len() == 1 {
        let s = parts[0];
        assert forall|i: int| 0 <= i < s.len() implies s[i] != sep by {
            assert(s.contains(s[i]));
        }
        lemma_find_is(s, sep, s.len() as int);
        assert(spec_split(s, sep) =~= parts);
    } else {
        let rest = parts.drop_first();
        assert forall|i: int| 0 <= i < rest.len() implies !(#[trigger] rest[i]).contains(sep) by {
            assert(rest[i] == parts[i + 1]);
        }
        lemma_split_of_join(rest, sep);
        lemma_join_front(parts, seq![sep]);
        lemma_split_front(parts[0], sep, spec_join(rest, seq![sep]));
        assert(seq![parts[0]] + rest =~= parts);
    }
}

/// Lines that hold no line feed and do not end in a carriage return, the
/// last of them not empty, are the lines of the text in which a line feed
/// stands between each two of them; and of that text with one more line
/// feed at its end.
pub proof fn lemma_lines_of_join(lines: Seq<Seq<char>>)
    requires
        lines.len() >= 1,
        forall|i: int| 0 <= i < lines.len() ==> !(#[trigger] lines[i]).contains('\n'),
        forall|i: int|
            0 <= i < lines.len() ==> (#[trigger] lines[i]).len() == 0 || lines[i].last() != '\r',
        lines.last().len() > 0,
    ensures
        spec_lines(spec_join(lines, seq!['\n'])) == lines,
        spec_lines(spec_join(lines, seq!['\n']) + seq!['\n']) == lines,
{
    lemma_split_of_join(lines, '\n');
    assert(spec_lines(spec_join(lines, seq!['\n'])) =~= lines);

    let more = lines.push(Seq::empty());
    assert forall|i: int| 0 <= i < more.len() implies !(#[trigger] more[i]).contains('\n') by {
        if i < lines.len() {
            assert(more[i] == lines[i]);
        }
    }
    lemma_split_of_join(more, '\n');
    assert(more.drop_last() =~= lines);
    assert(spec_join(more, seq!['\n']) =~= spec_join(lines, seq!['\n']) + seq!['\n']);
    let pieces = spec_split(spec_join(lines, seq!['\n']) + seq!['\n'], '\n');
    assert(pieces == more);
    assert forall|i: int| 0 <= i < lines.len() implies spec_strip_cr(pieces[i]) == lines[i] by {
        assert(pieces[i] == lines[i]);
    }
    assert(spec_lines(spec_join(lines, seq!['\n']) + seq!['\n']) =~= lines);
}

/// Collects the characters of `s` into a vector, one element per `char`.
pub fn chars_of(s: &str) -> (v: Vec<char>)
    ensures
        v@ == s@,
{
    let mut v: Vec<char> = Vec::new();
    for c in it: s.chars()
        invariant
            v@ == it.seq().take(it.index() as int),
            it.seq() == s@,
    {
        v.push(c);
    }
    v
}

/// Whether `c` is a whitespace character.
pub fn is_whitespace(c: char) -> (b: bool)
    ensures
        b == spec_is_whitespace(c),
{
    let n: u32 = c as u32;
    (0x09 <= n && n <= 0x0D) || n == 0x20 || n == 0x85 || n == 0xA0 || n == 0x1680 || (0x2000 <= n
        && n <= 0x200A) || n == 0x2028 || n == 0x2029 || n == 0x202F || n == 0x205F || n == 0x3000
}

/// Whether `s` begins with `prefix`.
pub fn starts_with(s: &[char], prefix: &[char]) -> (b: bool)
    ensures
        b == prefix@.is_prefix_of(s@),
{
    if prefix.len() > s.len() {
        return false;
    }
    let mut i: usize = 0;
    while i < prefix.len()
        invariant
            i <= prefix.len() <= s.len(),
            forall|j: int| 0 <= j < i ==> s@[j] == prefix@[j],
        decreases prefix.len() - i,
    {
        if s[i] != prefix[i] {
            assert(s@.subrange(0, prefix@.len() as int)[i as int] != prefix@[i as int]);
            return false;
        }
        i += 1;
    }
    assert(prefix@ =~= s@.subrange(0, prefix@.len() as int));
    true
}

/// Whether `s` begins with the characters of `prefix`.
pub fn starts_with_str(s: &[char], prefix: &str) -> (b: bool)
    ensures
        b == prefix@.is_prefix_of(s@),
{
    let mut i: usize = 0;
    for c in it: prefix.chars()
        invariant
            it.seq() == prefix@,
            i == it.index() <= s@.len(),
            forall|j: int| 0 <= j < i ==> s@[j] == prefix@[j],
    {
        if i >= s.len() {
            return false;
        }
        if s[i] != c {
            proof {
                if prefix@.len() <= s@.len() {
                    assert(s@.subrange(0, prefix@.len() as int)[i as int] != prefix@[i as int]);
                }
            }
            return false;
        }
        i += 1;
    }
    assert(prefix@ =~= s@.subrange(0, prefix@.len() as int));
    true
}

/// The range of `s` that is left when leading and trailing whitespace is
/// taken away.
pub fn trim_span(s: &[char]) -> (r: Span)
    ensures
        r.fits(s@.len()),
        r.of(s@) == spec_trim(s@),
{
    let n = s.len();
    let mut a: usize = 0;
    assert(s@.skip(0) =~= s@);
    while a < n && is_whitespace(s[a])
        invariant
            a <= n == s@.len(),
            spec_trim_start(s@) == spec_trim_start(s@.skip(a as int)),
        decreases n - a,
    {
        assert(s@.skip(a as int).drop_first() =~= s@.skip(a + 1));
        a += 1;
    }
    let mut b: usize = n;
    assert(s@.skip(a as int) =~= s@.subrange(a as int, b as int));
    while b > a && is_whitespace(s[b - 1])
        invariant
            a <= b <= n == s@.len(),
            spec_trim(s@) == spec_trim_end(s@.subrange(a as int, b as int)),
        decreases b - a,
    {
        assert(s@.subrange(a as int, b as int).drop_last() =~= s@.subrange(a as int, b - 1));
        b -= 1;
    }
    Span { start: a, end: b }
}

/// Leading and trailing whitespace taken away from `s`.
pub fn trim(s: &[char]) -> (r: &[char])
    ensures
        r@ == spec_trim(s@),
{
    let span = trim_span(s);
    slice_subrange(s, span.start, span.end)
}

/// The position of the first `c` in `s`, or the length of `s` if there is none.
pub fn find(s: &[char], c: char) -> (n: usize)
    ensures
        n == spec_find(s@, c),
{
    let mut i: usize = 0;
    while i < s.len() && s[i] != c
        invariant
            i <= s.len(),
            forall|j: int| 0 <= j < i ==> s@[j] != c,
        decreases s.len() - i,
    {
        i += 1;
    }
    proof {
        lemma_find_is(s@, c, i as int);
    }
    i
}

/// The ranges of the pieces of `s` between occurrences of `sep`.
pub fn split(s: &[char], sep: char) -> (spans: Vec<Span>)
    ensures
        spans_fit(spans@, s@.len()),
        spans_of(spans@, s@) == spec_split(s@, sep),
{
    let n = s.len();
    let mut spans: Vec<Span> = Vec::new();
    let mut start: usize = 0;
    assert(s@.skip(0) =~= s@);
    assert(spans_of(spans@, s@) + spec_split(s@, sep) =~= spec_split(s@, sep));
    loop
        invariant
            start <= n == s@.len(),
            spans_fit(spans@, s@.len()),
            spec_split(s@, sep) == spans_of(spans@, s@) + spec_split(s@.skip(start as int), sep),
        decreases n - start,
    {
        let rest = slice_subrange(s, start, n);
        assert(rest@ =~= s@.skip(start as int));
        let k = find(rest, sep);
        proof {
            lemma_find_bound(rest@, sep);
        }
        let end = start + k;
        let ghost before = spans@;
        spans.push(Span { start, end });
        assert(rest@.take(k as int) =~= s@.subrange(start as int, end as int));
        if end == n {
            assert(spans_of(spans@, s@) =~= spans_of(before, s@) + seq![rest@]);
            return spans;
        }
        assert(rest@.skip(k + 1) =~= s@.skip(end + 1));
        assert(spans_of(spans@, s@) =~= spans_of(before, s@) + seq![rest@.take(k as int)]);
        start = end + 1;
    }
}

/// The ranges of the lines of `s`.
pub fn lines(s: &[char]) -> (spans: Vec<Span>)
    ensures
        spans_fit(spans@, s@.len()),
        spans_of(spans@, s@) == spec_lines(s@),
{
    let pieces = split(s, '\n');
    let ghost parts = spec_split(s@, '\n');
    proof {
        lemma_split_nonempty(s@, '\n');
        assert(spans_of(pieces@, s@).len() == pieces@.len());
    }
    let mut spans: Vec<Span> = Vec::new();
    let last = pieces.len() - 1;
    let mut i: usize = 0;
    while i < last
        invariant
            i <= last == pieces.len() - 1,
            spans_fit(pieces@, s@.len()),
            spans_fit(spans@, s@.len()),
            spans_of(pieces@, s@) == parts,
            spans@.len() == i,
            spans_of(spans@, s@) == Seq::new(i as nat, |j: int| spec_strip_cr(parts[j])),
        decreases last - i,
    {
        let piece = pieces[i];
        assert(piece.fits(s@.len()));
        assert(piece.of(s@) == parts[i as int]);
        let ghost before = spans@;
        let line = if piece.end > piece.start && s[piece.end - 1] == '\r' {
            Span { start: piece.start, end: piece.end - 1 }
        } else {
            piece
        };
        assert(line.of(s@) =~= spec_strip_cr(parts[i as int]));
        spans.push(line);
        assert forall|j: int| 0 <= j < i + 1 implies spans_of(spans@, s@)[j] == spec_strip_cr(
            parts[j],
        ) by {
            if j < i {
                assert(spans@[j] == before[j]);
                assert(spans_of(before, s@)[j] == spec_strip_cr(parts[j]));
            }
        }
        assert(spans_of(spans@, s@) =~= Seq::new((i + 1) as nat, |j: int| spec_strip_cr(parts[j])));
        i += 1;
    }
    let tail = pieces[last];
    assert(tail.fits(s@.len()));
    assert(tail.of(s@) == parts.last());
    if tail.end > tail.start {
        let ghost before = spans@;
        spans.push(tail);
        assert(spans_of(spans@, s@) =~= spans_of(before, s@).push(parts.last()));
    }
    spans
}

} // verus!
