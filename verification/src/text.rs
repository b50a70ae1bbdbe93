//! Text primitives over sequences of characters: whitespace, trimming,
//! splitting, substring search and joining.

use vstd::prelude::*;
use vstd::string::*;

verus! {

/// `String::push` appends one character to the end of the string.
pub assume_specification[ String::push ](s: &mut String, ch: char)
    ensures
        final(s)@ == old(s)@.push(ch),
;

/// Whether `c` carries the Unicode `White_Space` property.
pub open spec fn is_whitespace(c: char) -> bool {
    let n: u32 = c as u32;
    ||| 0x09 <= n <= 0x0D
    ||| n == 0x20
    ||| n == 0x85
    ||| n == 0xA0
    ||| n == 0x1680
    ||| 0x2000 <= n <= 0x200A
    ||| n == 0x2028
    ||| n == 0x2029
    ||| n == 0x202F
    ||| n == 0x205F
    ||| n == 0x3000
}

/// `s` without its leading whitespace.
pub open spec fn trim_start(s: Seq<char>) -> Seq<char>
    decreases s.len(),
{
    if s.len() > 0 && is_whitespace(s[0]) {
        trim_start(s.skip(1))
    } else {
        s
    }
}

/// `s` without its trailing whitespace.
pub open spec fn trim_end(s: Seq<char>) -> Seq<char>
    decreases s.len(),
{
    if s.len() > 0 && is_whitespace(s.last()) {
        trim_end(s.drop_last())
    } else {
        s
    }
}

/// `s` without leading and trailing whitespace.
pub open spec fn trim(s: Seq<char>) -> Seq<char> {
    trim_end(trim_start(s))
}

/// The views of a sequence of strings.
pub open spec fn texts(v: Seq<String>) -> Seq<Seq<char>> {
    Seq::new(v.len(), |i: int| v[i]@)
}

/// Whether `pat` occurs in `s` at position `i`.
pub open spec fn occurs_at(s: Seq<char>, pat: Seq<char>, i: int) -> bool {
    0 <= i && i + pat.len() <= s.len() && s.subrange(i, i + pat.len()) == pat
}

/// Whether `pat` occurs somewhere in `s`.
pub open spec fn contains(s: Seq<char>, pat: Seq<char>) -> bool {
    exists|i: int| occurs_at(s, pat, i)
}

/// Whether `s` begins with `pat`.
pub open spec fn starts_with(s: Seq<char>, pat: Seq<char>) -> bool {
    occurs_at(s, pat, 0)
}

/// What separates the pieces of a text.
#[derive(Clone, Copy, Debug)]
pub enum Delimiter {
    /// One given character.
    Char(char),
    /// Any whitespace character.
    Whitespace,
}

impl Delimiter {
    /// Whether `c` is a separator.
    pub open spec fn matches(self, c: char) -> bool {
        match self {
            Delimiter::Char(d) => c == d,
            Delimiter::Whitespace => is_whitespace(c),
        }
    }

    /// Decides whether `c` is a separator.
    pub fn is_match(&self, c: char) -> (b: bool)
        ensures
            b == self.matches(c),
    {
        match self {
            Delimiter::Char(d) => c == *d,
            Delimiter::Whitespace => is_space(c),
        }
    }
}

/// The pieces of `s` between separators. There is always one piece more
/// than there are separators in `s`; pieces may be empty.
pub open spec fn split(s: Seq<char>, d: Delimiter) -> Seq<Seq<char>>
    decreases s.len(),
{
    if s.len() == 0 {
        seq![Seq::<char>::empty()]
    } else {
        let before = split(s.drop_last(), d);
        if d.matches(s.last()) {
            before.push(Seq::<char>::empty())
        } else {
            before.drop_last().push(before.last().push(s.last()))
        }
    }
}

/// The pieces put together again, with `sep` between neighbours.
pub open spec fn join(pieces: Seq<Seq<char>>, sep: char) -> Seq<char>
    decreases pieces.len(),
{
    if pieces.len() == 0 {
        Seq::<char>::empty()
    } else if pieces.len() == 1 {
        pieces[0]
    } else {
        join(pieces.drop_last(), sep).push(sep) + pieces.last()
    }
}

/// The non-empty members of `pieces`, in order.
pub open spec fn non_empty(pieces: Seq<Seq<char>>) -> Seq<Seq<char>>
    decreases pieces.len(),
{
    if pieces.len() == 0 {
        pieces
    } else if pieces.last().len() > 0 {
        non_empty(pieces.drop_last()).push(pieces.last())
    } else {
        non_empty(pieces.drop_last())
    }
}

/// The maximal runs of non-whitespace characters of `s`, in order.
pub open spec fn words(s: Seq<char>) -> Seq<Seq<char>> {
    non_empty(split(s, Delimiter::Whitespace))
}

/// Each comma-separated piece of `s`, trimmed.
pub open spec fn comma_list(s: Seq<char>) -> Seq<Seq<char>> {
    let pieces = split(s, Delimiter::Char(','));
    Seq::new(pieces.len(), |i: int| trim(pieces[i]))
}

/// Decides the `White_Space` property of one character.
pub fn is_space(c: char) -> (b: bool)
    ensures
        b == is_whitespace(c),
{
    let n: u32 = c as u32;
    (0x09 <= n && n <= 0x0D) || n == 0x20 || n == 0x85 || n == 0xA0 || n == 0x1680 || (0x2000 <= n
        && n <= 0x200A) || n == 0x2028 || n == 0x2029 || n == 0x202F || n == 0x205F || n == 0x3000
}

/// The characters of `s`, one element each.
pub fn chars_of(s: &str) -> (v: Vec<char>)
    ensures
        v@ == s@,
{
    let mut v: Vec<char> = Vec::new();
    for c in it: s.chars()
        invariant
            it.seq() == s@,
            v@ == it.seq().take(it.index() as int),
    {
        v.push(c);
        assert(it.seq().take(it.index() + 1) =~= it.seq().take(it.index() as int).push(c));
    }
    assert(v@ =~= s@);
    v
}

/// The string made of `v[from..to]`.
pub fn string_of(v: &Vec<char>, from: usize, to: usize) -> (s: String)
    requires
        from <= to <= v.len(),
    ensures
        s@ == v@.subrange(from as int, to as int),
{
    let mut s = String::new();
    let mut i: usize = from;
    while i < to
        invariant
            from <= i <= to <= v.len(),
            s@ == v@.subrange(from as int, i as int),
        decreases to - i,
    {
        s.push(v[i]);
        i += 1;
        assert(v@.subrange(from as int, i as int) =~= v@.subrange(from as int, i - 1).push(
            v@[i - 1],
        ));
    }
    s
}

/// `v[from..to]` without leading and trailing whitespace.
pub fn trim_range(v: &Vec<char>, from: usize, to: usize) -> (s: String)
    requires
        from <= to <= v.len(),
    ensures
        s@ == trim(v@.subrange(from as int, to as int)),
{
    let mut i: usize = from;
    while i < to && is_space(v[i])
        invariant
            from <= i <= to <= v.len(),
            trim_start(v@.subrange(from as int, to as int)) == trim_start(
                v@.subrange(i as int, to as int),
            ),
        decreases to - i,
    {
        assert(v@.subrange(i as int, to as int).skip(1) =~= v@.subrange(i + 1, to as int));
        i += 1;
    }
    let mut j: usize = to;
    while j > i && is_space(v[j - 1])
        invariant
            i <= j <= to <= v.len(),
            trim_end(v@.subrange(i as int, to as int)) == trim_end(v@.subrange(i as int, j as int)),
        decreases j,
    {
        assert(v@.subrange(i as int, j as int).drop_last() =~= v@.subrange(i as int, j - 1));
        j -= 1;
    }
    string_of(v, i, j)
}

/// `s` without leading and trailing whitespace.
pub fn trimmed(s: &str) -> (r: String)
    ensures
        r@ == trim(s@),
{
    let v = chars_of(s);
    assert(v@.subrange(0, v.len() as int) =~= v@);
    trim_range(&v, 0, v.len())
}

/// The bounds of each piece of `v` between separators: the first piece
/// starts at the start of `v`, each next one right after the separator
/// that ends the one before, and the last one ends at the end of `v`.
pub fn split_ranges(v: &Vec<char>, d: Delimiter) -> (out: Vec<(usize, usize)>)
    ensures
        out.len() == split(v@, d).len(),
        out.len() >= 1,
        out[0].0 == 0,
        out[out.len() - 1].1 == v.len(),
        forall|k: int| 0 <= k < out.len() - 1 ==> (#[trigger] out[k + 1]).0 == out[k].1 + 1,
        forall|k: int|
            0 <= k < out.len() ==> (#[trigger] out[k]).0 <= out[k].1 <= v.len() && v@.subrange(
                out[k].0 as int,
                out[k].1 as int,
            ) == split(v@, d)[k],
{
    let mut out: Vec<(usize, usize)> = Vec::new();
    let mut start: usize = 0;
    let mut i: usize = 0;
    assert(v@.take(0) =~= Seq::<char>::empty());
    assert(v@.subrange(0, 0) =~= Seq::<char>::empty());
    while i < v.len()
        invariant
            start <= i <= v.len(),
            out.len() == 0 ==> start == 0,
            out.len() > 0 ==> out[0].0 == 0 && start == out[out.len() - 1].1 + 1,
            forall|k: int| 0 <= k < out.len() - 1 ==> (#[trigger] out[k + 1]).0 == out[k].1 + 1,
            split(v@.take(i as int), d).len() == out.len() + 1,
            split(v@.take(i as int), d).last() == v@.subrange(start as int, i as int),
            forall|k: int|
                0 <= k < out.len() ==> (#[trigger] out[k]).0 <= out[k].1 <= v.len() && v@.subrange(
                    out[k].0 as int,
                    out[k].1 as int,
                ) == split(v@.take(i as int), d)[k],
        decreases v.len() - i,
    {
        let c = v[i];
        proof {
            assert(v@.take(i + 1).drop_last() =~= v@.take(i as int));
            assert(v@.take(i + 1).last() == c);
            assert(v@.subrange(start as int, i as int).push(c) =~= v@.subrange(
                start as int,
                i + 1,
            ));
            assert(v@.subrange(i + 1, i + 1) =~= Seq::<char>::empty());
        }
        if d.is_match(c) {
            out.push((start, i));
            start = i + 1;
        }
        i += 1;
    }
    assert(v@.take(v.len() as int) =~= v@);
    out.push((start, i));
    out
}

/// The comma-separated pieces of `s`, each trimmed.
pub fn split_comma_list(s: &str) -> (out: Vec<String>)
    ensures
        texts(out@) == comma_list(s@),
{
    let v = chars_of(s);
    let ranges = split_ranges(&v, Delimiter::Char(','));
    let mut out: Vec<String> = Vec::new();
    let mut k: usize = 0;
    while k < ranges.len()
        invariant
            k <= ranges.len(),
            v@ == s@,
            out.len() == k,
            ranges.len() == split(v@, Delimiter::Char(',')).len(),
            forall|m: int|
                0 <= m < ranges.len() ==> (#[trigger] ranges[m]).0 <= ranges[m].1 <= v.len()
                    && v@.subrange(ranges[m].0 as int, ranges[m].1 as int) == split(
                    v@,
                    Delimiter::Char(','),
                )[m],
            forall|m: int| 0 <= m < k ==> (#[trigger] out[m])@ == comma_list(s@)[m],
        decreases ranges.len() - k,
    {
        let r = ranges[k];
        out.push(trim_range(&v, r.0, r.1));
        k += 1;
    }
    assert(texts(out@) =~= comma_list(s@));
    out
}

/// The whitespace-separated words of `s`.
pub fn split_words(s: &str) -> (out: Vec<String>)
    ensures
        texts(out@) == words(s@),
{
    let v = chars_of(s);
    let ranges = split_ranges(&v, Delimiter::Whitespace);
    let ghost pieces = split(v@, Delimiter::Whitespace);
    let mut out: Vec<String> = Vec::new();
    let mut k: usize = 0;
    assert(pieces.take(0) =~= Seq::<Seq<char>>::empty());
    assert(texts(out@) =~= non_empty(pieces.take(0)));
    while k < ranges.len()
        invariant
            k <= ranges.len(),
            v@ == s@,
            pieces == split(v@, Delimiter::Whitespace),
            ranges.len() == pieces.len(),
            forall|m: int|
                0 <= m < ranges.len() ==> (#[trigger] ranges[m]).0 <= ranges[m].1 <= v.len()
                    && v@.subrange(ranges[m].0 as int, ranges[m].1 as int) == pieces[m],
            texts(out@) == non_empty(pieces.take(k as int)),
        decreases ranges.len() - k,
    {
        let r = ranges[k];
        proof {
            assert(pieces.take(k + 1).drop_last() =~= pieces.take(k as int));
            assert(pieces.take(k + 1).last() == pieces[k as int]);
        }
        if r.0 < r.1 {
            let ghost before = out@;
            let word = string_of(&v, r.0, r.1);
            out.push(word);
            assert(texts(out@) =~= texts(before).push(word@));
        }
        k += 1;
    }
    assert(pieces.take(pieces.len() as int) =~= pieces);
    out
}

/// Decides whether `pat` occurs in `v` at position `i`.
pub fn matches_at(v: &Vec<char>, pat: &Vec<char>, i: usize) -> (b: bool)
    requires
        i + pat.len() <= v.len(),
    ensures
        b == occurs_at(v@, pat@, i as int),
{
    let mut j: usize = 0;
    while j < pat.len()
        invariant
            j <= pat.len(),
            i + pat.len() <= v.len(),
            forall|k: int| 0 <= k < j ==> v@[i + k] == pat@[k],
        decreases pat.len() - j,
    {
        if v[i + j] != pat[j] {
            assert(v@.subrange(i as int, i + pat.len())[j as int] != pat@[j as int]);
            return false;
        }
        j += 1;
    }
    assert(v@.subrange(i as int, i + pat.len()) =~= pat@);
    true
}

/// Decides whether `pat` occurs somewhere in `s`.
pub fn has_substring(s: &str, pat: &str) -> (b: bool)
    ensures
        b == contains(s@, pat@),
{
    let v = chars_of(s);
    let p = chars_of(pat);
    if p.len() > v.len() {
        return false;
    }
    let last: usize = v.len() - p.len();
    let mut i: usize = 0;
    while i < last
        invariant
            i <= last,
            last == v.len() - p.len(),
            v@ == s@,
            p@ == pat@,
            forall|k: int| 0 <= k < i ==> !occurs_at(v@, p@, k),
        decreases last - i,
    {
        if matches_at(&v, &p, i) {
            return true;
        }
        i += 1;
    }
    matches_at(&v, &p, last)
}

/// Decides whether `s` begins with `pat`.
pub fn has_prefix(s: &str, pat: &str) -> (b: bool)
    ensures
        b == starts_with(s@, pat@),
{
    let v = chars_of(s);
    let p = chars_of(pat);
    p.len() <= v.len() && matches_at(&v, &p, 0)
}

/// `s` from its `n`-th character on.
pub fn skip_chars(s: &str, n: usize) -> (r: String)
    requires
        n <= s@.len(),
    ensures
        r@ == s@.skip(n as int),
{
    let v = chars_of(s);
    string_of(&v, n, v.len())
}

/// `a` followed by `b`.
pub fn concat_str(a: &str, b: &str) -> (r: String)
    ensures
        r@ == a@ + b@,
{
    let mut r = String::from_str(a);
    r.append(b);
    r
}

/// Whether `needle` is a member of `list`.
pub fn list_contains(list: &Vec<String>, needle: &str) -> (b: bool)
    ensures
        b == texts(list@).contains(needle@),
{
    let mut i: usize = 0;
    while i < list.len()
        invariant
            i <= list.len(),
            forall|k: int| 0 <= k < i ==> list[k]@ != needle@,
        decreases list.len() - i,
    {
        if str_eq(list[i].as_str(), needle) {
            assert(texts(list@)[i as int] == needle@);
            return true;
        }
        i += 1;
    }
    false
}

/// Decides whether two texts hold the same characters.
pub fn str_eq(a: &str, b: &str) -> (r: bool)
    ensures
        r == (a@ == b@),
{
    let x = String::from_str(a);
    let y = String::from_str(b);
    x == y
}

/// What `trim_start` removes is whitespace, and what it leaves does not
/// begin with whitespace.
pub proof fn lemma_trim_start(s: Seq<char>)
    ensures
        trim_start(s).len() <= s.len(),
        trim_start(s) == s.skip(s.len() - trim_start(s).len()),
        forall|i: int| 0 <= i < s.len() - trim_start(s).len() ==> is_whitespace(#[trigger] s[i]),
        trim_start(s).len() > 0 ==> !is_whitespace(trim_start(s)[0]),
    decreases s.len(),
{
    if s.len() > 0 && is_whitespace(s[0]) {
        let rest = s.skip(1);
        lemma_trim_start(rest);
        let cut = rest.len() - trim_start(rest).len();
        assert(rest.skip(cut) =~= s.skip(cut + 1));
        assert forall|i: int| 0 <= i < s.len() - trim_start(s).len() implies is_whitespace(
            #[trigger] s[i],
        ) by {
            if i > 0 {
                assert(s[i] == rest[i - 1]);
            }
        }
    } else {
        assert(s.skip(0) =~= s);
    }
}

/// What `trim_end` removes is whitespace, and what it leaves does not end
/// with whitespace.
pub proof fn lemma_trim_end(s: Seq<char>)
    ensures
        trim_end(s).len() <= s.len(),
        trim_end(s) == s.take(trim_end(s).len() as int),
        forall|i: int| trim_end(s).len() <= i < s.len() ==> is_whitespace(#[trigger] s[i]),
        trim_end(s).len() > 0 ==> !is_whitespace(trim_end(s).last()),
    decreases s.len(),
{
    if s.len() > 0 && is_whitespace(s.last()) {
        let rest = s.drop_last();
        lemma_trim_end(rest);
        assert(rest.take(trim_end(rest).len() as int) =~= s.take(trim_end(rest).len() as int));
        assert forall|i: int| trim_end(s).len() <= i < s.len() implies is_whitespace(
            #[trigger] s[i],
        ) by {
            if i < rest.len() {
                assert(s[i] == rest[i]);
            }
        }
    } else {
        assert(s.take(s.len() as int) =~= s);
    }
}

/// Trimming cuts a text down to the stretch from its first to its last
/// character that is not whitespace: `trim(s)` is `s[a..b]`, everything
/// before `a` and from `b` on is whitespace, and the stretch, unless
/// empty, begins and ends with a character that is not.
pub proof fn law_trim_cuts_to_the_core(s: Seq<char>) -> (bounds: (int, int))
    ensures
        0 <= bounds.0 <= bounds.1 <= s.len(),
        trim(s) == s.subrange(bounds.0, bounds.1),
        forall|i: int| 0 <= i < bounds.0 ==> is_whitespace(#[trigger] s[i]),
        forall|i: int| bounds.1 <= i < s.len() ==> is_whitespace(#[trigger] s[i]),
        bounds.0 < bounds.1 ==> !is_whitespace(s[bounds.0]) && !is_whitespace(s[bounds.1 - 1]),
{
    lemma_trim_start(s);
    let head = trim_start(s);
    lemma_trim_end(head);
    let a = s.len() - head.len();
    let b = a + trim(s).len();
    assert(trim(s) =~= s.subrange(a, b));
    assert forall|i: int| b <= i < s.len() implies is_whitespace(#[trigger] s[i]) by {
        assert(s[i] == head[i - a]);
    }
    if a < b {
        assert(head[0] == s[a]);
        assert(trim(s).last() == s[b - 1]);
        assert(trim(s)[0] == head[0]);
    }
    (a, b)
}

/// Trimming a trimmed text changes nothing.
pub proof fn law_trim_is_idempotent(s: Seq<char>)
    ensures
        trim(trim(s)) == trim(s),
{
    let t = trim(s);
    lemma_trim_start(s);
    lemma_trim_end(trim_start(s));
    if t.len() > 0 {
        assert(t[0] == trim_start(s)[0]);
    }
}

/// A split always gives at least one piece, and no piece holds a
/// separator; a text without separators is its own single piece.
pub proof fn law_split_pieces(s: Seq<char>, d: Delimiter)
    ensures
        split(s, d).len() >= 1,
        forall|k: int, j: int|
            0 <= k < split(s, d).len() && 0 <= j < split(s, d)[k].len() ==> !d.matches(
                #[trigger] split(s, d)[k][j],
            ),
        (forall|i: int| 0 <= i < s.len() ==> !d.matches(#[trigger] s[i])) ==> split(s, d) == seq![s],
    decreases s.len(),
{
    if s.len() > 0 {
        let before = s.drop_last();
        law_split_pieces(before, d);
        let pieces = split(s, d);
        if (forall|i: int| 0 <= i < s.len() ==> !d.matches(#[trigger] s[i])) {
            assert forall|i: int| 0 <= i < before.len() implies !d.matches(
                #[trigger] before[i],
            ) by {
                assert(before[i] == s[i]);
            }
            assert(split(before, d) == seq![before]);
            assert(pieces =~= seq![before.push(s.last())]);
            assert(before.push(s.last()) =~= s);
        }
    } else {
        assert(s =~= Seq::<char>::empty());
    }
}

/// Every member of `non_empty(pieces)` is a member of `pieces` and is not
/// empty.
pub proof fn lemma_non_empty_members(pieces: Seq<Seq<char>>)
    ensures
        non_empty(pieces).len() <= pieces.len(),
        forall|k: int|
            0 <= k < non_empty(pieces).len() ==> (#[trigger] non_empty(pieces)[k]).len() > 0
                && pieces.contains(non_empty(pieces)[k]),
    decreases pieces.len(),
{
    if pieces.len() > 0 {
        let before = pieces.drop_last();
        lemma_non_empty_members(before);
        assert forall|k: int| 0 <= k < non_empty(pieces).len() implies (#[trigger] non_empty(
            pieces,
        )[k]).len() > 0 && pieces.contains(non_empty(pieces)[k]) by {
            if k < non_empty(before).len() {
                let w = non_empty(before)[k];
                assert(before.contains(w));
                let m = choose|m: int| 0 <= m < before.len() && before[m] == w;
                assert(pieces[m] == w);
            } else {
                assert(pieces[pieces.len() - 1] == pieces.last());
            }
        }
    }
}

/// Every word of a text is non-empty and holds no whitespace.
pub proof fn law_words_hold_no_whitespace(s: Seq<char>)
    ensures
        forall|k: int| 0 <= k < words(s).len() ==> (#[trigger] words(s)[k]).len() > 0,
        forall|k: int, j: int|
            0 <= k < words(s).len() && 0 <= j < words(s)[k].len() ==> !is_whitespace(
                #[trigger] words(s)[k][j],
            ),
{
    let pieces = split(s, Delimiter::Whitespace);
    law_split_pieces(s, Delimiter::Whitespace);
    lemma_non_empty_members(pieces);
    assert forall|k: int, j: int|
        0 <= k < words(s).len() && 0 <= j < words(s)[k].len() implies !is_whitespace(
        #[trigger] words(s)[k][j],
    ) by {
        let w = words(s)[k];
        assert(pieces.contains(w));
        let m = choose|m: int| 0 <= m < pieces.len() && pieces[m] == w;
        assert(!Delimiter::Whitespace.matches(pieces[m][j]));
    }
}

/// Splitting at a character loses nothing: the pieces, put together
/// again with that character between them, are the text.
pub proof fn law_join_undoes_split(s: Seq<char>, sep: char)
    ensures
        join(split(s, Delimiter::Char(sep)), sep) == s,
    decreases s.len(),
{
    let d = Delimiter::Char(sep);
    if s.len() == 0 {
        assert(s =~= Seq::<char>::empty());
    } else {
        let before = s.drop_last();
        let x = s.last();
        let old_pieces = split(before, d);
        let pieces = split(s, d);
        law_join_undoes_split(before, sep);
        law_split_pieces(before, d);
        assert(before.push(x) =~= s);
        if x == sep {
            assert(pieces.drop_last() =~= old_pieces);
            assert(before.push(sep) + Seq::<char>::empty() =~= before.push(sep));
        } else if old_pieces.len() == 1 {
            assert(pieces.len() == 1);
        } else {
            assert(pieces.drop_last() =~= old_pieces.drop_last());
            let head = join(old_pieces.drop_last(), sep).push(sep);
            assert(head + old_pieces.last().push(x) =~= (head + old_pieces.last()).push(x));
        }
    }
}

} // verus!
