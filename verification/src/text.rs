//! Character-level helpers: splitting on a separator and trimming white space.

use vstd::prelude::*;

verus! {

/// The Unicode `White_Space` property, which `char::is_whitespace` tests.
pub open spec fn is_white(c: char) -> bool {
    ||| ('\u{9}' <= c && c <= '\u{d}')
    ||| c == ' '
    ||| c == '\u{85}'
    ||| c == '\u{a0}'
    ||| c == '\u{1680}'
    ||| ('\u{2000}' <= c && c <= '\u{200a}')
    ||| c == '\u{2028}'
    ||| c == '\u{2029}'
    ||| c == '\u{202f}'
    ||| c == '\u{205f}'
    ||| c == '\u{3000}'
}

/// The pieces of `s` between occurrences of `sep`, as `str::split` yields them:
/// `k` separators give `k + 1` pieces, empty ones included.
pub open spec fn split_on(s: Seq<char>, sep: char) -> Seq<Seq<char>>
    decreases s.len(),
{
    if s.len() == 0 {
        seq![Seq::<char>::empty()]
    } else {
        let init = split_on(s.drop_last(), sep);
        if s.last() == sep {
            init.push(Seq::<char>::empty())
        } else {
            init.update(init.len() - 1, init.last().push(s.last()))
        }
    }
}

/// `s` without its leading white space.
pub open spec fn trim_start(s: Seq<char>) -> Seq<char>
    decreases s.len(),
{
    if s.len() > 0 && is_white(s[0]) {
        trim_start(s.drop_first())
    } else {
        s
    }
}

/// `s` without its trailing white space.
pub open spec fn trim_end(s: Seq<char>) -> Seq<char>
    decreases s.len(),
{
    if s.len() > 0 && is_white(s.last()) {
        trim_end(s.drop_last())
    } else {
        s
    }
}

/// `s` without leading and trailing white space, as `str::trim` gives it.
pub open spec fn trim(s: Seq<char>) -> Seq<char> {
    trim_end(trim_start(s))
}

/// Splitting always yields at least one piece.
pub proof fn lemma_split_nonempty(s: Seq<char>, sep: char)
    ensures
        split_on(s, sep).len() >= 1,
    decreases s.len(),
{
    if s.len() > 0 {
        lemma_split_nonempty(s.drop_last(), sep);
    }
}

/// `t` holds no `sep`.
pub open spec fn free_of(t: Seq<char>, sep: char) -> bool {
    forall|i: int| 0 <= i < t.len() ==> t[i] != sep
}

/// The pieces joined back with `sep` between them.
pub open spec fn join_with(pieces: Seq<Seq<char>>, sep: char) -> Seq<char>
    decreases pieces.len(),
{
    if pieces.len() == 0 {
        Seq::<char>::empty()
    } else if pieces.len() == 1 {
        pieces[0]
    } else {
        join_with(pieces.drop_last(), sep) + seq![sep] + pieces.last()
    }
}

/// Text free of the separator lengthens the last piece.
pub proof fn lemma_split_extend(s: Seq<char>, t: Seq<char>, sep: char)
    requires
        free_of(t, sep),
    ensures
        split_on(s + t, sep) == split_on(s, sep).update(
            split_on(s, sep).len() - 1,
            split_on(s, sep).last() + t,
        ),
    decreases t.len(),
{
    lemma_split_nonempty(s, sep);
    let p = split_on(s, sep);
    if t.len() == 0 {
        assert(s + t =~= s);
        assert(p.last() + t =~= p.last());
        assert(p.update(p.len() - 1, p.last()) =~= p);
    } else {
        let t2 = t.drop_last();
        assert(free_of(t2, sep));
        lemma_split_extend(s, t2, sep);
        assert((s + t).drop_last() =~= s + t2);
        assert((s + t).last() == t.last());
        assert(t.last() == t[t.len() - 1]);
        assert((p.last() + t2).push(t.last()) =~= p.last() + t);
        assert(p.update(p.len() - 1, p.last() + t2).update(p.len() - 1, p.last() + t) =~= p.update(
            p.len() - 1,
            p.last() + t,
        ));
    }
}

/// Splitting pieces free of the separator, joined with it, gives them back.
pub proof fn lemma_split_join(pieces: Seq<Seq<char>>, sep: char)
    requires
        pieces.len() >= 1,
        forall|i: int| 0 <= i < pieces.len() ==> free_of(#[trigger] pieces[i], sep),
    ensures
        split_on(join_with(pieces, sep), sep) == pieces,
    decreases pieces.len(),
{
    if pieces.len() == 1 {
        let e = Seq::<char>::empty();
        lemma_split_extend(e, pieces[0], sep);
        assert(e + pieces[0] =~= pieces[0]);
        assert(split_on(e, sep) =~= seq![e]);
        assert(seq![e].update(0, e + pieces[0]) =~= pieces);
    } else {
        let init = pieces.drop_last();
        assert forall|i: int| 0 <= i < init.len() implies free_of(#[trigger] init[i], sep) by {
            assert(init[i] == pieces[i]);
        }
        lemma_split_join(init, sep);
        let j = join_with(init, sep);
        let js = j + seq![sep];
        assert(js.drop_last() =~= j);
        assert(split_on(js, sep) == init.push(Seq::<char>::empty()));
        assert(free_of(pieces.last(), sep));
        lemma_split_extend(js, pieces.last(), sep);
        assert(join_with(pieces, sep) == js + pieces.last());
        assert(Seq::<char>::empty() + pieces.last() =~= pieces.last());
        assert(init.push(Seq::<char>::empty()).update(init.len() as int, pieces.last()) =~= pieces);
    }
}

/// Start of piece `j` when the separators stand at `seps`.
pub open spec fn piece_start(seps: Seq<usize>, j: int) -> int {
    if j == 0 {
        0
    } else {
        seps[j - 1] + 1
    }
}

/// End of piece `j` in a text of length `n` whose separators stand at `seps`.
pub open spec fn piece_end(seps: Seq<usize>, j: int, n: int) -> int {
    if j < seps.len() {
        seps[j] as int
    } else {
        n
    }
}

/// `seps` holds, in increasing order, the positions of `sep` in `v`: the
/// pieces of `split_on(v, sep)` are the stretches between them.
pub open spec fn separators_of(v: Seq<char>, sep: char, seps: Seq<usize>) -> bool {
    &&& split_on(v, sep).len() == seps.len() + 1
    &&& forall|a: int, b: int| 0 <= a < b < seps.len() ==> seps[a] < seps[b]
    &&& forall|a: int| 0 <= a < seps.len() ==> seps[a] < v.len()
    &&& forall|j: int|
        0 <= j < split_on(v, sep).len() ==> #[trigger] split_on(v, sep)[j] == v.subrange(
            piece_start(seps, j),
            piece_end(seps, j, v.len() as int),
        )
}

/// Tests `char::is_whitespace`.
pub fn is_white_char(c: char) -> (b: bool)
    ensures
        b == is_white(c),
{
    ('\u{9}' <= c && c <= '\u{d}') || c == ' ' || c == '\u{85}' || c == '\u{a0}' || c
        == '\u{1680}' || ('\u{2000}' <= c && c <= '\u{200a}') || c == '\u{2028}' || c
        == '\u{2029}' || c == '\u{202f}' || c == '\u{205f}' || c == '\u{3000}'
}

/// The characters of `s`, one by one.
pub fn chars_of(s: &str) -> (v: Vec<char>)
    ensures
        v@ == s@,
{
    let n: usize = s.unicode_len();
    let mut v: Vec<char> = Vec::new();
    for i in 0..n
        invariant
            n == s@.len(),
            v@ == s@.take(i as int),
    {
        v.push(s.get_char(i));
        assert(v@ =~= s@.take(i + 1));
    }
    assert(v@ =~= s@);
    v
}

/// The positions of `sep` in `v`, in increasing order; they delimit the pieces
/// of `split_on(v@, sep)`.
pub fn separator_positions(v: &Vec<char>, sep: char) -> (seps: Vec<usize>)
    ensures
        separators_of(v@, sep, seps@),
{
    let mut seps: Vec<usize> = Vec::new();
    let n: usize = v.len();
    assert(v@.take(0) =~= Seq::<char>::empty());
    let mut i: usize = 0;
    while i < n
        invariant
            n == v.len(),
            i <= n,
            split_on(v@.take(i as int), sep).len() == seps.len() + 1,
            forall|a: int, b: int| 0 <= a < b < seps.len() ==> seps[a] < seps[b],
            forall|a: int| 0 <= a < seps.len() ==> seps[a] < i,
            forall|j: int|
                0 <= j < seps.len() + 1 ==> #[trigger] split_on(v@.take(i as int), sep)[j]
                    == v@.subrange(piece_start(seps@, j), piece_end(seps@, j, i as int)),
        decreases n - i,
    {
        let ghost old_seps = seps@;
        let ghost prev = split_on(v@.take(i as int), sep);
        assert(v@.take(i + 1).drop_last() =~= v@.take(i as int));
        assert(v@.take(i + 1).last() == v@[i as int]);
        if v[i] == sep {
            seps.push(i);
            assert forall|j: int| 0 <= j < seps.len() + 1 implies #[trigger] split_on(
                v@.take(i + 1),
                sep,
            )[j] == v@.subrange(piece_start(seps@, j), piece_end(seps@, j, i + 1)) by {
                if j < old_seps.len() + 1 {
                    assert(prev[j] == v@.subrange(
                        piece_start(old_seps, j),
                        piece_end(old_seps, j, i as int),
                    ));
                    assert(piece_start(seps@, j) == piece_start(old_seps, j));
                } else {
                    assert(v@.subrange(i + 1, i + 1) =~= Seq::<char>::empty());
                }
            }
        } else {
            let ghost last = old_seps.len() as int;
            assert forall|j: int| 0 <= j < seps.len() + 1 implies #[trigger] split_on(
                v@.take(i + 1),
                sep,
            )[j] == v@.subrange(piece_start(seps@, j), piece_end(seps@, j, i + 1)) by {
                assert(prev[j] == v@.subrange(
                    piece_start(old_seps, j),
                    piece_end(old_seps, j, i as int),
                ));
                if j == last {
                    assert(v@.subrange(piece_start(seps@, j), i as int).push(v@[i as int])
                        =~= v@.subrange(piece_start(seps@, j), i + 1));
                }
            }
        }
        i = i + 1;
    }
    assert(v@.take(n as int) =~= v@);
    seps
}

/// The bounds, inside `v`, of the trimmed piece `v@.subrange(a, b)`.
pub fn trim_bounds(v: &Vec<char>, a: usize, b: usize) -> (r: (usize, usize))
    requires
        a <= b <= v.len(),
    ensures
        a <= r.0 <= r.1 <= b,
        v@.subrange(r.0 as int, r.1 as int) == trim(v@.subrange(a as int, b as int)),
{
    let mut s: usize = a;
    while s < b && is_white_char(v[s])
        invariant
            a <= s <= b <= v.len(),
            trim_start(v@.subrange(a as int, b as int)) == trim_start(
                v@.subrange(s as int, b as int),
            ),
        decreases b - s,
    {
        assert(v@.subrange(s as int, b as int).drop_first() =~= v@.subrange(s + 1, b as int));
        s = s + 1;
    }
    if s == b {
        assert(v@.subrange(s as int, b as int) =~= Seq::<char>::empty());
    }
    let mut e: usize = b;
    while e > s && is_white_char(v[e - 1])
        invariant
            a <= s <= e <= b <= v.len(),
            trim_start(v@.subrange(a as int, b as int)) == v@.subrange(s as int, b as int),
            trim_end(v@.subrange(s as int, b as int)) == trim_end(
                v@.subrange(s as int, e as int),
            ),
        decreases e - s,
    {
        assert(v@.subrange(s as int, e as int).drop_last() =~= v@.subrange(s as int, e - 1));
        e = e - 1;
    }
    (s, e)
}

/// The bounds, inside `v`, of the trimmed piece `k` of `split_on(v@, sep)`.
pub fn trimmed_piece_bounds(v: &Vec<char>, sep: char, seps: &Vec<usize>, k: usize) -> (r: (
    usize,
    usize,
))
    requires
        separators_of(v@, sep, seps@),
        k <= seps.len(),
    ensures
        r.0 <= r.1 <= v.len(),
        v@.subrange(r.0 as int, r.1 as int) == trim(split_on(v@, sep)[k as int]),
{
    let start: usize = if k == 0 {
        0
    } else {
        assert(seps[k - 1] < v.len());
        seps[k - 1] + 1
    };
    let end: usize = if k < seps.len() {
        seps[k]
    } else {
        v.len()
    };
    assert(split_on(v@, sep)[k as int] == v@.subrange(start as int, end as int));
    trim_bounds(v, start, end)
}

} // verus!
