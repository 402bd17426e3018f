//! Character-level text operations over `Seq<char>`: the whitespace trimming,
//! prefix and separator handling that the rest of the library builds on.
//!
//! Exec functions here work on a `Vec<char>` together with a half-open range
//! `[a, b)` of it, and return new bounds, so that every piece they produce is
//! a subrange of the text they were given.
use vstd::prelude::*;
use vstd::string::*;

verus! {

/// Unicode `White_Space`, the set of characters that `str::trim` removes.
pub open spec fn is_white_space(c: char) -> bool {
    let u = c as u32;
    ||| 0x09 <= u <= 0x0D
    ||| u == 0x20
    ||| u == 0x85
    ||| u == 0xA0
    ||| u == 0x1680
    ||| 0x2000 <= u <= 0x200A
    ||| u == 0x2028
    ||| u == 0x2029
    ||| u == 0x202F
    ||| u == 0x205F
    ||| u == 0x3000
}

/// `s` without its leading whitespace.
pub open spec fn trim_start(s: Seq<char>) -> Seq<char>
    decreases s.len(),
{
    if s.len() > 0 && is_white_space(s[0]) {
        trim_start(s.drop_first())
    } else {
        s
    }
}

/// `s` without its trailing whitespace.
pub open spec fn trim_end(s: Seq<char>) -> Seq<char>
    decreases s.len(),
{
    if s.len() > 0 && is_white_space(s.last()) {
        trim_end(s.drop_last())
    } else {
        s
    }
}

/// `s` without leading and trailing whitespace (what `str::trim` gives).
pub open spec fn trim(s: Seq<char>) -> Seq<char> {
    trim_end(trim_start(s))
}

/// `s` without any leading copies of `c`.
pub open spec fn strip_leading(s: Seq<char>, c: char) -> Seq<char>
    decreases s.len(),
{
    if s.len() > 0 && s[0] == c {
        strip_leading(s.drop_first(), c)
    } else {
        s
    }
}

/// `s` without any trailing copies of `c`.
pub open spec fn strip_trailing(s: Seq<char>, c: char) -> Seq<char>
    decreases s.len(),
{
    if s.len() > 0 && s.last() == c {
        strip_trailing(s.drop_last(), c)
    } else {
        s
    }
}

/// The pieces of `s` between occurrences of `sep`, in order (what
/// `str::split` with a character gives): there is always at least one
/// piece, and `k` separators give `k + 1` pieces.
pub open spec fn split_on(s: Seq<char>, sep: char) -> Seq<Seq<char>>
    decreases s.len(),
{
    if s.len() == 0 {
        seq![Seq::<char>::empty()]
    } else {
        let rest = split_on(s.drop_first(), sep);
        if s[0] == sep {
            seq![Seq::<char>::empty()] + rest
        } else {
            rest.update(0, seq![s[0]] + rest[0])
        }
    }
}

/// `p` is a prefix of `s`.
pub open spec fn has_prefix(s: Seq<char>, p: Seq<char>) -> bool {
    p.len() <= s.len() && s.take(p.len() as int) == p
}

/// `t` occurs in `s` as a contiguous piece.
pub open spec fn occurs_in(t: Seq<char>, s: Seq<char>) -> bool {
    exists|i: int| 0 <= i && i + t.len() <= s.len() && #[trigger] s.subrange(i, i + t.len()) == t
}

/// `c` does not occur in `s`.
pub open spec fn free_of(s: Seq<char>, c: char) -> bool {
    forall|i: int| 0 <= i < s.len() ==> s[i] != c
}

/// The subranges of `v` that the index pairs in `r` delimit.
pub open spec fn ranges_view(v: Seq<char>, r: Seq<(usize, usize)>) -> Seq<Seq<char>> {
    Seq::new(r.len(), |k: int| v.subrange(r[k].0 as int, r[k].1 as int))
}

/// `split_on` never gives an empty list of pieces.
pub proof fn lemma_split_on_nonempty(s: Seq<char>, sep: char)
    ensures
        split_on(s, sep).len() >= 1,
    decreases s.len(),
{
    if s.len() > 0 {
        lemma_split_on_nonempty(s.drop_first(), sep);
    }
}

/// Splitting `a + t`, where `a` holds no separator, glues `a` to the front
/// of the first piece of `t`.
pub proof fn lemma_split_on_free_prefix(a: Seq<char>, t: Seq<char>, sep: char)
    requires
        free_of(a, sep),
    ensures
        split_on(a + t, sep) == split_on(t, sep).update(0, a + split_on(t, sep)[0]),
    decreases a.len(),
{
    lemma_split_on_nonempty(t, sep);
    if a.len() == 0 {
        assert(a + t =~= t);
        assert(a + split_on(t, sep)[0] =~= split_on(t, sep)[0]);
        assert(split_on(t, sep).update(0, split_on(t, sep)[0]) =~= split_on(t, sep));
    } else {
        let a1 = a.drop_first();
        assert(free_of(a1, sep));
        lemma_split_on_free_prefix(a1, t, sep);
        assert((a + t).drop_first() =~= a1 + t);
        let rt = split_on(t, sep);
        assert(seq![a[0]] + (a1 + rt[0]) =~= a + rt[0]);
        assert(split_on(a + t, sep) =~= rt.update(0, a + rt[0]));
    }
}

/// Splitting `a + [sep] + t`, where `a` holds no separator, gives `a`
/// followed by the pieces of `t`.
pub proof fn lemma_split_on_first_piece(a: Seq<char>, t: Seq<char>, sep: char)
    requires
        free_of(a, sep),
    ensures
        split_on(a + seq![sep] + t, sep) == seq![a] + split_on(t, sep),
{
    let st = seq![sep] + t;
    assert(st.drop_first() =~= t);
    assert(split_on(st, sep) == seq![Seq::<char>::empty()] + split_on(t, sep));
    lemma_split_on_free_prefix(a, st, sep);
    assert(a + seq![sep] + t =~= a + st);
    assert(a + Seq::<char>::empty() =~= a);
    assert(split_on(st, sep).update(0, a + split_on(st, sep)[0]) =~= seq![a] + split_on(t, sep));
}

/// A text without the separator is a single piece.
pub proof fn lemma_split_on_free(a: Seq<char>, sep: char)
    requires
        free_of(a, sep),
    ensures
        split_on(a, sep) == seq![a],
{
    lemma_split_on_free_prefix(a, Seq::<char>::empty(), sep);
    assert(a + Seq::<char>::empty() =~= a);
    assert(split_on(Seq::<char>::empty(), sep) == seq![Seq::<char>::empty()]);
    assert(seq![Seq::<char>::empty()].update(0, a + Seq::<char>::empty()) =~= seq![a]);
}

/// Whether `c` is Unicode whitespace.
pub fn is_white_space_char(c: char) -> (r: bool)
    ensures
        r == is_white_space(c),
{
    let u = c as u32;
    (0x09 <= u && u <= 0x0D) || u == 0x20 || u == 0x85 || u == 0xA0 || u == 0x1680 || (0x2000
        <= u && u <= 0x200A) || u == 0x2028 || u == 0x2029 || u == 0x202F || u == 0x205F || u
        == 0x3000
}

/// The characters of `s`, in order.
pub fn chars_of(s: &str) -> (v: Vec<char>)
    ensures
        v@ == s@,
{
    broadcast use vstd::string::group_string_axioms;

    let mut v: Vec<char> = Vec::new();
    let mut it = s.chars();
    loop
        invariant
            v@ + vstd::std_specs::iter::IteratorSpec::remaining(&it) == s@,
            vstd::std_specs::iter::IteratorSpec::decrease(&it) is Some,
        ensures
            v@ == s@,
        decreases vstd::std_specs::iter::IteratorSpec::decrease(&it)->0,
    {
        match it.next() {
            Some(c) => {
                v.push(c);
            },
            None => {
                assert(v@ =~= s@);
                break ;
            },
        }
    }
    v
}

/// Bounds of `trim(v[a..b])` inside `v`.
pub fn trim_range(v: &Vec<char>, a: usize, b: usize) -> (r: (usize, usize))
    requires
        a <= b <= v@.len(),
    ensures
        a <= r.0 <= r.1 <= b,
        v@.subrange(r.0 as int, r.1 as int) == trim(v@.subrange(a as int, b as int)),
{
    let mut lo = a;
    while lo < b && is_white_space_char(v[lo])
        invariant
            a <= lo <= b <= v@.len(),
            trim_start(v@.subrange(a as int, b as int)) == trim_start(
                v@.subrange(lo as int, b as int),
            ),
        decreases b - lo,
    {
        assert(v@.subrange(lo as int, b as int).drop_first() =~= v@.subrange(
            lo + 1,
            b as int,
        ));
        lo = lo + 1;
    }
    let mut hi = b;
    while hi > lo && is_white_space_char(v[hi - 1])
        invariant
            a <= lo <= hi <= b <= v@.len(),
            trim_start(v@.subrange(a as int, b as int)) == v@.subrange(lo as int, b as int),
            trim_end(v@.subrange(lo as int, b as int)) == trim_end(
                v@.subrange(lo as int, hi as int),
            ),
        decreases hi - lo,
    {
        assert(v@.subrange(lo as int, hi as int).drop_last() =~= v@.subrange(
            lo as int,
            hi - 1,
        ));
        hi = hi - 1;
    }
    (lo, hi)
}

/// Start of `strip_leading(v[a..b], c)` inside `v`.
pub fn strip_leading_range(v: &Vec<char>, a: usize, b: usize, c: char) -> (r: usize)
    requires
        a <= b <= v@.len(),
    ensures
        a <= r <= b,
        v@.subrange(r as int, b as int) == strip_leading(v@.subrange(a as int, b as int), c),
{
    let mut lo = a;
    while lo < b && v[lo] == c
        invariant
            a <= lo <= b <= v@.len(),
            strip_leading(v@.subrange(a as int, b as int), c) == strip_leading(
                v@.subrange(lo as int, b as int),
                c,
            ),
        decreases b - lo,
    {
        assert(v@.subrange(lo as int, b as int).drop_first() =~= v@.subrange(
            lo + 1,
            b as int,
        ));
        lo = lo + 1;
    }
    lo
}

/// End of `strip_trailing(v[a..b], c)` inside `v`.
pub fn strip_trailing_range(v: &Vec<char>, a: usize, b: usize, c: char) -> (r: usize)
    requires
        a <= b <= v@.len(),
    ensures
        a <= r <= b,
        v@.subrange(a as int, r as int) == strip_trailing(v@.subrange(a as int, b as int), c),
{
    let mut hi = b;
    while hi > a && v[hi - 1] == c
        invariant
            a <= hi <= b <= v@.len(),
            strip_trailing(v@.subrange(a as int, b as int), c) == strip_trailing(
                v@.subrange(a as int, hi as int),
                c,
            ),
        decreases hi - a,
    {
        assert(v@.subrange(a as int, hi as int).drop_last() =~= v@.subrange(
            a as int,
            hi - 1,
        ));
        hi = hi - 1;
    }
    hi
}

/// Bounds of the pieces of `v[a..b]` between occurrences of `sep`.
#[verifier::spinoff_prover]
pub fn split_ranges(v: &Vec<char>, a: usize, b: usize, sep: char) -> (r: Vec<(usize, usize)>)
    requires
        a <= b <= v@.len(),
    ensures
        ranges_view(v@, r@) == split_on(v@.subrange(a as int, b as int), sep),
        forall|k: int| 0 <= k < r@.len() ==> a <= #[trigger] r@[k].0 <= r@[k].1 <= b,
{
    let ghost whole = split_on(v@.subrange(a as int, b as int), sep);
    let mut r: Vec<(usize, usize)> = Vec::new();
    let mut start = a;
    let mut i = a;
    proof {
        lemma_split_on_nonempty(v@.subrange(a as int, b as int), sep);
        assert(v@.subrange(a as int, a as int) =~= Seq::<char>::empty());
        let t = split_on(v@.subrange(a as int, b as int), sep);
        assert(Seq::<char>::empty() + t[0] =~= t[0]);
        assert(ranges_view(v@, r@) + seq![t[0]] + t.skip(1) =~= t);
    }
    while i < b
        invariant
            a <= start <= i <= b <= v@.len(),
            whole == split_on(v@.subrange(a as int, b as int), sep),
            forall|k: int| 0 <= k < r@.len() ==> a <= #[trigger] r@[k].0 <= r@[k].1 <= b,
            whole == ranges_view(v@, r@) + seq![
                v@.subrange(start as int, i as int) + split_on(
                    v@.subrange(i as int, b as int),
                    sep,
                )[0],
            ] + split_on(v@.subrange(i as int, b as int), sep).skip(1),
        decreases b - i,
    {
        let ghost tail = v@.subrange(i as int, b as int);
        let ghost rest = split_on(v@.subrange(i + 1, b as int), sep);
        proof {
            assert(tail.drop_first() =~= v@.subrange(i + 1, b as int));
            lemma_split_on_nonempty(v@.subrange(i + 1, b as int), sep);
        }
        let ghost old_r = r@;
        let ghost cur = v@.subrange(start as int, i as int);
        if v[i] == sep {
            r.push((start, i));
            proof {
                assert forall|k: int| 0 <= k < r@.len() implies a <= #[trigger] r@[k].0 <= r@[k].1
                    <= b by {
                    if k < old_r.len() {
                        assert(r@[k] == old_r[k]);
                    }
                }
            }
            start = i + 1;
            proof {
                assert(split_on(tail, sep) == seq![Seq::<char>::empty()] + rest);
                assert(ranges_view(v@, r@) =~= ranges_view(v@, old_r) + seq![cur]);
                assert(v@.subrange(start as int, i + 1) =~= Seq::<char>::empty());
                assert(Seq::<char>::empty() + rest[0] =~= rest[0]);
                assert((seq![Seq::<char>::empty()] + rest).skip(1) =~= rest);
                assert(ranges_view(v@, old_r) + seq![cur + (seq![Seq::<char>::empty()] + rest)[0]]
                    + (seq![Seq::<char>::empty()] + rest).skip(1) =~= ranges_view(v@, r@) + seq![
                    Seq::<char>::empty() + rest[0],
                ] + rest.skip(1));
            }
        } else {
            proof {
                assert(split_on(tail, sep) == rest.update(0, seq![v@[i as int]] + rest[0]));
                assert(v@.subrange(start as int, i + 1) =~= cur + seq![v@[i as int]]);
                assert(cur + (seq![v@[i as int]] + rest[0]) =~= (cur + seq![v@[i as int]])
                    + rest[0]);
                assert(rest.update(0, seq![v@[i as int]] + rest[0]).skip(1) =~= rest.skip(1));
            }
        }
        i = i + 1;
    }
    let ghost old_r = r@;
    r.push((start, b));
    proof {
        assert(v@.subrange(b as int, b as int) =~= Seq::<char>::empty());
        let e = split_on(v@.subrange(b as int, b as int), sep);
        assert(e == seq![Seq::<char>::empty()]);
        assert(v@.subrange(start as int, b as int) + Seq::<char>::empty() =~= v@.subrange(
            start as int,
            b as int,
        ));
        assert(e.skip(1) =~= Seq::<Seq<char>>::empty());
        assert(ranges_view(v@, r@) =~= ranges_view(v@, old_r) + seq![
            v@.subrange(start as int, b as int),
        ]);
        assert(whole =~= ranges_view(v@, r@));
    }
    r
}

/// Whether `v[a..b]` equals the text `lit`.
pub fn range_equals(v: &Vec<char>, a: usize, b: usize, lit: &str) -> (r: bool)
    requires
        a <= b <= v@.len(),
    ensures
        r == (v@.subrange(a as int, b as int) == lit@),
{
    let n = lit.unicode_len();
    if b - a != n {
        return false;
    }
    let mut i: usize = 0;
    while i < n
        invariant
            n == lit@.len(),
            b - a == n,
            a <= b <= v@.len(),
            i <= n,
            forall|j: int| 0 <= j < i ==> v@[a + j] == lit@[j],
        decreases n - i,
    {
        if v[a + i] != lit.get_char(i) {
            assert(v@.subrange(a as int, b as int)[i as int] != lit@[i as int]);
            return false;
        }
        i = i + 1;
    }
    assert(v@.subrange(a as int, b as int) =~= lit@);
    true
}

/// Whether `lit` is a prefix of `v`.
pub fn starts_with_text(v: &Vec<char>, lit: &str) -> (r: bool)
    ensures
        r == has_prefix(v@, lit@),
{
    let n = lit.unicode_len();
    if n > v.len() {
        return false;
    }
    let r = range_equals(v, 0, n, lit);
    assert(v@.take(n as int) =~= v@.subrange(0, n as int));
    r
}

/// Whether `lit` occurs in `v`.
pub fn contains_text(v: &Vec<char>, lit: &str) -> (r: bool)
    ensures
        r == occurs_in(lit@, v@),
{
    let n = lit.unicode_len();
    if n > v.len() {
        assert forall|i: int| 0 <= i && i + lit@.len() <= v@.len() implies #[trigger] v@.subrange(
            i,
            i + lit@.len(),
        ) != lit@ by {}
        return false;
    }
    if n == 0 {
        assert(v@.subrange(0, 0 + lit@.len() as int) =~= lit@);
        return true;
    }
    let mut i: usize = 0;
    let last = v.len() - n;
    while i <= last
        invariant
            n == lit@.len(),
            1 <= n <= v@.len() <= usize::MAX,
            last == v@.len() - n,
            i <= last + 1,
            forall|j: int| 0 <= j < i ==> #[trigger] v@.subrange(j, j + n) != lit@,
        decreases last + 1 - i,
    {
        if range_equals(v, i, i + n, lit) {
            return true;
        }
        i = i + 1;
    }
    assert forall|j: int| 0 <= j && j + lit@.len() <= v@.len() implies #[trigger] v@.subrange(
        j,
        j + lit@.len(),
    ) != lit@ by {}
    false
}

/// The text of `v[a..b]` as a `String`, read from `s`, whose characters
/// `v` holds.
pub fn range_string(s: &str, v: &Vec<char>, a: usize, b: usize) -> (r: String)
    requires
        v@ == s@,
        a <= b <= v@.len(),
    ensures
        r@ == v@.subrange(a as int, b as int),
{
    let piece = s.substring_char(a, b);
    String::from_str(piece)
}

} // verus!

verus! {

/// Whether `s` is exactly the text `lit`.
pub fn str_equals(s: &str, lit: &str) -> (r: bool)
    ensures
        r == (s@ == lit@),
{
    let v = chars_of(s);
    assert(v@.subrange(0, v@.len() as int) =~= v@);
    range_equals(&v, 0, v.len(), lit)
}

/// The views of a sequence of `String`s.
pub open spec fn strings_view(v: Seq<String>) -> Seq<Seq<char>> {
    Seq::new(v.len(), |i: int| v[i]@)
}

/// The view of an optional `String`.
pub open spec fn opt_string_view(o: Option<String>) -> Option<Seq<char>> {
    match o {
        Some(s) => Some(s@),
        None => None,
    }
}

/// A `String` holding `s`.
pub fn owned(s: &str) -> (r: String)
    ensures
        r@ == s@,
{
    String::from_str(s)
}

} // verus!
