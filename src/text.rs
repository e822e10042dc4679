//! Character-level helpers over strings.
use vstd::prelude::*;

verus! {

/// Relies on String::push: appends one character at the end.
#[verifier::external_body]
fn push_char(s: &mut String, c: char)
    ensures
        final(s)@ == old(s)@.push(c),
{
    s.push(c)
}

/// The characters of `s`, in order.
pub fn chars_of(s: &str) -> (r: Vec<char>)
    ensures
        r@ == s@,
{
    let mut r: Vec<char> = Vec::new();
    for c in it: s.chars()
        invariant
            r@ == it.seq().take(it.index()),
    {
        r.push(c);
    }
    r
}

/// A string holding the characters `v[from..to]`.
pub fn string_of(v: &Vec<char>, from: usize, to: usize) -> (r: String)
    requires
        from <= to <= v@.len(),
    ensures
        r@ == v@.subrange(from as int, to as int),
{
    let mut r = String::new();
    let mut i: usize = from;
    while i < to
        invariant
            from <= i <= to <= v@.len(),
            r@ == v@.subrange(from as int, i as int),
        decreases to - i,
    {
        push_char(&mut r, v[i]);
        assert(v@.subrange(from as int, i + 1) == v@.subrange(from as int, i as int).push(v@[i as int]));
        i = i + 1;
    }
    r
}


/// `s` with every occurrence of `from` replaced by `to`, scanning from the left
/// and never letting two replaced occurrences overlap.
pub open spec fn replaced(s: Seq<char>, from: Seq<char>, to: Seq<char>) -> Seq<char>
    decreases s.len(),
{
    if s.len() == 0 {
        seq![]
    } else if 0 < from.len() <= s.len() && s.take(from.len() as int) == from {
        to + replaced(s.skip(from.len() as int), from, to)
    } else {
        seq![s[0]] + replaced(s.drop_first(), from, to)
    }
}

/// A new string holding `s`.
pub fn owned(s: &str) -> (r: String)
    ensures
        r@ == s@,
{
    s.to_owned()
}

/// The string `a` followed by `b`.
pub fn concat(a: &str, b: &str) -> (r: String)
    ensures
        r@ == a@ + b@,
{
    owned(a).concat(b)
}


/// Whether `n` occurs in `h` at position `i`.
pub open spec fn occurs_at(h: Seq<char>, n: Seq<char>, i: int) -> bool {
    0 <= i && i + n.len() <= h.len() && h.subrange(i, i + n.len()) == n
}

/// The first position at or after `i` where `n` occurs in `h`.
pub open spec fn first_occurrence_from(h: Seq<char>, n: Seq<char>, i: int) -> Option<int>
    decreases h.len() - i + 1,
{
    if i < 0 || i + n.len() > h.len() {
        None
    } else if occurs_at(h, n, i) {
        Some(i)
    } else {
        first_occurrence_from(h, n, i + 1)
    }
}

proof fn lemma_first_occurrence_occurs(h: Seq<char>, n: Seq<char>, i: int)
    ensures
        first_occurrence_from(h, n, i) matches Some(k) ==> occurs_at(h, n, k) && i <= k,
    decreases h.len() - i + 1,
{
    if !(i < 0 || i + n.len() > h.len()) && !occurs_at(h, n, i) {
        lemma_first_occurrence_occurs(h, n, i + 1);
    }
}

fn occurs_here(h: &Vec<char>, n: &Vec<char>, i: usize) -> (r: bool)
    requires
        i + n@.len() <= h@.len(),
    ensures
        r == occurs_at(h@, n@, i as int),
{
    let hl = h.len();
    let mut k: usize = 0;
    while k < n.len()
        invariant
            hl == h@.len(),
            i + n@.len() <= h@.len(),
            k <= n@.len(),
            forall|j: int| 0 <= j < k ==> h@[i + j] == n@[j],
        decreases n@.len() - k,
    {
        if h[i + k] != n[k] {
            assert(h@.subrange(i as int, i + n@.len())[k as int] != n@[k as int]);
            return false;
        }
        k = k + 1;
    }
    assert(h@.subrange(i as int, i + n@.len()) =~= n@);
    true
}

/// The first position where `n` occurs in `h`.
pub fn find(h: &Vec<char>, n: &Vec<char>) -> (r: Option<usize>)
    ensures
        r matches Some(i) ==> first_occurrence_from(h@, n@, 0) == Some(i as int),
        r matches Some(i) ==> occurs_at(h@, n@, i as int),
        r is None ==> first_occurrence_from(h@, n@, 0) is None,
{
    if n.len() > h.len() {
        return None;
    }
    if n.len() == 0 {
        assert(h@.subrange(0, 0) =~= n@);
        assert(occurs_at(h@, n@, 0));
        return Some(0);
    }
    let hl = h.len();
    let last = hl - n.len();
    let mut i: usize = 0;
    while i <= last
        invariant
            hl == h@.len(),
            n@.len() >= 1,
            last + n@.len() == h@.len(),
            i <= last + 1,
            first_occurrence_from(h@, n@, 0) == first_occurrence_from(h@, n@, i as int),
        decreases last + 1 - i,
    {
        if occurs_here(h, n, i) {
            proof {
                lemma_first_occurrence_occurs(h@, n@, 0);
            }
            return Some(i);
        }
        i = i + 1;
    }
    None
}

/// The pieces of `s` between occurrences of `sep`, where `cur` is the part of
/// the current piece already read.
pub open spec fn pieces_after(s: Seq<char>, sep: char, cur: Seq<char>) -> Seq<Seq<char>>
    decreases s.len(),
{
    if s.len() == 0 {
        seq![cur]
    } else if s[0] == sep {
        seq![cur] + pieces_after(s.drop_first(), sep, seq![])
    } else {
        pieces_after(s.drop_first(), sep, cur.push(s[0]))
    }
}

/// The pieces of `s` between occurrences of `sep`; an empty `s` is one empty piece.
pub open spec fn pieces(s: Seq<char>, sep: char) -> Seq<Seq<char>> {
    pieces_after(s, sep, seq![])
}

/// Splits `s` at each `sep`.
pub fn split(s: &str, sep: char) -> (r: Vec<String>)
    ensures
        r.deep_view() == pieces(s@, sep),
{
    let cs = chars_of(s);
    let n = cs.len();
    let ghost t = cs@;
    let mut out: Vec<String> = Vec::new();
    let mut start: usize = 0;
    let mut i: usize = 0;
    assert(t.skip(0) =~= t);
    assert(t.subrange(0, 0) =~= Seq::<char>::empty());
    assert(out.deep_view() + pieces(t, sep) =~= pieces(t, sep));
    while i < n
        invariant
            n == t.len(),
            t == cs@,
            t == s@,
            start <= i <= n,
            pieces(t, sep) == out.deep_view() + pieces_after(t.skip(i as int), sep, t.subrange(start as int, i as int)),
        decreases n - i,
    {
        let ghost cur = t.subrange(start as int, i as int);
        let ghost before = out.deep_view();
        assert(t.skip(i as int)[0] == t[i as int]);
        assert(t.skip(i as int).drop_first() =~= t.skip(i + 1));
        if cs[i] == sep {
            out.push(string_of(&cs, start, i));
            proof {
                let rest = pieces_after(t.skip(i + 1), sep, seq![]);
                assert(out.deep_view() =~= before.push(cur));
                assert(before + (seq![cur] + rest) =~= before.push(cur) + rest);
            }
            start = i + 1;
            assert(t.subrange(start as int, i + 1) =~= seq![]);
        } else {
            assert(cur.push(t[i as int]) =~= t.subrange(start as int, i + 1));
        }
        i = i + 1;
    }
    let ghost before = out.deep_view();
    let ghost cur = t.subrange(start as int, n as int);
    assert(t.skip(n as int) =~= seq![]);
    out.push(string_of(&cs, start, n));
    assert(out.deep_view() =~= before + seq![cur]);
    out
}

/// Whether `a` and `b` hold the same characters.
pub fn equal_text(a: &str, b: &str) -> (r: bool)
    ensures
        r == (a@ == b@),
{
    let x = chars_of(a);
    let y = chars_of(b);
    if x.len() != y.len() {
        return false;
    }
    let mut i: usize = 0;
    while i < x.len()
        invariant
            x@ == a@,
            y@ == b@,
            x@.len() == y@.len(),
            i <= x@.len(),
            forall|j: int| 0 <= j < i ==> x@[j] == y@[j],
        decreases x@.len() - i,
    {
        if x[i] != y[i] {
            return false;
        }
        i = i + 1;
    }
    assert(x@ =~= y@);
    true
}


/// Whether `c` occurs in `s`.
pub fn contains_char(s: &str, c: char) -> (r: bool)
    ensures
        r == s@.contains(c),
{
    let cs = chars_of(s);
    let mut i: usize = 0;
    while i < cs.len()
        invariant
            cs@ == s@,
            i <= cs@.len(),
            forall|j: int| 0 <= j < i ==> cs@[j] != c,
        decreases cs@.len() - i,
    {
        if cs[i] == c {
            return true;
        }
        i = i + 1;
    }
    false
}


/// `s` with every occurrence of the non-empty `from` replaced by `to`,
/// scanning from the left.
pub fn replace(s: &str, from: &str, to: &str) -> (r: String)
    requires
        from@.len() > 0,
    ensures
        r@ == replaced(s@, from@, to@),
{
    let cs = chars_of(s);
    let fs = chars_of(from);
    let n = cs.len();
    let fl = fs.len();
    let mut out = String::new();
    let mut i: usize = 0;
    assert(s@.skip(0) =~= s@);
    assert(out@ + replaced(s@, from@, to@) =~= replaced(s@, from@, to@));
    while i < n
        invariant
            cs@ == s@,
            fs@ == from@,
            n == cs@.len(),
            fl == fs@.len(),
            fl > 0,
            i <= n,
            replaced(s@, from@, to@) == out@ + replaced(s@.skip(i as int), from@, to@),
        decreases n - i,
    {
        let ghost t = s@.skip(i as int);
        let ghost before = out@;
        if fl <= n - i && occurs_here(&cs, &fs, i) {
            assert(t.take(fl as int) =~= s@.subrange(i as int, i + fl));
            assert(t.skip(fl as int) =~= s@.skip(i + fl));
            out = concat(out.as_str(), to);
            assert(before + (to@ + replaced(t.skip(fl as int), from@, to@)) =~= out@ + replaced(
                s@.skip(i + fl),
                from@,
                to@,
            ));
            i = i + fl;
        } else {
            if fl <= n - i {
                assert(t.take(fl as int) =~= s@.subrange(i as int, i + fl));
            }
            assert(t[0] == cs@[i as int]);
            assert(t.drop_first() =~= s@.skip(i + 1));
            push_char(&mut out, cs[i]);
            assert(before + (seq![t[0]] + replaced(t.drop_first(), from@, to@)) =~= out@ + replaced(
                s@.skip(i + 1),
                from@,
                to@,
            ));
            i = i + 1;
        }
    }
    assert(s@.skip(n as int) =~= Seq::<char>::empty());
    assert(out@ + Seq::<char>::empty() =~= out@);
    out
}

} // verus!
