//! Conversions between strings and character vectors, and a few operations
//! on character sequences that the rest of the crate is stated over.

use vstd::prelude::*;

verus! {

/// `s` without its leading run of `c`.
pub open spec fn trim_start(s: Seq<char>, c: char) -> Seq<char>
    decreases s.len(),
{
    if s.len() > 0 && s[0] == c {
        trim_start(s.skip(1), c)
    } else {
        s
    }
}

/// `s` without its trailing run of `c`.
pub open spec fn trim_end(s: Seq<char>, c: char) -> Seq<char>
    decreases s.len(),
{
    if s.len() > 0 && s.last() == c {
        trim_end(s.drop_last(), c)
    } else {
        s
    }
}

/// The number of leading characters of `s` that equal `c`.
pub open spec fn leading_run(s: Seq<char>, c: char) -> nat
    decreases s.len(),
{
    if s.len() > 0 && s[0] == c {
        1 + leading_run(s.skip(1), c)
    } else {
        0
    }
}

/// The number of trailing characters of `s` that equal `c`.
pub open spec fn trailing_run(s: Seq<char>, c: char) -> nat
    decreases s.len(),
{
    if s.len() > 0 && s.last() == c {
        1 + trailing_run(s.drop_last(), c)
    } else {
        0
    }
}

/// The part of `s` before its first `c`; all of `s` where `c` does not occur.
pub open spec fn until(s: Seq<char>, c: char) -> Seq<char>
    decreases s.len(),
{
    if s.len() == 0 || s[0] == c {
        Seq::empty()
    } else {
        seq![s[0]] + until(s.skip(1), c)
    }
}

/// `until(s, c)` is the longest initial part of `s` that is free of `c`.
pub proof fn lemma_until(s: Seq<char>, c: char)
    ensures
        until(s, c).len() <= s.len(),
        until(s, c) == s.take(until(s, c).len() as int),
        !until(s, c).contains(c),
        until(s, c).len() < s.len() ==> s[until(s, c).len() as int] == c,
    decreases s.len(),
{
    if s.len() == 0 || s[0] == c {
        assert(s.take(0) =~= Seq::<char>::empty());
    } else {
        let t = s.skip(1);
        lemma_until(t, c);
        let n = until(t, c).len();
        assert(until(s, c) =~= s.take(n as int + 1)) by {
            assert(until(s, c).len() == n + 1);
            assert forall|i: int| 0 <= i < n + 1 implies until(s, c)[i] == s[i] by {
                if i > 0 {
                    assert(until(t, c)[i - 1] == t.take(n as int)[i - 1]);
                }
            }
        }
        assert(!until(s, c).contains(c)) by {
            if until(s, c).contains(c) {
                let i = choose|i: int| 0 <= i < until(s, c).len() && until(s, c)[i] == c;
                if i > 0 {
                    assert(until(t, c)[i - 1] == c);
                    assert(until(t, c).contains(c));
                }
            }
        }
        if until(s, c).len() < s.len() {
            assert(s[n as int + 1] == t[n as int]);
        }
    }
}

/// Trimming at the start drops exactly the leading run.
pub proof fn lemma_trim_start_is_skip(s: Seq<char>, c: char)
    ensures
        leading_run(s, c) <= s.len(),
        trim_start(s, c) == s.skip(leading_run(s, c) as int),
        forall|i: int| 0 <= i < leading_run(s, c) ==> s[i] == c,
        leading_run(s, c) < s.len() ==> s[leading_run(s, c) as int] != c,
    decreases s.len(),
{
    if s.len() > 0 && s[0] == c {
        let t = s.skip(1);
        lemma_trim_start_is_skip(t, c);
        let n = leading_run(t, c);
        assert(t.skip(n as int) =~= s.skip(n as int + 1));
        assert forall|i: int| 0 <= i < leading_run(s, c) implies s[i] == c by {
            if i > 0 {
                assert(s[i] == t[i - 1]);
            }
        }
        if leading_run(s, c) < s.len() {
            assert(s[leading_run(s, c) as int] == t[n as int]);
        }
    } else {
        assert(s.skip(0) =~= s);
    }
}

/// Trimming at the end keeps exactly what precedes the trailing run.
pub proof fn lemma_trim_end_is_take(s: Seq<char>, c: char)
    ensures
        trailing_run(s, c) <= s.len(),
        trim_end(s, c) == s.take(s.len() - trailing_run(s, c)),
        forall|i: int| s.len() - trailing_run(s, c) <= i < s.len() ==> s[i] == c,
        trailing_run(s, c) < s.len() ==> s[s.len() - trailing_run(s, c) - 1] != c,
    decreases s.len(),
{
    if s.len() > 0 && s.last() == c {
        let t = s.drop_last();
        lemma_trim_end_is_take(t, c);
        let n = trailing_run(t, c);
        assert(t.take(t.len() - n) =~= s.take(s.len() - n - 1));
        assert forall|i: int| s.len() - trailing_run(s, c) <= i < s.len() implies s[i] == c by {
            if i < s.len() - 1 {
                assert(s[i] == t[i]);
            }
        }
        if trailing_run(s, c) < s.len() {
            assert(s[s.len() - trailing_run(s, c) - 1] == t[t.len() - n - 1]);
        }
    } else {
        assert(s.take(s.len() as int) =~= s);
    }
}

/// `String::push`: the string grows by the one character `c` at its end.
#[verifier::external_body]
pub(crate) fn push_char(s: &mut String, c: char)
    ensures
        final(s)@ == old(s)@.push(c),
{
    s.push(c);
}

/// The characters of `s`, in order.
pub fn chars_of(s: &str) -> (v: Vec<char>)
    ensures
        v@ == s@,
{
    let mut v: Vec<char> = Vec::new();
    for c in it: s.chars()
        invariant
            it.seq() == s@,
            v@ == it.seq().take(it.index() as int),
    {
        v.push(c);
    }
    v
}

/// The string made of the characters of `v`, in order.
pub fn string_of(v: &Vec<char>) -> (s: String)
    ensures
        s@ == v@,
{
    let mut s = String::new();
    let mut i: usize = 0;
    while i < v.len()
        invariant
            i <= v.len(),
            s@ == v@.take(i as int),
        decreases v.len() - i,
    {
        push_char(&mut s, v[i]);
        assert(v@.take(i + 1) =~= v@.take(i as int).push(v@[i as int]));
        i += 1;
    }
    assert(v@.take(v.len() as int) =~= v@);
    s
}

/// The string made of `v[from..to]`.
pub fn string_of_range(v: &Vec<char>, from: usize, to: usize) -> (s: String)
    requires
        from <= to <= v.len(),
    ensures
        s@ == v@.subrange(from as int, to as int),
{
    let mut s = String::new();
    let mut i: usize = from;
    while i < to
        invariant
            from <= i <= to <= v.len(),
            s@ == v@.subrange(from as int, i as int),
        decreases to - i,
    {
        push_char(&mut s, v[i]);
        assert(v@.subrange(from as int, i + 1) =~= v@.subrange(from as int, i as int).push(
            v@[i as int],
        ));
        i += 1;
    }
    s
}

/// The end of the part of `v` that starts at `from` and stops before the
/// next `c`.
pub fn scan_until(v: &Vec<char>, from: usize, c: char) -> (to: usize)
    requires
        from <= v.len(),
    ensures
        from <= to <= v.len(),
        v@.subrange(from as int, to as int) == until(v@.skip(from as int), c),
        to < v.len() ==> v@[to as int] == c,
{
    let mut to: usize = from;
    proof {
        assert(v@.subrange(from as int, to as int) =~= Seq::<char>::empty());
    }
    while to < v.len() && v[to] != c
        invariant
            from <= to <= v.len(),
            v@.subrange(from as int, to as int) + until(v@.skip(to as int), c) == until(
                v@.skip(from as int),
                c,
            ),
        decreases v.len() - to,
    {
        proof {
            let rest = v@.skip(to as int);
            assert(rest.skip(1) =~= v@.skip(to + 1));
            assert(v@.subrange(from as int, to + 1) =~= v@.subrange(from as int, to as int) + seq![
                rest[0],
            ]);
            assert(v@.subrange(from as int, to + 1) + until(v@.skip(to + 1), c) =~= v@.subrange(
                from as int,
                to as int,
            ) + until(rest, c));
        }
        to += 1;
    }
    proof {
        assert(until(v@.skip(to as int), c) =~= Seq::<char>::empty());
        assert(v@.subrange(from as int, to as int) + Seq::<char>::empty() =~= v@.subrange(
            from as int,
            to as int,
        ));
    }
    to
}

/// The end of the run of `c` that starts at `from`.
pub fn skip_run(v: &Vec<char>, from: usize, c: char) -> (to: usize)
    requires
        from <= v.len(),
    ensures
        from <= to <= v.len(),
        v@.skip(to as int) == trim_start(v@.skip(from as int), c),
        to == from + leading_run(v@.skip(from as int), c),
{
    let mut to: usize = from;
    while to < v.len() && v[to] == c
        invariant
            from <= to <= v.len(),
            trim_start(v@.skip(to as int), c) == trim_start(v@.skip(from as int), c),
            (to - from) + leading_run(v@.skip(to as int), c) == leading_run(
                v@.skip(from as int),
                c,
            ),
        decreases v.len() - to,
    {
        proof {
            assert(v@.skip(to as int).skip(1) =~= v@.skip(to + 1));
        }
        to += 1;
    }
    to
}

/// The start of the run of `c` that ends at `to`.
pub fn skip_run_back(v: &Vec<char>, to: usize, c: char) -> (from: usize)
    requires
        to <= v.len(),
    ensures
        from <= to,
        v@.take(from as int) == trim_end(v@.take(to as int), c),
        from + trailing_run(v@.take(to as int), c) == to,
{
    let mut from: usize = to;
    while from > 0 && v[from - 1] == c
        invariant
            from <= to <= v.len(),
            trim_end(v@.take(from as int), c) == trim_end(v@.take(to as int), c),
            (to - from) + trailing_run(v@.take(from as int), c) == trailing_run(
                v@.take(to as int),
                c,
            ),
        decreases from,
    {
        proof {
            assert(v@.take(from as int).drop_last() =~= v@.take(from - 1));
        }
        from -= 1;
    }
    from
}

/// Whether `c` occurs in `v`.
pub fn contains_char(v: &Vec<char>, c: char) -> (r: bool)
    ensures
        r == v@.contains(c),
{
    let mut i: usize = 0;
    while i < v.len()
        invariant
            i <= v.len(),
            forall|j: int| 0 <= j < i ==> v@[j] != c,
        decreases v.len() - i,
    {
        if v[i] == c {
            return true;
        }
        i += 1;
    }
    false
}

/// Whether `prefix` is an initial part of `v`.
pub fn has_prefix(v: &Vec<char>, prefix: &Vec<char>) -> (r: bool)
    ensures
        r == prefix@.is_prefix_of(v@),
{
    if prefix.len() > v.len() {
        return false;
    }
    let mut i: usize = 0;
    while i < prefix.len()
        invariant
            i <= prefix.len() <= v.len(),
            forall|j: int| 0 <= j < i ==> v@[j] == prefix@[j],
        decreases prefix.len() - i,
    {
        if v[i] != prefix[i] {
            return false;
        }
        i += 1;
    }
    assert(prefix@ =~= v@.subrange(0, prefix@.len() as int));
    true
}

} // verus!
