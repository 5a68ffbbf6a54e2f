//! Character-level helpers over `str` and `String`.

use vstd::prelude::*;

verus! {

/// `String::push`: the string afterwards holds its old characters followed
/// by `c`.
#[verifier::external_body]
pub(crate) fn push_char(s: &mut String, c: char)
    ensures
        final(s)@ == old(s)@.push(c),
{
    s.push(c)
}

/// The characters of `s`, in order.
pub fn chars_of(s: &str) -> (v: Vec<char>)
    ensures
        v@ == s@,
{
    let mut v: Vec<char> = Vec::new();
    for c in it: s.chars()
        invariant
            v@ == it.seq().take(it.index() as int),
    {
        v.push(c);
    }
    v
}

/// The string made of the characters of `cs`, in order.
pub fn string_from_chars(cs: &[char]) -> (s: String)
    ensures
        s@ == cs@,
{
    let mut s = String::new();
    let mut i: usize = 0;
    while i < cs.len()
        invariant
            i <= cs@.len(),
            s@ == cs@.take(i as int),
        decreases cs@.len() - i,
    {
        push_char(&mut s, cs[i]);
        assert(cs@.take(i as int).push(cs@[i as int]) =~= cs@.take(i + 1));
        i = i + 1;
    }
    assert(cs@.take(cs@.len() as int) =~= cs@);
    s
}


/// The views of a sequence of strings.
pub open spec fn string_views(v: Seq<String>) -> Seq<Seq<char>> {
    v.map_values(|x: String| x@)
}

/// The views of a sequence of string slices.
pub open spec fn str_views(v: Seq<&str>) -> Seq<Seq<char>> {
    v.map_values(|x: &str| x@)
}

/// The pieces of `s` between the occurrences of `sep`, in order, as
/// `str::split` with a `char` pattern yields them: `n` separators give
/// `n + 1` pieces, empty ones included.
pub open spec fn split_spec(s: Seq<char>, sep: char) -> Seq<Seq<char>>
    decreases s.len(),
{
    if s.len() == 0 {
        seq![Seq::<char>::empty()]
    } else {
        let r = split_spec(s.drop_last(), sep);
        if s.last() == sep {
            r.push(Seq::<char>::empty())
        } else {
            r.update(r.len() - 1, r.last().push(s.last()))
        }
    }
}

/// The pieces in `parts`, with `sep` between each two neighbours.
pub open spec fn join_spec(parts: Seq<Seq<char>>, sep: Seq<char>) -> Seq<char>
    decreases parts.len(),
{
    if parts.len() == 0 {
        Seq::<char>::empty()
    } else if parts.len() == 1 {
        parts[0]
    } else {
        join_spec(parts.drop_last(), sep) + sep + parts.last()
    }
}

proof fn lemma_join_extend_last(parts: Seq<Seq<char>>, sep: Seq<char>, c: char)
    requires
        parts.len() >= 1,
    ensures
        join_spec(parts.update(parts.len() - 1, parts.last().push(c)), sep)
            == join_spec(parts, sep).push(c),
{
    let q = parts.update(parts.len() - 1, parts.last().push(c));
    if parts.len() == 1 {
        assert(q[0] == parts[0].push(c));
    } else {
        assert(q.drop_last() =~= parts.drop_last());
        assert((join_spec(parts.drop_last(), sep) + sep + parts.last()).push(c)
            =~= join_spec(parts.drop_last(), sep) + sep + parts.last().push(c));
    }
}

/// Splitting never loses text: the pieces of `s`, joined again with the
/// separator, give back `s`; there is at least one piece, and no piece holds
/// the separator.
pub proof fn lemma_split_join(s: Seq<char>, sep: char)
    ensures
        split_spec(s, sep).len() >= 1,
        join_spec(split_spec(s, sep), seq![sep]) == s,
        forall|i: int| 0 <= i < split_spec(s, sep).len()
            ==> !(#[trigger] split_spec(s, sep)[i]).contains(sep),
    decreases s.len(),
{
    if s.len() == 0 {
        assert(join_spec(split_spec(s, sep), seq![sep]) =~= s);
        assert forall|i: int| 0 <= i < split_spec(s, sep).len()
            implies !(#[trigger] split_spec(s, sep)[i]).contains(sep) by {
            assert(split_spec(s, sep)[i] =~= Seq::<char>::empty());
        }
    } else {
        let p = s.drop_last();
        let r = split_spec(p, sep);
        lemma_split_join(p, sep);
        if s.last() == sep {
            let q = r.push(Seq::<char>::empty());
            assert(q.drop_last() =~= r);
            assert(join_spec(q, seq![sep]) =~= p + seq![sep] + Seq::<char>::empty());
            assert(p + seq![sep] + Seq::<char>::empty() =~= s);
            assert forall|i: int| 0 <= i < q.len() implies !(#[trigger] q[i]).contains(sep) by {
                if i < r.len() {
                    assert(q[i] == r[i]);
                } else {
                    assert(q[i] =~= Seq::<char>::empty());
                }
            }
        } else {
            let q = r.update(r.len() - 1, r.last().push(s.last()));
            lemma_join_extend_last(r, seq![sep], s.last());
            assert(p.push(s.last()) =~= s);
            assert forall|i: int| 0 <= i < q.len() implies !(#[trigger] q[i]).contains(sep) by {
                if i < r.len() - 1 {
                    assert(q[i] == r[i]);
                } else {
                    let x = r.last();
                    assert(!r[r.len() - 1].contains(sep));
                    assert(q[i] == x.push(s.last()));
                    if x.push(s.last()).contains(sep) {
                        let k = choose|k: int| 0 <= k < x.push(s.last()).len() && x.push(s.last())[k] == sep;
                        if k < x.len() {
                            assert(x[k] == sep);
                        }
                    }
                }
            }
        }
    }
}

/// The number of occurrences of `c` in `s`.
pub open spec fn count_char(s: Seq<char>, c: char) -> nat
    decreases s.len(),
{
    if s.len() == 0 {
        0
    } else {
        count_char(s.drop_last(), c) + if s.last() == c { 1nat } else { 0nat }
    }
}

/// Splitting gives one piece more than there are separators.
pub proof fn lemma_split_count(s: Seq<char>, sep: char)
    ensures
        split_spec(s, sep).len() == count_char(s, sep) + 1,
    decreases s.len(),
{
    if s.len() > 0 {
        lemma_split_count(s.drop_last(), sep);
    }
}

/// Splits `s` at every occurrence of `sep` (`str::split` with a `char`).
pub fn split_char(s: &str, sep: char) -> (parts: Vec<String>)
    ensures
        string_views(parts@) == split_spec(s@, sep),
{
    let cs = chars_of(s);
    let mut parts: Vec<String> = Vec::new();
    let mut cur: Vec<char> = Vec::new();
    let mut i: usize = 0;
    assert(cs@.take(0) =~= Seq::<char>::empty());
    assert(string_views(parts@).push(cur@) =~= split_spec(cs@.take(0), sep));
    while i < cs.len()
        invariant
            i <= cs@.len(),
            string_views(parts@).push(cur@) == split_spec(cs@.take(i as int), sep),
        decreases cs@.len() - i,
    {
        let c = cs[i];
        let ghost before = cs@.take(i as int);
        assert(cs@.take(i + 1).drop_last() =~= before);
        assert(cs@.take(i + 1).last() == c);
        if c == sep {
            let piece = string_from_chars(cur.as_slice());
            parts.push(piece);
            cur = Vec::new();
            assert(string_views(parts@).push(cur@) =~= split_spec(before, sep).push(Seq::<char>::empty()));
        } else {
            let ghost old_views = string_views(parts@);
            cur.push(c);
            assert(string_views(parts@).push(cur@) =~= split_spec(before, sep).update(
                split_spec(before, sep).len() - 1, split_spec(before, sep).last().push(c)));
        }
        i = i + 1;
    }
    assert(cs@.take(cs@.len() as int) =~= cs@);
    let last = string_from_chars(cur.as_slice());
    parts.push(last);
    assert(string_views(parts@) =~= split_spec(s@, sep));
    parts
}

/// The pieces of `parts`, in order, with `sep` between each two neighbours.
pub fn join_strs(parts: &Vec<&str>, sep: &str) -> (s: String)
    ensures
        s@ == join_spec(str_views(parts@), sep@),
{
    let mut s = String::new();
    let mut i: usize = 0;
    while i < parts.len()
        invariant
            i <= parts@.len(),
            s@ == join_spec(str_views(parts@.take(i as int)), sep@),
        decreases parts@.len() - i,
    {
        let ghost before = str_views(parts@.take(i as int));
        assert(str_views(parts@.take(i + 1)).drop_last() =~= before);
        assert(str_views(parts@.take(i + 1)).last() == parts@[i as int]@);
        if i > 0 {
            s.append(sep);
        } else {
            assert(str_views(parts@.take(1)) =~= seq![parts@[0]@]);
        }
        s.append(parts[i]);
        i = i + 1;
    }
    assert(parts@.take(parts@.len() as int) =~= parts@);
    s
}

/// What `str::to_uppercase` gives for a string. Unicode defines it
/// character by character, some characters growing into several.
pub uninterp spec fn unicode_uppercase(s: Seq<char>) -> Seq<char>;

/// `str::to_uppercase`: the result is the Unicode upper case of `s`, a
/// function of `s` alone; nothing more is stated of it.
#[verifier::external_body]
pub(crate) fn to_uppercase(s: &str) -> (r: String)
    ensures
        r@ == unicode_uppercase(s@),
{
    s.to_uppercase()
}

/// Do `a` and `b` hold the same characters?
pub fn same_text(a: &str, b: &str) -> (r: bool)
    ensures
        r == (a@ == b@),
{
    let x = chars_of(a);
    let y = chars_of(b);
    if x.len() != y.len() {
        return false;
    }
    let mut i: usize = 0;
    while i < x.len()
        invariant
            i <= x@.len(),
            x@.len() == y@.len(),
            x@ == a@,
            y@ == b@,
            forall|k: int| 0 <= k < i ==> x@[k] == y@[k],
        decreases x@.len() - i,
    {
        if x[i] != y[i] {
            return false;
        }
        i = i + 1;
    }
    assert(x@ =~= y@);
    true
}

/// The view of an optional string slice.
pub open spec fn opt_str_view(o: Option<&str>) -> Option<Seq<char>> {
    match o {
        Some(s) => Some(s@),
        None => None,
    }
}
} // verus!
