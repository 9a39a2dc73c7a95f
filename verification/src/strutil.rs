//! Splitting and joining of separator-delimited strings, used to build the
//! domain-suffix chain of a prepared URL.

use vstd::prelude::*;

verus! {

/// The position of the first occurrence of `sep` in `s`, or `s.len()` when
/// there is none.
pub open spec fn first_sep_index(s: Seq<char>, sep: char) -> nat
    decreases s.len(),
{
    if s.len() == 0 {
        0
    } else if s[0] == sep {
        0
    } else {
        1 + first_sep_index(s.drop_first(), sep)
    }
}

/// `s` divided at every occurrence of `sep`: the pieces in order, without the
/// separators. A sequence with no separator is itself the single piece, so
/// the result never has fewer than one piece.
pub open spec fn spec_split(s: Seq<char>, sep: char) -> Seq<Seq<char>>
    decreases s.len(),
{
    let i = first_sep_index(s, sep);
    if i >= s.len() {
        seq![s]
    } else {
        seq![s.take(i as int)] + spec_split(s.skip(i + 1 as int), sep)
    }
}

/// The pieces of `parts` concatenated, with `sep` between consecutive pieces.
pub open spec fn spec_join(parts: Seq<Seq<char>>, sep: char) -> Seq<char>
    decreases parts.len(),
{
    if parts.len() == 0 {
        Seq::empty()
    } else if parts.len() == 1 {
        parts[0]
    } else {
        parts[0] + seq![sep] + spec_join(parts.drop_first(), sep)
    }
}

/// A position before which `sep` never occurs, and which holds `sep` unless
/// it is `s.len()`, is exactly `first_sep_index`.
pub proof fn lemma_first_sep_index_is(s: Seq<char>, sep: char, j: int)
    requires
        0 <= j <= s.len(),
        forall|k: int| 0 <= k < j ==> s[k] != sep,
        j < s.len() ==> s[j] == sep,
    ensures
        first_sep_index(s, sep) == j,
    decreases s.len(),
{
    if s.len() == 0 {
    } else if s[0] == sep {
        if j > 0 {
            assert(s[0] != sep);
        }
    } else {
        assert(j > 0);
        assert forall|k: int| 0 <= k < j - 1 implies s.drop_first()[k] != sep by {
            assert(s.drop_first()[k] == s[k + 1]);
        }
        assert(j - 1 < s.drop_first().len() ==> s.drop_first()[j - 1] == sep);
        lemma_first_sep_index_is(s.drop_first(), sep, j - 1);
    }
}

/// How `spec_split` divides `s` once its first separator position is known:
/// everything before the separator is the first piece, and the split
/// continues after it; a separator-free `s` is the single piece.
pub proof fn lemma_split_at(s: Seq<char>, sep: char, j: int)
    requires
        0 <= j <= s.len(),
        forall|k: int| 0 <= k < j ==> s[k] != sep,
        j < s.len() ==> s[j] == sep,
    ensures
        j < s.len() ==> spec_split(s, sep) == seq![s.take(j)] + spec_split(s.skip(j + 1), sep),
        j == s.len() ==> spec_split(s, sep) == seq![s],
{
    lemma_first_sep_index_is(s, sep, j);
}

/// A split never has fewer than one piece.
pub proof fn lemma_split_len(s: Seq<char>, sep: char)
    ensures
        spec_split(s, sep).len() >= 1,
{
}

/// Joining after appending one more piece appends a separator and the piece.
pub proof fn lemma_join_push(parts: Seq<Seq<char>>, sep: char, x: Seq<char>)
    requires
        parts.len() >= 1,
    ensures
        spec_join(parts.push(x), sep) == spec_join(parts, sep) + seq![sep] + x,
    decreases parts.len(),
{
    if parts.len() == 1 {
        assert(parts.push(x).drop_first() =~= seq![x]);
        assert(spec_join(seq![x], sep) == x);
        assert(parts.push(x)[0] == parts[0]);
        assert(spec_join(parts.push(x), sep) == parts[0] + seq![sep] + x);
    } else {
        lemma_join_push(parts.drop_first(), sep, x);
        assert(parts.push(x).drop_first() =~= parts.drop_first().push(x));
        assert((parts[0] + seq![sep] + (spec_join(parts.drop_first(), sep) + seq![sep] + x)) =~= ((
        parts[0] + seq![sep] + spec_join(parts.drop_first(), sep)) + seq![sep] + x));
    }
}

/// The pieces of `s` between occurrences of `sep`, in order.
pub(crate) fn split_str(s: &str, sep: char) -> (r: Vec<String>)
    ensures
        r.deep_view() == spec_split(s@, sep),
{
    let n = s.unicode_len();
    let mut r: Vec<String> = Vec::new();
    let mut start: usize = 0;
    let mut i: usize = 0;
    proof {
        assert(s@.skip(0) =~= s@);
        assert(r.deep_view() + spec_split(s@, sep) =~= spec_split(s@, sep));
    }
    while i < n
        invariant
            start <= i <= n,
            n == s@.len(),
            forall|k: int| start <= k < i ==> s@[k] != sep,
            spec_split(s@, sep) == r.deep_view() + spec_split(s@.skip(start as int), sep),
        decreases n - i,
    {
        if s.get_char(i) == sep {
            let piece = s.substring_char(start, i).to_owned();
            proof {
                let t = s@.skip(start as int);
                assert forall|k: int| 0 <= k < i - start implies t[k] != sep by {
                    assert(t[k] == s@[start + k]);
                }
                assert(t[i - start] == s@[i as int]);
                lemma_split_at(t, sep, i - start);
                assert(t.take(i - start) =~= s@.subrange(start as int, i as int));
                assert(t.skip(i - start + 1) =~= s@.skip(i as int + 1));
                assert(r.deep_view() + (seq![piece@] + spec_split(s@.skip(i as int + 1), sep)) =~= (
                r.deep_view().push(piece@) + spec_split(s@.skip(i as int + 1), sep)));
            }
            let ghost old_deep = r.deep_view();
            r.push(piece);
            proof {
                assert(r.deep_view() =~= old_deep.push(s@.subrange(start as int, i as int)));
            }
            start = i + 1;
        }
        i += 1;
    }
    let piece = s.substring_char(start, n).to_owned();
    proof {
        let t = s@.skip(start as int);
        assert forall|k: int| 0 <= k < n - start implies t[k] != sep by {
            assert(t[k] == s@[start + k]);
        }
        lemma_split_at(t, sep, n - start);
        assert(t =~= s@.subrange(start as int, n as int));
        assert(r.deep_view() + seq![t] =~= r.deep_view().push(t));
    }
    let ghost old_deep = r.deep_view();
    r.push(piece);
    proof {
        assert(r.deep_view() =~= old_deep.push(s@.subrange(start as int, n as int)));
    }
    r
}

/// The pieces of `parts` from position `from` on, joined with `.` between
/// consecutive pieces.
pub(crate) fn join_dots(parts: &Vec<String>, from: usize) -> (r: String)
    requires
        from < parts@.len(),
    ensures
        r@ == spec_join(parts.deep_view().skip(from as int), '.'),
{
    let ghost pd = parts.deep_view();
    let n = parts.len();
    let mut r: String = parts[from].clone();
    let mut j: usize = from + 1;
    proof {
        assert(pd.subrange(from as int, from + 1) =~= seq![pd[from as int]]);
    }
    while j < n
        invariant
            from < j <= parts@.len(),
            n == parts@.len(),
            pd == parts.deep_view(),
            r@ == spec_join(pd.subrange(from as int, j as int), '.'),
        decreases parts@.len() - j,
    {
        r.append(".");
        r.append(parts[j].as_str());
        proof {
            reveal_strlit(".");
            assert("."@ =~= seq!['.']);
            lemma_join_push(pd.subrange(from as int, j as int), '.', pd[j as int]);
            assert(pd.subrange(from as int, j + 1) =~= pd.subrange(from as int, j as int).push(
                pd[j as int],
            ));
        }
        j += 1;
    }
    proof {
        assert(pd.subrange(from as int, pd.len() as int) =~= pd.skip(from as int));
    }
    r
}

/// Whether some string in `v` equals `x`, compared as character sequences.
pub(crate) fn contains_string(v: &Vec<String>, x: &String) -> (r: bool)
    ensures
        r == v.deep_view().contains(x@),
{
    let mut i: usize = 0;
    while i < v.len()
        invariant
            i <= v@.len(),
            forall|k: int| 0 <= k < i ==> v.deep_view()[k] != x@,
        decreases v@.len() - i,
    {
        if v[i] == *x {
            proof {
                assert(v.deep_view()[i as int] == x@);
            }
            return true;
        }
        i += 1;
    }
    proof {
        assert forall|k: int| 0 <= k < v.deep_view().len() implies v.deep_view()[k] != x@ by {}
    }
    false
}

} // verus!
