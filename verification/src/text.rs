//! Character-level string utilities: prefix tests, splitting a configuration
//! line at its first `=`, and the lexicographic order used to give service
//! lists a delivery-order-independent ordering.

use vstd::prelude::*;

verus! {

use vstd::string::StrSliceExecFns;

/// `p` is an initial segment of `s`.
pub open spec fn is_prefix(p: Seq<char>, s: Seq<char>) -> bool {
    p.len() <= s.len() && s.subrange(0, p.len() as int) == p
}

/// The text after the first `=` of `l`, or `None` when `l` has no `=`.
pub open spec fn eq_split(l: Seq<char>) -> Option<Seq<char>>
    decreases l.len(),
{
    if l.len() == 0 {
        None
    } else if l[0] == '=' {
        Some(l.drop_first())
    } else {
        eq_split(l.drop_first())
    }
}

/// `a` is at or before `b` in lexicographic order of unicode scalar values.
pub open spec fn lex_le(a: Seq<char>, b: Seq<char>) -> bool
    decreases a.len(),
{
    if a.len() == 0 {
        true
    } else if b.len() == 0 {
        false
    } else if a[0] != b[0] {
        a[0] < b[0]
    } else {
        lex_le(a.drop_first(), b.drop_first())
    }
}

/// The lexicographic order is total.
pub proof fn lemma_lex_le_total(a: Seq<char>, b: Seq<char>)
    ensures
        lex_le(a, b) || lex_le(b, a),
    decreases a.len(),
{
    if a.len() == 0 || b.len() == 0 {
    } else if a[0] != b[0] {
    } else {
        lemma_lex_le_total(a.drop_first(), b.drop_first());
    }
}

/// The lexicographic order is antisymmetric.
pub proof fn lemma_lex_le_antisym(a: Seq<char>, b: Seq<char>)
    requires
        lex_le(a, b),
        lex_le(b, a),
    ensures
        a == b,
    decreases a.len(),
{
    if a.len() == 0 {
        // lex_le(b, a) with a empty forces b empty.
        assert(a =~= b);
    } else {
        lemma_lex_le_antisym(a.drop_first(), b.drop_first());
        assert(a =~= seq![a[0]] + a.drop_first());
        assert(b =~= seq![b[0]] + b.drop_first());
    }
}

/// The lexicographic order is transitive.
pub proof fn lemma_lex_le_trans(a: Seq<char>, b: Seq<char>, c: Seq<char>)
    requires
        lex_le(a, b),
        lex_le(b, c),
    ensures
        lex_le(a, c),
    decreases a.len(),
{
    if a.len() == 0 {
    } else {
        // a is nonempty, so b and c are nonempty as well.
        if a[0] == b[0] && b[0] == c[0] {
            lemma_lex_le_trans(a.drop_first(), b.drop_first(), c.drop_first());
        }
    }
}

/// Whether `s` starts with `p`, decided character by character.
pub fn has_prefix(s: &str, p: &str) -> (r: bool)
    ensures
        r == is_prefix(p@, s@),
{
    let np = p.unicode_len();
    let ns = s.unicode_len();
    if np > ns {
        return false;
    }
    let mut i: usize = 0;
    while i < np
        invariant
            0 <= i <= np,
            np == p@.len(),
            ns == s@.len(),
            np <= ns,
            forall|j: int| 0 <= j < i ==> p@[j] == s@[j],
        decreases np - i,
    {
        if s.get_char(i) != p.get_char(i) {
            assert(!is_prefix(p@, s@)) by {
                assert(s@.subrange(0, p@.len() as int)[i as int] == s@[i as int]);
            }
            return false;
        }
        i = i + 1;
    }
    assert(s@.subrange(0, p@.len() as int) =~= p@);
    true
}

proof fn lemma_eq_split_none(l: Seq<char>)
    requires
        forall|j: int| 0 <= j < l.len() ==> l[j] != '=',
    ensures
        eq_split(l) is None,
    decreases l.len(),
{
    if l.len() > 0 {
        lemma_eq_split_none(l.drop_first());
    }
}

proof fn lemma_eq_split_at(l: Seq<char>, i: int)
    requires
        0 <= i < l.len(),
        l[i] == '=',
        forall|j: int| 0 <= j < i ==> l[j] != '=',
    ensures
        eq_split(l) == Some(l.subrange(i + 1, l.len() as int)),
    decreases i,
{
    if i == 0 {
        assert(l.drop_first() =~= l.subrange(1, l.len() as int));
    } else {
        lemma_eq_split_at(l.drop_first(), i - 1);
        assert(l.drop_first().subrange(i, l.len() - 1) =~= l.subrange(i + 1, l.len() as int));
    }
}

/// The text after the first `=` of `l`, or `None` when `l` has no `=`.
pub fn value_after_eq(l: &str) -> (r: Option<String>)
    ensures
        match r {
            Some(v) => eq_split(l@) == Some(v@),
            None => eq_split(l@) is None,
        },
{
    let n = l.unicode_len();
    let mut i: usize = 0;
    while i < n
        invariant
            0 <= i <= n,
            n == l@.len(),
            forall|j: int| 0 <= j < i ==> l@[j] != '=',
        decreases n - i,
    {
        if l.get_char(i) == '=' {
            let v = l.substring_char(i + 1, n);
            proof {
                lemma_eq_split_at(l@, i as int);
            }
            return Some(v.to_owned());
        }
        i = i + 1;
    }
    proof {
        lemma_eq_split_none(l@);
    }
    None
}

/// Whether `a` is at or before `b` in lexicographic order, decided character
/// by character.
pub fn str_le(a: &str, b: &str) -> (r: bool)
    ensures
        r == lex_le(a@, b@),
{
    let na = a.unicode_len();
    let nb = b.unicode_len();
    let mut i: usize = 0;
    proof {
        assert(a@.skip(0) =~= a@);
        assert(b@.skip(0) =~= b@);
    }
    loop
        invariant
            0 <= i <= na,
            i <= nb,
            na == a@.len(),
            nb == b@.len(),
            lex_le(a@, b@) == lex_le(a@.skip(i as int), b@.skip(i as int)),
        decreases na - i,
    {
        if i == na {
            assert(a@.skip(i as int).len() == 0);
            return true;
        }
        if i == nb {
            assert(b@.skip(i as int).len() == 0);
            assert(a@.skip(i as int).len() > 0);
            return false;
        }
        let ca = a.get_char(i);
        let cb = b.get_char(i);
        proof {
            assert(a@.skip(i as int)[0] == a@[i as int]);
            assert(b@.skip(i as int)[0] == b@[i as int]);
        }
        if ca != cb {
            return ca < cb;
        }
        proof {
            assert(a@.skip(i as int).drop_first() =~= a@.skip(i + 1));
            assert(b@.skip(i as int).drop_first() =~= b@.skip(i + 1));
        }
        i = i + 1;
    }
}

} // verus!
