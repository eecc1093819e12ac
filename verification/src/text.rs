//! Character-level text operations: substring search and replacement.
use vstd::prelude::*;

verus! {

/// `p` occurs in `s` starting at character index `i`.
pub open spec fn occurs_at(s: Seq<char>, p: Seq<char>, i: int) -> bool {
    &&& 0 <= i
    &&& i + p.len() <= s.len()
    &&& s.subrange(i, i + p.len()) =~= p
}

/// `p` occurs somewhere in `s`.
pub open spec fn has_substring(s: Seq<char>, p: Seq<char>) -> bool {
    exists|i: int| occurs_at(s, p, i)
}

/// The characters of `s`, as a vector.
pub fn chars_of(s: &str) -> (v: Vec<char>)
    ensures
        v@ == s@,
{
    let mut v: Vec<char> = Vec::new();
    for c in it: s.chars()
        invariant
            v@ == it.seq().take(it.index() as int),
    {
        v.push(c);
    }
    v
}


/// `s` with every occurrence of `p` replaced by `r`, scanning from the left
/// and never rescanning what was put in. An empty `p` matches before every
/// character and at the end.
pub open spec fn replace_all(s: Seq<char>, p: Seq<char>, r: Seq<char>) -> Seq<char>
    decreases s.len(),
{
    if s.len() == 0 {
        if p.len() == 0 { r } else { s }
    } else if occurs_at(s, p, 0) {
        if p.len() == 0 {
            r + seq![s[0]] + replace_all(s.skip(1), p, r)
        } else {
            r + replace_all(s.skip(p.len() as int), p, r)
        }
    } else {
        seq![s[0]] + replace_all(s.skip(1), p, r)
    }
}

/// Whether `p` occurs in `s` at index `i`.
fn matches_at(s: &Vec<char>, p: &Vec<char>, i: usize) -> (b: bool)
    requires
        i <= s.len(),
    ensures
        b == occurs_at(s@, p@, i as int),
{
    if p.len() > s.len() - i {
        return false;
    }
    let mut k: usize = 0;
    while k < p.len()
        invariant
            i + p.len() <= s.len(),
            k <= p.len(),
            forall|j: int| 0 <= j < k ==> s@[i + j] == p@[j],
        decreases p.len() - k,
    {
        if s[i + k] != p[k] {
            assert(s@.subrange(i as int, i + p.len())[k as int] != p@[k as int]);
            return false;
        }
        k = k + 1;
    }
    assert(s@.subrange(i as int, i + p.len()) =~= p@);
    true
}

/// Whether `pattern` occurs in `s`.
pub fn contains(s: &str, pattern: &str) -> (b: bool)
    ensures
        b == has_substring(s@, pattern@),
{
    let cs = chars_of(s);
    let ps = chars_of(pattern);
    let mut i: usize = 0;
    while i < cs.len()
        invariant
            i <= cs.len(),
            cs@ == s@,
            ps@ == pattern@,
            forall|j: int| 0 <= j < i ==> !occurs_at(s@, pattern@, j),
        decreases cs.len() - i,
    {
        if matches_at(&cs, &ps, i) {
            return true;
        }
        i = i + 1;
    }
    if matches_at(&cs, &ps, i) {
        return true;
    }
    false
}


proof fn lemma_occurs_at_skip(s: Seq<char>, p: Seq<char>, i: int)
    requires
        0 <= i <= s.len(),
    ensures
        occurs_at(s.skip(i), p, 0) == occurs_at(s, p, i),
{
    if i + p.len() <= s.len() {
        assert(s.skip(i).subrange(0, p.len() as int) =~= s.subrange(i, i + p.len()));
    }
}

/// One step of `replace_all` on the suffix of `s` that starts at `i`.
proof fn lemma_replace_all_step(s: Seq<char>, p: Seq<char>, r: Seq<char>, i: int)
    requires
        0 <= i < s.len(),
    ensures
        occurs_at(s, p, i) && p.len() == 0 ==> replace_all(s.skip(i), p, r) == r + seq![s[i]]
            + replace_all(s.skip(i + 1), p, r),
        occurs_at(s, p, i) && p.len() > 0 ==> replace_all(s.skip(i), p, r) == r + replace_all(
            s.skip(i + p.len()),
            p,
            r,
        ),
        !occurs_at(s, p, i) ==> replace_all(s.skip(i), p, r) == seq![s[i]] + replace_all(
            s.skip(i + 1),
            p,
            r,
        ),
{
    lemma_occurs_at_skip(s, p, i);
    assert(s.skip(i).skip(1) =~= s.skip(i + 1));
    if occurs_at(s, p, i) {
        assert(s.skip(i).skip(p.len() as int) =~= s.skip(i + p.len()));
    }
}

/// `s` with every occurrence of `pattern` replaced by `with`, as
/// `str::replace` does.
pub fn replace(s: &str, pattern: &str, with: &str) -> (r: String)
    ensures
        r@ == replace_all(s@, pattern@, with@),
{
    let cs = chars_of(s);
    let ps = chars_of(pattern);
    let ghost whole = replace_all(s@, pattern@, with@);
    let mut out = String::new();
    let mut last: usize = 0;
    let mut i: usize = 0;
    assert(s@.skip(0) =~= s@);
    while i < cs.len()
        invariant
            cs@ == s@,
            ps@ == pattern@,
            last <= i <= cs.len(),
            whole == replace_all(s@, pattern@, with@),
            whole == out@ + s@.subrange(last as int, i as int) + replace_all(
                s@.skip(i as int),
                pattern@,
                with@,
            ),
        decreases cs.len() - i,
    {
        proof {
            lemma_replace_all_step(s@, pattern@, with@, i as int);
        }
        if matches_at(&cs, &ps, i) {
            out.append(s.substring_char(last, i));
            out.append(with);
            if ps.len() == 0 {
                out.append(s.substring_char(i, i + 1));
                i = i + 1;
            } else {
                i = i + ps.len();
            }
            last = i;
            assert(s@.subrange(last as int, i as int) =~= Seq::<char>::empty());
        } else {
            assert(s@.subrange(last as int, i + 1) =~= s@.subrange(last as int, i as int).push(
                s@[i as int],
            ));
            i = i + 1;
        }
    }
    out.append(s.substring_char(last, cs.len()));
    assert(s@.skip(i as int) =~= Seq::<char>::empty());
    if ps.len() == 0 {
        out.append(with);
    }
    out
}


/// Replacing a non-empty pattern that does not occur leaves the text unchanged.
pub proof fn lemma_replace_absent(s: Seq<char>, p: Seq<char>, r: Seq<char>)
    requires
        p.len() > 0,
        !has_substring(s, p),
    ensures
        replace_all(s, p, r) == s,
    decreases s.len(),
{
    if s.len() > 0 {
        assert(!occurs_at(s, p, 0));
        assert forall|j: int| !occurs_at(s.skip(1), p, j) by {
            if occurs_at(s.skip(1), p, j) {
                assert(s.subrange(j + 1, j + 1 + p.len()) =~= s.skip(1).subrange(j, j + p.len()));
                assert(occurs_at(s, p, j + 1));
            }
        }
        lemma_replace_absent(s.skip(1), p, r);
        assert(seq![s[0]] + s.skip(1) =~= s);
    }
}

/// Replacing a pattern by itself leaves the text unchanged.
pub proof fn lemma_replace_self(s: Seq<char>, p: Seq<char>)
    ensures
        replace_all(s, p, p) == s,
    decreases s.len(),
{
    if s.len() > 0 {
        if occurs_at(s, p, 0) {
            if p.len() == 0 {
                lemma_replace_self(s.skip(1), p);
                assert(p + seq![s[0]] + s.skip(1) =~= s);
            } else {
                lemma_replace_self(s.skip(p.len() as int), p);
                assert(p + s.skip(p.len() as int) =~= s);
            }
        } else {
            lemma_replace_self(s.skip(1), p);
            assert(seq![s[0]] + s.skip(1) =~= s);
        }
    }
}

/// In `a + p + b`, where `p` is non-empty and no occurrence of `p` starts
/// inside `a`, the occurrence after `a` is the first one replaced and the
/// scan resumes on `b`.
pub proof fn lemma_replace_first(a: Seq<char>, p: Seq<char>, b: Seq<char>, r: Seq<char>)
    requires
        p.len() > 0,
        forall|i: int| 0 <= i < a.len() ==> !occurs_at(a + p + b, p, i),
    ensures
        replace_all(a + p + b, p, r) == a + r + replace_all(b, p, r),
    decreases a.len(),
{
    let s = a + p + b;
    if a.len() == 0 {
        assert(s =~= p + b);
        assert(s.subrange(0, p.len() as int) =~= p);
        assert(s.skip(p.len() as int) =~= b);
        assert(a + r + replace_all(b, p, r) =~= r + replace_all(b, p, r));
    } else {
        let a1 = a.skip(1);
        assert(s.skip(1) =~= a1 + p + b);
        assert forall|i: int| 0 <= i < a1.len() implies !occurs_at(a1 + p + b, p, i) by {
            assert(!occurs_at(s, p, i + 1));
            if i + p.len() <= s.len() - 1 {
                assert(s.subrange(i + 1, i + 1 + p.len()) =~= (a1 + p + b).subrange(i, i + p.len()));
            }
        }
        lemma_replace_first(a1, p, b, r);
        assert(!occurs_at(s, p, 0));
        assert(s[0] == a[0]);
        assert(seq![a[0]] + (a1 + r + replace_all(b, p, r)) =~= a + r + replace_all(b, p, r));
    }
}


/// A template `prefix + placeholder + suffix` in which the placeholder's first
/// character occurs neither in the prefix nor in the suffix becomes
/// `prefix + value + suffix`.
pub proof fn lemma_replace_placeholder(
    prefix: Seq<char>,
    placeholder: Seq<char>,
    suffix: Seq<char>,
    value: Seq<char>,
)
    requires
        placeholder.len() > 0,
        forall|i: int| 0 <= i < prefix.len() ==> prefix[i] != placeholder[0],
        forall|i: int| 0 <= i < suffix.len() ==> suffix[i] != placeholder[0],
    ensures
        replace_all(prefix + placeholder + suffix, placeholder, value) == prefix + value + suffix,
{
    let s = prefix + placeholder + suffix;
    assert forall|i: int| 0 <= i < prefix.len() implies !occurs_at(s, placeholder, i) by {
        if occurs_at(s, placeholder, i) {
            assert(s.subrange(i, i + placeholder.len())[0] == s[i]);
        }
    }
    lemma_replace_first(prefix, placeholder, suffix, value);
    assert forall|j: int| !occurs_at(suffix, placeholder, j) by {
        if occurs_at(suffix, placeholder, j) {
            assert(suffix.subrange(j, j + placeholder.len())[0] == suffix[j]);
        }
    }
    lemma_replace_absent(suffix, placeholder, value);
}

/// Whether two strings hold the same characters.
pub fn same_text(a: &str, b: &str) -> (r: bool)
    ensures
        r == (a@ == b@),
{
    let ca = chars_of(a);
    let cb = chars_of(b);
    if ca.len() != cb.len() {
        return false;
    }
    let mut i: usize = 0;
    while i < ca.len()
        invariant
            ca@ == a@,
            cb@ == b@,
            ca.len() == cb.len(),
            i <= ca.len(),
            forall|j: int| 0 <= j < i ==> ca@[j] == cb@[j],
        decreases ca.len() - i,
    {
        if ca[i] != cb[i] {
            return false;
        }
        i = i + 1;
    }
    assert(a@ =~= b@);
    true
}

} // verus!
