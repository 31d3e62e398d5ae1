use vstd::prelude::*;

verus! {

/// `p` stands in `s` starting at position `i`.
pub open spec fn occurs_at(s: Seq<char>, p: Seq<char>, i: int) -> bool {
    &&& 0 <= i
    &&& i + p.len() <= s.len()
    &&& s.subrange(i, i + p.len()) == p
}

/// `p` stands somewhere in `s`.
pub open spec fn has_occurrence(s: Seq<char>, p: Seq<char>) -> bool {
    exists|i: int| occurs_at(s, p, i)
}

/// `s` with every occurrence of the non-empty `p`, found from left to right
/// and not overlapping, replaced by `t`.
pub open spec fn replace_all(s: Seq<char>, p: Seq<char>, t: Seq<char>) -> Seq<char>
    decreases s.len(),
{
    if p.len() == 0 || s.len() < p.len() {
        s
    } else if s.subrange(0, p.len() as int) == p {
        t + replace_all(s.subrange(p.len() as int, s.len() as int), p, t)
    } else {
        seq![s[0]] + replace_all(s.subrange(1, s.len() as int), p, t)
    }
}

/// The result of `str::to_lowercase` on a text: Unicode's lower-case mapping,
/// a function of the text alone.
pub uninterp spec fn lowercase(s: Seq<char>) -> Seq<char>;

/// Calls `str::to_lowercase`. The contract claims only that the result is the
/// lower-case mapping of the argument, named by `lowercase`; what that mapping
/// is, character by character, is left unsaid.
#[verifier::external_body]
pub(crate) fn to_lowercase(s: &str) -> (r: String)
    ensures
        r@ == lowercase(s@),
{
    s.to_lowercase()
}

/// The two texts hold the same characters.
pub fn text_eq(a: &str, b: &str) -> (r: bool)
    ensures
        r == (a@ == b@),
{
    let n = a.unicode_len();
    let m = b.unicode_len();
    if n != m {
        return false;
    }
    let mut i: usize = 0;
    while i < n
        invariant
            n == a@.len(),
            m == b@.len(),
            n == m,
            i <= n,
            forall|j: int| 0 <= j < i ==> a@[j] == b@[j],
        decreases n - i,
    {
        if a.get_char(i) != b.get_char(i) {
            return false;
        }
        i = i + 1;
    }
    assert(a@ =~= b@);
    true
}

/// Whether `p` stands in `s` starting at position `i`.
pub fn occurs_at_exec(s: &str, p: &str, i: usize) -> (r: bool)
    ensures
        r == occurs_at(s@, p@, i as int),
{
    let n = s.unicode_len();
    let m = p.unicode_len();
    if m > n || i > n - m {
        return false;
    }
    let mut j: usize = 0;
    while j < m
        invariant
            n == s@.len(),
            m == p@.len(),
            i + m <= n,
            j <= m,
            forall|k: int| 0 <= k < j ==> s@[i + k] == p@[k],
        decreases m - j,
    {
        if s.get_char(i + j) != p.get_char(j) {
            assert(s@.subrange(i as int, i + m)[j as int] == s@[i + j]);
            return false;
        }
        j = j + 1;
    }
    assert(s@.subrange(i as int, i + m) =~= p@);
    true
}

/// Whether `p` stands somewhere in `s` (as `str::contains` with a text pattern).
pub fn contains_text(s: &str, p: &str) -> (r: bool)
    ensures
        r == has_occurrence(s@, p@),
{
    let n = s.unicode_len();
    let m = p.unicode_len();
    if m > n {
        return false;
    }
    if m == 0 {
        assert(s@.subrange(0, 0) =~= p@);
        assert(occurs_at(s@, p@, 0));
        return true;
    }
    let mut i: usize = 0;
    while n - i >= m
        invariant
            n == s@.len(),
            m == p@.len(),
            0 < m <= n,
            i <= n,
            forall|k: int| 0 <= k < i ==> !occurs_at(s@, p@, k),
        decreases n - i,
    {
        if occurs_at_exec(s, p, i) {
            return true;
        }
        i = i + 1;
    }
    assert forall|k: int| !occurs_at(s@, p@, k) by {
        if k >= i {
            assert(k + m > n);
        }
    }
    false
}

proof fn lemma_replace_all_unfold(s: Seq<char>, p: Seq<char>, t: Seq<char>, i: int)
    requires
        p.len() > 0,
        0 <= i,
        i + p.len() <= s.len(),
    ensures
        occurs_at(s, p, i) ==> replace_all(s.subrange(i, s.len() as int), p, t) == t
            + replace_all(s.subrange(i + p.len(), s.len() as int), p, t),
        !occurs_at(s, p, i) ==> replace_all(s.subrange(i, s.len() as int), p, t) == seq![s[i]]
            + replace_all(s.subrange(i + 1, s.len() as int), p, t),
{
    let u = s.subrange(i, s.len() as int);
    assert(u.subrange(0, p.len() as int) =~= s.subrange(i, i + p.len()));
    assert(u.subrange(p.len() as int, u.len() as int) =~= s.subrange(i + p.len(), s.len() as int));
    assert(u.subrange(1, u.len() as int) =~= s.subrange(i + 1, s.len() as int));
    assert(u[0] == s[i]);
}

/// `s` with every occurrence of the non-empty `p` replaced by `t`, from left
/// to right and without overlap (as `str::replace` with a text pattern).
pub fn replace_text(s: &str, p: &str, t: &str) -> (r: String)
    requires
        p@.len() > 0,
    ensures
        r@ == replace_all(s@, p@, t@),
{
    let n = s.unicode_len();
    let m = p.unicode_len();
    let mut out = String::new();
    let mut i: usize = 0;
    assert(s@.subrange(0, n as int) =~= s@);
    while n - i >= m
        invariant
            n == s@.len(),
            m == p@.len(),
            m > 0,
            i <= n,
            out@ + replace_all(s@.subrange(i as int, n as int), p@, t@) == replace_all(
                s@,
                p@,
                t@,
            ),
        decreases n - i,
    {
        proof {
            lemma_replace_all_unfold(s@, p@, t@, i as int);
        }
        if occurs_at_exec(s, p, i) {
            out.append(t);
            proof {
                assert(out@ + replace_all(s@.subrange(i + m, n as int), p@, t@) =~= replace_all(
                    s@,
                    p@,
                    t@,
                ));
            }
            i = i + m;
        } else {
            let c = s.substring_char(i, i + 1);
            out.append(c);
            proof {
                assert(c@ =~= seq![s@[i as int]]);
                assert(out@ + replace_all(s@.subrange(i + 1, n as int), p@, t@) =~= replace_all(
                    s@,
                    p@,
                    t@,
                ));
            }
            i = i + 1;
        }
    }
    let rest = s.substring_char(i, n);
    out.append(rest);
    out
}

} // verus!
