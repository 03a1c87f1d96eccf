use vstd::prelude::*;

verus! {

/// What is left of `s` once every leading copy of `pattern` is removed. An empty pattern
/// removes nothing.
pub open spec fn trimmed_start(s: Seq<char>, pattern: Seq<char>) -> Seq<char>
    decreases s.len(),
{
    if pattern.len() > 0 && pattern.len() <= s.len() && s.take(pattern.len() as int) == pattern {
        trimmed_start(s.skip(pattern.len() as int), pattern)
    } else {
        s
    }
}

/// `k` copies of `pattern`, one after the other.
pub open spec fn repeated(pattern: Seq<char>, k: nat) -> Seq<char>
    decreases k,
{
    if k == 0 {
        seq![]
    } else {
        pattern + repeated(pattern, (k - 1) as nat)
    }
}

/// Trimming removes whole copies of the pattern from the front and nothing else: the text is
/// some number of copies of the pattern followed by what trimming leaves.
pub proof fn lemma_trimmed_start_is_copies_then_rest(s: Seq<char>, pattern: Seq<char>) -> (k: nat)
    ensures
        s == repeated(pattern, k) + trimmed_start(s, pattern),
    decreases s.len(),
{
    if pattern.len() > 0 && pattern.len() <= s.len() && s.take(pattern.len() as int) == pattern {
        let rest = s.skip(pattern.len() as int);
        let j = lemma_trimmed_start_is_copies_then_rest(rest, pattern);
        assert(s =~= pattern + rest);
        assert(repeated(pattern, j + 1) == pattern + repeated(pattern, j));
        assert(s =~= repeated(pattern, j + 1) + trimmed_start(s, pattern));
        j + 1
    } else {
        assert(s =~= repeated(pattern, 0) + s);
        0
    }
}

/// Whether `pattern` occurs in `s` at character position `at`.
fn occurs_at(s: &str, at: usize, pattern: &str) -> (res: bool)
    requires
        at + pattern@.len() <= s@.len(),
    ensures
        res == (s@.subrange(at as int, at + pattern@.len()) == pattern@),
{
    let n = s.unicode_len();
    let m = pattern.unicode_len();
    let mut j: usize = 0;
    while j < m
        invariant
            n == s@.len(),
            m == pattern@.len(),
            at + m <= s@.len(),
            j <= m,
            forall|k: int| 0 <= k < j ==> s@[at + k] == pattern@[k],
        decreases m - j,
    {
        if s.get_char(at + j) != pattern.get_char(j) {
            assert(s@.subrange(at as int, at + m)[j as int] != pattern@[j as int]);
            return false;
        }
        j = j + 1;
    }
    assert(s@.subrange(at as int, at + m) =~= pattern@);
    true
}

/// Removes every leading copy of `pattern` from `s`, as `str::trim_start_matches` does
/// with a string pattern.
pub fn trim_start_matches<'a>(s: &'a str, pattern: &str) -> (res: &'a str)
    ensures
        res@ == trimmed_start(s@, pattern@),
        exists|k: nat| s@ == #[trigger] repeated(pattern@, k) + res@,
        pattern@.len() > 0 ==> !(res@.len() >= pattern@.len() && res@.take(pattern@.len() as int)
            == pattern@),
{
    proof {
        let k = lemma_trimmed_start_is_copies_then_rest(s@, pattern@);
        if pattern@.len() > 0 {
            lemma_trimmed_start_drops_pattern(s@, pattern@);
        }
    }
    let n = s.unicode_len();
    let m = pattern.unicode_len();
    if m == 0 {
        return s;
    }
    let mut i: usize = 0;
    assert(s@.skip(0) =~= s@);
    loop
        invariant
            n == s@.len(),
            m == pattern@.len(),
            m > 0,
            i <= n,
            trimmed_start(s@.skip(i as int), pattern@) == trimmed_start(s@, pattern@),
        ensures
            i <= n,
            trimmed_start(s@, pattern@) == s@.skip(i as int),
        decreases n - i,
    {
        if m > n - i {
            assert(trimmed_start(s@.skip(i as int), pattern@) == s@.skip(i as int));
            break;
        }
        if !occurs_at(s, i, pattern) {
            assert(s@.skip(i as int).take(m as int) =~= s@.subrange(i as int, i + m));
            assert(trimmed_start(s@.skip(i as int), pattern@) == s@.skip(i as int));
            break;
        }
        assert(s@.skip(i as int).take(m as int) =~= s@.subrange(i as int, i + m));
        assert(s@.skip(i as int).skip(m as int) =~= s@.skip(i + m));
        i = i + m;
    }
    assert(s@.subrange(i as int, n as int) =~= s@.skip(i as int));
    s.substring_char(i, n)
}

/// Once every leading copy of a non-empty pattern is removed, the text no longer starts
/// with the pattern.
pub proof fn lemma_trimmed_start_drops_pattern(s: Seq<char>, pattern: Seq<char>)
    requires
        pattern.len() > 0,
    ensures
        !(trimmed_start(s, pattern).len() >= pattern.len()
            && trimmed_start(s, pattern).take(pattern.len() as int) == pattern),
    decreases s.len(),
{
    if pattern.len() <= s.len() && s.take(pattern.len() as int) == pattern {
        lemma_trimmed_start_drops_pattern(s.skip(pattern.len() as int), pattern);
    }
}

} // verus!
