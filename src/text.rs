use vstd::prelude::*;
use vstd::string::StrSliceExecFns;

verus! {

/// Relies on collecting characters into a `String`, which keeps them in order.
#[verifier::external_body]
pub(crate) fn string_of(chars: Vec<char>) -> (r: String)
    ensures
        r@ == chars@,
{
    chars.into_iter().collect()
}

/// Whether two strings hold the same characters.
pub fn same_text(a: &str, b: &str) -> (r: bool)
    ensures
        r == (a@ == b@),
{
    let n = a.unicode_len();
    if n != b.unicode_len() {
        return false;
    }
    let mut i: usize = 0;
    while i < n
        invariant
            n == a@.len() == b@.len(),
            i <= n,
            a@.subrange(0, i as int) == b@.subrange(0, i as int),
        decreases n - i,
    {
        if a.get_char(i) != b.get_char(i) {
            return false;
        }
        assert(a@.subrange(0, i + 1) == a@.subrange(0, i as int).push(a@[i as int]));
        assert(b@.subrange(0, i + 1) == b@.subrange(0, i as int).push(b@[i as int]));
        i = i + 1;
    }
    assert(a@ == a@.subrange(0, n as int));
    assert(b@ == b@.subrange(0, n as int));
    true
}

/// Whether `s` holds `part` at position `at`.
fn text_at(s: &str, part: &str, at: usize) -> (r: bool)
    requires
        at + part@.len() <= s@.len(),
        s@.len() <= usize::MAX,
    ensures
        r == (s@.subrange(at as int, at + part@.len()) == part@),
{
    let m = part.unicode_len();
    let mut j: usize = 0;
    while j < m
        invariant
            m == part@.len(),
            at + m <= s@.len(),
            s@.len() <= usize::MAX,
            j <= m,
            s@.subrange(at as int, at + j) == part@.subrange(0, j as int),
        decreases m - j,
    {
        if s.get_char(at + j) != part.get_char(j) {
            assert(s@.subrange(at as int, at + m)[j as int] != part@[j as int]);
            return false;
        }
        assert(s@.subrange(at as int, at + j + 1) == s@.subrange(at as int, at + j).push(s@[at + j]));
        assert(part@.subrange(0, j + 1) == part@.subrange(0, j as int).push(part@[j as int]));
        j = j + 1;
    }
    assert(part@.subrange(0, m as int) == part@);
    true
}

/// Whether `s` holds `part` somewhere.
pub open spec fn holds_text(s: Seq<char>, part: Seq<char>) -> bool {
    exists|i: int| 0 <= i && i + part.len() <= s.len() && #[trigger] s.subrange(i, i + part.len()) == part
}

/// Whether `part` occurs somewhere in `s`.
pub fn contains_text(s: &str, part: &str) -> (r: bool)
    ensures
        r == holds_text(s@, part@),
{
    let n = s.unicode_len();
    let m = part.unicode_len();
    if m > n {
        return false;
    }
    if m == 0 {
        assert(s@.subrange(0int, 0int + part@.len()) =~= part@);
        return true;
    }
    let mut at: usize = 0;
    while at <= n - m
        invariant
            n == s@.len(),
            m == part@.len(),
            1 <= m <= n,
            at <= n - m + 1,
            forall|i: int| 0 <= i < at ==> #[trigger] s@.subrange(i, i + m) != part@,
        decreases n - m + 1 - at,
    {
        if text_at(s, part, at) {
            return true;
        }
        at = at + 1;
    }
    false
}

} // verus!
