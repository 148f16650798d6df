//! Character and string helpers: whitespace classification and trimming.

use vstd::prelude::*;

verus! {

/// A character that counts as whitespace when values and process output are
/// trimmed: the Unicode `White_Space` set, the same set `char::is_whitespace`
/// recognizes.
pub open spec fn spec_is_whitespace(c: char) -> bool {
    let u = c as u32;
    u == 0x09 || u == 0x0A || u == 0x0B || u == 0x0C || u == 0x0D || u == 0x20 || u == 0x85
        || u == 0xA0 || u == 0x1680 || (0x2000 <= u && u <= 0x200A) || u == 0x2028 || u == 0x2029
        || u == 0x202F || u == 0x205F || u == 0x3000
}

/// Decides whether `c` is whitespace in the sense of `spec_is_whitespace`.
pub fn is_whitespace_char(c: char) -> (r: bool)
    ensures
        r == spec_is_whitespace(c),
{
    let u = c as u32;
    u == 0x09 || u == 0x0A || u == 0x0B || u == 0x0C || u == 0x0D || u == 0x20 || u == 0x85
        || u == 0xA0 || u == 0x1680 || (0x2000 <= u && u <= 0x200A) || u == 0x2028 || u == 0x2029
        || u == 0x202F || u == 0x205F || u == 0x3000
}

/// The index of the first non-whitespace character of `s` at or after `i`,
/// or `s.len()` if every later character is whitespace.
pub open spec fn trim_start_idx(s: Seq<char>, i: int) -> int
    decreases s.len() - i when 0 <= i <= s.len()
{
    if i >= s.len() {
        i
    } else if spec_is_whitespace(s[i]) {
        trim_start_idx(s, i + 1)
    } else {
        i
    }
}

/// The index one past the last non-whitespace character of `s` before `j`,
/// or `0` if every earlier character is whitespace.
pub open spec fn trim_end_idx(s: Seq<char>, j: int) -> int
    decreases j when 0 <= j <= s.len()
{
    if j <= 0 {
        0
    } else if spec_is_whitespace(s[j - 1]) {
        trim_end_idx(s, j - 1)
    } else {
        j
    }
}

/// `s` with its leading and trailing whitespace removed.
pub open spec fn spec_trim(s: Seq<char>) -> Seq<char> {
    let a = trim_start_idx(s, 0);
    let b = trim_end_idx(s, s.len() as int);
    if a <= b {
        s.subrange(a, b)
    } else {
        Seq::empty()
    }
}

proof fn lemma_trim_start_idx(s: Seq<char>, i: int)
    requires
        0 <= i <= s.len(),
    ensures
        i <= trim_start_idx(s, i) <= s.len(),
        forall|k: int| i <= k < trim_start_idx(s, i) ==> spec_is_whitespace(s[k]),
        trim_start_idx(s, i) < s.len() ==> !spec_is_whitespace(s[trim_start_idx(s, i)]),
    decreases s.len() - i,
{
    if i < s.len() && spec_is_whitespace(s[i]) {
        lemma_trim_start_idx(s, i + 1);
    }
}

proof fn lemma_trim_end_idx(s: Seq<char>, j: int)
    requires
        0 <= j <= s.len(),
    ensures
        0 <= trim_end_idx(s, j) <= j,
        forall|k: int| trim_end_idx(s, j) <= k < j ==> spec_is_whitespace(s[k]),
        trim_end_idx(s, j) > 0 ==> !spec_is_whitespace(s[trim_end_idx(s, j) - 1]),
    decreases j,
{
    if j > 0 && spec_is_whitespace(s[j - 1]) {
        lemma_trim_end_idx(s, j - 1);
    }
}

/// Trimming yields the empty string exactly when the input is entirely
/// whitespace.
pub proof fn lemma_trim_empty_iff_whitespace(s: Seq<char>)
    ensures
        spec_trim(s).len() == 0 <==> (forall|i: int|
            0 <= i < s.len() ==> spec_is_whitespace(s[i])),
{
    lemma_trim_start_idx(s, 0);
    lemma_trim_end_idx(s, s.len() as int);
    let a = trim_start_idx(s, 0);
    let b = trim_end_idx(s, s.len() as int);
    if a < s.len() {
        if a < b {
            assert(spec_trim(s).len() == b - a);
        } else {
            // The character at `a` is not whitespace, so the end scan cannot
            // have passed it.
            assert(b <= a);
            assert(a < s.len());
            assert(spec_is_whitespace(s[a]));
            assert(false);
        }
    }
}

/// Returns `s` with leading and trailing whitespace removed.
pub fn trim(s: &str) -> (r: String)
    ensures
        r@ == spec_trim(s@),
{
    let n = s.unicode_len();
    proof {
        lemma_trim_start_idx(s@, 0);
        lemma_trim_end_idx(s@, s@.len() as int);
    }
    let mut a: usize = 0;
    while a < n && is_whitespace_char(s.get_char(a))
        invariant
            n == s@.len(),
            0 <= a <= n,
            trim_start_idx(s@, 0) == trim_start_idx(s@, a as int),
        decreases n - a,
    {
        a += 1;
    }
    assert(a as int == trim_start_idx(s@, 0));
    if a == n {
        // Entirely whitespace: the trimmed text is empty.
        assert(spec_trim(s@) =~= Seq::<char>::empty());
        return String::new();
    }
    let mut b: usize = n;
    while is_whitespace_char(s.get_char(b - 1))
        invariant
            n == s@.len(),
            a < b <= n,
            a as int == trim_start_idx(s@, 0),
            trim_start_idx(s@, 0) < s@.len(),
            !spec_is_whitespace(s@[a as int]),
            trim_end_idx(s@, n as int) == trim_end_idx(s@, b as int),
        decreases b,
    {
        b -= 1;
    }
    assert(b as int == trim_end_idx(s@, n as int));
    let sub = s.substring_char(a, b);
    sub.to_owned()
}

} // verus!
