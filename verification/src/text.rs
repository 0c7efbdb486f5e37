//! Names as sequences of characters: trimming and case folding.

use vstd::prelude::*;
use vstd::string::StrSliceExecFns;
use vstd::string::StringExecFns;

verus! {

/// Whether `char::is_whitespace` holds of `c`: whether `c` has the Unicode
/// property `White_Space`.
pub uninterp spec fn is_whitespace(c: char) -> bool;

/// The lowercase form that `str::to_lowercase` gives to `s`.
pub uninterp spec fn lowercase(s: Seq<char>) -> Seq<char>;

/// `s` without its longest prefix of whitespace.
pub open spec fn trim_start(s: Seq<char>) -> Seq<char>
    decreases s.len(),
{
    if s.len() > 0 && is_whitespace(s.first()) {
        trim_start(s.drop_first())
    } else {
        s
    }
}

/// `s` without its longest suffix of whitespace.
pub open spec fn trim_end(s: Seq<char>) -> Seq<char>
    decreases s.len(),
{
    if s.len() > 0 && is_whitespace(s.last()) {
        trim_end(s.drop_last())
    } else {
        s
    }
}

/// `s` without leading and trailing whitespace.
pub open spec fn trimmed(s: Seq<char>) -> Seq<char> {
    trim_end(trim_start(s))
}

/// Whether trimming leaves `s` as it is.
pub open spec fn is_trimmed(s: Seq<char>) -> bool {
    trimmed(s) == s
}

/// `char::is_whitespace` tells whether a character has the Unicode property
/// `White_Space`; the answer depends on the character alone.
pub assume_specification[ char::is_whitespace ](c: char) -> (b: bool)
    ensures
        b == is_whitespace(c),
;

/// Calls `str::to_lowercase`, which returns the lowercase equivalent of `s`
/// as a new `String`; the result depends on the characters of `s` alone.
#[verifier::external_body]
pub(crate) fn to_lowercase(s: &str) -> (r: String)
    ensures
        r@ == lowercase(s@),
{
    s.to_lowercase()
}

/// What `trim_start` leaves is empty or begins with a character that is no
/// whitespace.
pub proof fn lemma_trim_start_head(s: Seq<char>)
    ensures
        trim_start(s).len() == 0 || !is_whitespace(trim_start(s).first()),
    decreases s.len(),
{
    if s.len() > 0 && is_whitespace(s.first()) {
        lemma_trim_start_head(s.drop_first());
    }
}

/// What `trim_end` leaves is a prefix of its argument, and is empty or ends
/// with a character that is no whitespace.
pub proof fn lemma_trim_end_prefix(s: Seq<char>)
    ensures
        trim_end(s).len() <= s.len(),
        trim_end(s) == s.subrange(0, trim_end(s).len() as int),
        trim_end(s).len() == 0 || !is_whitespace(trim_end(s).last()),
    decreases s.len(),
{
    if s.len() > 0 && is_whitespace(s.last()) {
        lemma_trim_end_prefix(s.drop_last());
    }
}

/// Trimming twice is trimming once.
pub proof fn lemma_trimmed_idempotent(s: Seq<char>)
    ensures
        is_trimmed(trimmed(s)),
{
    lemma_trim_start_head(s);
    lemma_trim_end_prefix(trim_start(s));
}

/// Where whitespace fills `s` up to `k` and stops there, `trim_start` cuts
/// at `k`.
pub proof fn lemma_trim_start_at(s: Seq<char>, k: int)
    requires
        0 <= k <= s.len(),
        forall|j: int| 0 <= j < k ==> is_whitespace(s[j]),
        k == s.len() || !is_whitespace(s[k]),
    ensures
        trim_start(s) == s.subrange(k, s.len() as int),
    decreases k,
{
    if k > 0 {
        lemma_trim_start_at(s.drop_first(), k - 1);
    }
}

/// Where whitespace fills `s` from `m` on and starts there, `trim_end` cuts
/// at `m`.
pub proof fn lemma_trim_end_at(s: Seq<char>, m: int)
    requires
        0 <= m <= s.len(),
        forall|j: int| m <= j < s.len() ==> is_whitespace(s[j]),
        m == 0 || !is_whitespace(s[m - 1]),
    ensures
        trim_end(s) == s.subrange(0, m),
    decreases s.len() - m,
{
    if m < s.len() {
        lemma_trim_end_at(s.drop_last(), m);
    }
}

/// The trimmed form of `s` is the part of `s` from its first to its last
/// character that is no whitespace.
pub proof fn lemma_trimmed_between(s: Seq<char>, start: int, end: int)
    requires
        0 <= start < end <= s.len(),
        forall|j: int| 0 <= j < start ==> is_whitespace(s[j]),
        forall|j: int| end <= j < s.len() ==> is_whitespace(s[j]),
        !is_whitespace(s[start]),
        !is_whitespace(s[end - 1]),
    ensures
        trimmed(s) == s.subrange(start, end),
{
    lemma_trim_start_at(s, start);
    lemma_trim_end_at(s.subrange(start, s.len() as int), end - start);
}

/// The trimmed form of a string of whitespace is empty.
pub proof fn lemma_trimmed_of_whitespace(s: Seq<char>)
    requires
        forall|j: int| 0 <= j < s.len() ==> is_whitespace(s[j]),
    ensures
        trimmed(s) == Seq::<char>::empty(),
{
    lemma_trim_start_at(s, s.len() as int);
}

/// The string that is left of `s` when leading and trailing whitespace is
/// removed.
pub fn trim(s: &str) -> (r: String)
    ensures
        r@ == trimmed(s@),
{
    let mut start: usize = 0;
    let mut end: usize = 0;
    let mut seen: bool = false;
    let mut i: usize = 0;
    let n: usize = s.unicode_len();
    for c in it: s.chars()
        invariant
            n == s@.len(),
            it.seq() == s@,
            i == it.index(),
            !seen ==> forall|j: int| 0 <= j < i ==> is_whitespace(s@[j]),
            seen ==> start < end <= i,
            seen ==> !is_whitespace(s@[start as int]) && !is_whitespace(s@[end - 1]),
            seen ==> forall|j: int| 0 <= j < start ==> is_whitespace(s@[j]),
            seen ==> forall|j: int| end <= j < i ==> is_whitespace(s@[j]),
    {
        if !c.is_whitespace() {
            if !seen {
                start = i;
                seen = true;
            }
            end = i + 1;
        }
        i = i + 1;
    }
    if seen {
        proof {
            lemma_trimmed_between(s@, start as int, end as int);
        }
        String::from_str(s.substring_char(start, end))
    } else {
        proof {
            lemma_trimmed_of_whitespace(s@);
        }
        String::new()
    }
}

} // verus!
