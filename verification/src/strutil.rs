//! Character-level string utilities for the localization tables: prefix
//! tests, equality, splitting, and normalization of locale tags.
use vstd::prelude::*;

verus! {

/// `s` begins with `p`.
pub open spec fn seq_starts_with(s: Seq<char>, p: Seq<char>) -> bool {
    p.len() <= s.len() && s.subrange(0, p.len() as int) == p
}

/// Tests whether `s` begins with the prefix `p`.
pub fn starts_with(s: &str, p: &str) -> (r: bool)
    ensures
        r == seq_starts_with(s@, p@),
{
    let sl = s.unicode_len();
    let pl = p.unicode_len();
    if pl > sl {
        return false;
    }
    let mut i: usize = 0;
    while i < pl
        invariant
            i <= pl,
            pl <= sl,
            pl == p@.len(),
            sl == s@.len(),
            forall|j: int| 0 <= j < i ==> s@[j] == p@[j],
        decreases pl - i,
    {
        if s.get_char(i) != p.get_char(i) {
            proof {
                assert(s@.subrange(0, pl as int)[i as int] == s@[i as int]);
            }
            return false;
        }
        i = i + 1;
    }
    proof {
        assert(s@.subrange(0, pl as int) =~= p@);
    }
    true
}

/// Tests two strings for character-for-character equality.
pub fn str_eq(a: &str, b: &str) -> (r: bool)
    ensures
        r == (a@ == b@),
{
    let al = a.unicode_len();
    if al != b.unicode_len() {
        return false;
    }
    let mut i: usize = 0;
    while i < al
        invariant
            i <= al,
            al == a@.len(),
            al == b@.len(),
            forall|j: int| 0 <= j < i ==> a@[j] == b@[j],
        decreases al - i,
    {
        if a.get_char(i) != b.get_char(i) {
            return false;
        }
        i = i + 1;
    }
    proof {
        assert(a@ =~= b@);
    }
    true
}

/// Strips the prefix `p` from `s`: the rest of `s` when it begins with `p`,
/// `None` otherwise.
pub fn strip_prefix_str<'a>(s: &'a str, p: &str) -> (r: Option<&'a str>)
    ensures
        r is Some <==> seq_starts_with(s@, p@),
        r matches Some(t) ==> t@ == s@.subrange(p@.len() as int, s@.len() as int),
{
    if starts_with(s, p) {
        Some(s.substring_char(p.unicode_len(), s.unicode_len()))
    } else {
        None
    }
}

/// A colon-space separator stands at index `i` of `s`.
pub open spec fn is_sep_at(s: Seq<char>, i: int) -> bool {
    0 <= i && i + 2 <= s.len() && s[i] == ':' && s[i + 1] == ' '
}

/// `s` contains a colon-space separator.
pub open spec fn has_sep(s: Seq<char>) -> bool {
    exists|i: int| is_sep_at(s, i)
}

/// Splits `s` at the first colon-space separator, excluding the separator
/// itself; `None` when there is no separator.
pub fn split_once_sep<'a>(s: &'a str) -> (r: Option<(&'a str, &'a str)>)
    ensures
        r is Some <==> has_sep(s@),
        r matches Some((a, b)) ==> {
            let i = a@.len() as int;
            &&& is_sep_at(s@, i)
            &&& forall|j: int| 0 <= j < i ==> !is_sep_at(s@, j)
            &&& a@ == s@.subrange(0, i)
            &&& b@ == s@.subrange(i + 2, s@.len() as int)
        },
{
    let n = s.unicode_len();
    if n < 2 {
        return None;
    }
    let mut i: usize = 0;
    while i <= n - 2
        invariant
            n == s@.len(),
            n >= 2,
            i <= n - 1,
            forall|j: int| 0 <= j < i ==> !is_sep_at(s@, j),
        decreases n - i,
    {
        if s.get_char(i) == ':' && s.get_char(i + 1) == ' ' {
            let a = s.substring_char(0, i);
            let b = s.substring_char(i + 2, n);
            proof {
                assert(is_sep_at(s@, i as int));
            }
            return Some((a, b));
        }
        i = i + 1;
    }
    proof {
        assert forall|j: int| !is_sep_at(s@, j) by {
            if 0 <= j && j + 2 <= s@.len() {
                assert(j < i);
            }
        }
    }
    None
}

/// The index of the first colon-space separator in `s`.
pub open spec fn first_sep_index(s: Seq<char>) -> int
    recommends
        has_sep(s),
{
    choose|i: int| is_sep_at(s, i) && (forall|j: int| 0 <= j < i ==> !is_sep_at(s, j))
}

/// A separator with none before it is the first: it pins down
/// [`first_sep_index`].
pub proof fn lemma_first_sep_unique(s: Seq<char>, i: int)
    requires
        is_sep_at(s, i),
        forall|j: int| 0 <= j < i ==> !is_sep_at(s, j),
    ensures
        first_sep_index(s) == i,
{
    assert(is_sep_at(s, i) && (forall|j: int| 0 <= j < i ==> !is_sep_at(s, j)));
    let k = first_sep_index(s);
    assert(is_sep_at(s, k) && (forall|j: int| 0 <= j < k ==> !is_sep_at(s, j)));
    if k < i {
        assert(!is_sep_at(s, k));
    } else if i < k {
        assert(!is_sep_at(s, i));
    }
}

/// The text before the first separator.
pub open spec fn sep_head(s: Seq<char>) -> Seq<char> {
    s.subrange(0, first_sep_index(s))
}

/// The text after the first separator.
pub open spec fn sep_tail(s: Seq<char>) -> Seq<char> {
    s.subrange(first_sep_index(s) + 2, s.len() as int)
}

/// What `str::to_lowercase` returns for a given character sequence; the
/// result depends on the characters alone.
pub uninterp spec fn lower_of(s: Seq<char>) -> Seq<char>;

/// Lowercases a string.
///
/// Relies on `str::to_lowercase`: the Unicode-defined lowercase mapping of
/// the input, a function of the input characters alone.
#[verifier::external_body]
pub fn lowercase(s: &str) -> (r: String)
    ensures
        r@ == lower_of(s@),
{
    s.to_lowercase()
}

/// What `str::trim` returns for a given character sequence; the result
/// depends on the characters alone.
pub uninterp spec fn trim_of(s: Seq<char>) -> Seq<char>;

/// Trims leading and trailing whitespace.
///
/// Relies on `str::trim`: the input without leading and trailing Unicode
/// whitespace, a function of the input characters alone.
#[verifier::external_body]
pub fn trim<'a>(s: &'a str) -> (r: &'a str)
    ensures
        r@ == trim_of(s@),
{
    s.trim()
}

} // verus!
