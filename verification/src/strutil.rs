//! Small verified string helpers shared across the crate: prefix and suffix
//! predicates, equality, concatenation, and slash-separated path splitting.

use vstd::prelude::*;

verus! {

/// `p` is a prefix of `s`.
pub open spec fn spec_starts_with(s: Seq<char>, p: Seq<char>) -> bool {
    s.len() >= p.len() && s.subrange(0, p.len() as int) == p
}

/// `p` is a suffix of `s`.
pub open spec fn spec_ends_with(s: Seq<char>, p: Seq<char>) -> bool {
    s.len() >= p.len() && s.subrange(s.len() - p.len(), s.len() as int) == p
}

/// Concatenate two string slices.
pub fn concat2(a: &str, b: &str) -> (r: String)
    ensures
        r@ == a@ + b@,
{
    let mut s = String::from_str(a);
    s.append(b);
    s
}

/// Character-wise string equality.
pub fn str_eq(a: &str, b: &str) -> (r: bool)
    ensures
        r == (a@ == b@),
{
    let alen = a.unicode_len();
    let blen = b.unicode_len();
    if alen != blen {
        return false;
    }
    let mut i: usize = 0;
    while i < alen
        invariant
            alen == a@.len(),
            blen == b@.len(),
            alen == blen,
            i <= alen,
            forall|j: int| 0 <= j < i ==> a@[j] == b@[j],
        decreases alen - i,
    {
        if a.get_char(i) != b.get_char(i) {
            return false;
        }
        i = i + 1;
    }
    proof {
        assert(a@ =~= b@);
    }
    true
}

/// Whether `s` starts with `p`.
pub fn starts_with(s: &str, p: &str) -> (r: bool)
    ensures
        r == spec_starts_with(s@, p@),
{
    let slen = s.unicode_len();
    let plen = p.unicode_len();
    if plen > slen {
        return false;
    }
    let mut i: usize = 0;
    while i < plen
        invariant
            slen == s@.len(),
            plen == p@.len(),
            plen <= slen,
            i <= plen,
            forall|j: int| 0 <= j < i ==> s@[j] == p@[j],
        decreases plen - i,
    {
        if s.get_char(i) != p.get_char(i) {
            proof {
                assert(s@.subrange(0, p@.len() as int)[i as int] == s@[i as int]);
            }
            return false;
        }
        i = i + 1;
    }
    proof {
        assert(s@.subrange(0, p@.len() as int) =~= p@);
    }
    true
}

/// Whether `s` ends with `p`.
pub fn ends_with(s: &str, p: &str) -> (r: bool)
    ensures
        r == spec_ends_with(s@, p@),
{
    let slen = s.unicode_len();
    let plen = p.unicode_len();
    if plen > slen {
        return false;
    }
    let off = slen - plen;
    let mut i: usize = 0;
    while i < plen
        invariant
            slen == s@.len(),
            plen == p@.len(),
            plen <= slen,
            off == slen - plen,
            i <= plen,
            forall|j: int| 0 <= j < i ==> s@[off + j] == p@[j],
        decreases plen - i,
    {
        if s.get_char(off + i) != p.get_char(i) {
            proof {
                assert(s@.subrange(s@.len() - p@.len(), s@.len() as int)[i as int] == s@[
                    off + i
                ]);
            }
            return false;
        }
        i = i + 1;
    }
    proof {
        assert(s@.subrange(s@.len() - p@.len(), s@.len() as int) =~= p@);
    }
    true
}

/// `p` occurs in `s` at position `i`.
pub open spec fn spec_matches_at(s: Seq<char>, i: int, p: Seq<char>) -> bool {
    0 <= i && i + p.len() <= s.len() && s.subrange(i, i + p.len()) == p
}

/// The first position at which `p` occurs in `s`, if any.
pub open spec fn spec_find_sub(s: Seq<char>, p: Seq<char>) -> Option<int>
    decreases s.len(),
{
    if s.len() < p.len() {
        None
    } else if p.len() == 0 {
        Some(0)
    } else if s.subrange(0, p.len() as int) == p {
        Some(0)
    } else {
        match spec_find_sub(s.skip(1), p) {
            Some(k) => Some(k + 1),
            None => None,
        }
    }
}

/// The first position of the character `c` in `s`, if any.
pub open spec fn spec_find_char(s: Seq<char>, c: char) -> Option<int>
    decreases s.len(),
{
    if s.len() == 0 {
        None
    } else if s[0] == c {
        Some(0)
    } else {
        match spec_find_char(s.skip(1), c) {
            Some(k) => Some(k + 1),
            None => None,
        }
    }
}

/// Whether `p` occurs in `s` at position `i`.
pub fn matches_at(s: &str, i: usize, p: &str) -> (r: bool)
    ensures
        r == spec_matches_at(s@, i as int, p@),
{
    let slen = s.unicode_len();
    let plen = p.unicode_len();
    if plen > slen || i > slen - plen {
        return false;
    }
    let mut j: usize = 0;
    while j < plen
        invariant
            slen == s@.len(),
            plen == p@.len(),
            i + plen <= slen,
            j <= plen,
            forall|k: int| 0 <= k < j ==> s@[i + k] == p@[k],
        decreases plen - j,
    {
        if s.get_char(i + j) != p.get_char(j) {
            proof {
                assert(s@.subrange(i as int, i + p@.len())[j as int] == s@[i + j]);
            }
            return false;
        }
        j = j + 1;
    }
    proof {
        assert(s@.subrange(i as int, i + p@.len()) =~= p@);
    }
    true
}

/// A step of `spec_find_sub`'s scan: when `p` does not occur at the front
/// of the suffix starting at `i`, the search result over the whole string
/// is unchanged by moving one character further.
proof fn lemma_find_sub_step(s: Seq<char>, p: Seq<char>, i: int)
    requires
        0 <= i < s.len(),
        !spec_matches_at(s, i, p),
    ensures
        shift_opt(spec_find_sub(s.skip(i), p), i) == shift_opt(spec_find_sub(s.skip(i + 1), p), i + 1),
{
    let suf = s.skip(i);
    if p.len() == 0 {
        assert(s.subrange(i, i) =~= p);
    }
    if suf.len() >= p.len() {
        assert(suf.subrange(0, p.len() as int) =~= s.subrange(i, i + p.len()));
        assert(suf.subrange(0, p.len() as int) != p);
        assert(suf.skip(1) =~= s.skip(i + 1));
    } else {
        assert(s.skip(i + 1).len() < p.len());
    }
}

/// Shift an optional index by `d`.
pub open spec fn shift_opt(o: Option<int>, d: int) -> Option<int> {
    match o {
        Some(k) => Some(k + d),
        None => None,
    }
}

/// Find the first occurrence of `p` in `s`.
pub fn find_sub(s: &str, p: &str) -> (r: Option<usize>)
    ensures
        match r {
            Some(i) => i + p@.len() <= s@.len() && spec_find_sub(s@, p@) == Some(i as int),
            None => spec_find_sub(s@, p@) is None,
        },
{
    let slen = s.unicode_len();
    let plen = p.unicode_len();
    let mut i: usize = 0;
    proof {
        assert(s@.skip(0) =~= s@);
    }
    while i < slen
        invariant
            slen == s@.len(),
            plen == p@.len(),
            i <= slen,
            spec_find_sub(s@, p@) == shift_opt(spec_find_sub(s@.skip(i as int), p@), i as int),
        decreases slen - i,
    {
        if matches_at(s, i, p) {
            proof {
                assert(s@.skip(i as int).subrange(0, p@.len() as int) =~= s@.subrange(
                    i as int,
                    i + p@.len(),
                ));
            }
            return Some(i);
        }
        proof {
            lemma_find_sub_step(s@, p@, i as int);
        }
        i = i + 1;
    }
    proof {
        assert(s@.skip(i as int).len() < p@.len() || p@.len() == 0);
        if p@.len() == 0 {
            assert(s@.skip(i as int).subrange(0, 0) =~= p@);
            assert(spec_find_sub(s@.skip(i as int), p@) == Some(0int));
        }
    }
    if plen == 0 {
        return Some(slen);
    }
    None
}

/// Find the first occurrence of the character `c` in `s`.
pub fn find_char(s: &str, c: char) -> (r: Option<usize>)
    ensures
        match r {
            Some(i) => i < s@.len() && spec_find_char(s@, c) == Some(i as int),
            None => spec_find_char(s@, c) is None,
        },
{
    let slen = s.unicode_len();
    let mut i: usize = 0;
    proof {
        assert(s@.skip(0) =~= s@);
    }
    while i < slen
        invariant
            slen == s@.len(),
            i <= slen,
            spec_find_char(s@, c) == shift_opt(spec_find_char(s@.skip(i as int), c), i as int),
        decreases slen - i,
    {
        if s.get_char(i) == c {
            return Some(i);
        }
        proof {
            assert(s@.skip(i as int).skip(1) =~= s@.skip(i + 1));
        }
        i = i + 1;
    }
    None
}

/// Take the first `n` characters of `s` as an owned string.
pub fn take_prefix(s: &str, n: usize) -> (r: String)
    requires
        n <= s@.len(),
    ensures
        r@ == s@.subrange(0, n as int),
{
    String::from_str(s.substring_char(0, n))
}

/// Drop the first `n` characters of `s`, keeping the rest as an owned
/// string.
pub fn drop_prefix(s: &str, n: usize) -> (r: String)
    requires
        n <= s@.len(),
    ensures
        r@ == s@.skip(n as int),
{
    let len = s.unicode_len();
    let r = String::from_str(s.substring_char(n, len));
    proof {
        assert(s@.subrange(n as int, s@.len() as int) =~= s@.skip(n as int));
    }
    r
}

/// `s` with every occurrence of `pat` replaced by `to`, scanning left to
/// right without overlap; an empty pattern replaces nothing.
pub open spec fn spec_replace(s: Seq<char>, pat: Seq<char>, to: Seq<char>) -> Seq<char>
    decreases s.len(),
{
    if pat.len() == 0 {
        s
    } else if s.len() < pat.len() {
        s
    } else if s.subrange(0, pat.len() as int) == pat {
        to + spec_replace(s.skip(pat.len() as int), pat, to)
    } else {
        seq![s[0]] + spec_replace(s.skip(1), pat, to)
    }
}

/// Replace every occurrence of `pat` in `s` by `to`, as `spec_replace`
/// describes.
pub fn replace_all(s: &str, pat: &str, to: &str) -> (r: String)
    requires
        pat@.len() > 0,
    ensures
        r@ == spec_replace(s@, pat@, to@),
{
    let slen = s.unicode_len();
    let plen = pat.unicode_len();
    let mut out = String::new();
    let mut i: usize = 0;
    proof {
        assert(s@.skip(0) =~= s@);
    }
    while i < slen
        invariant
            slen == s@.len(),
            plen == pat@.len(),
            plen > 0,
            i <= slen,
            out@ + spec_replace(s@.skip(i as int), pat@, to@) == spec_replace(s@, pat@, to@),
        decreases slen - i,
    {
        let ghost old_out = out@;
        let ghost old_i = i as int;
        if matches_at(s, i, pat) {
            proof {
                let suf = s@.skip(i as int);
                assert(suf.subrange(0, pat@.len() as int) =~= s@.subrange(i as int, i + pat@.len()));
                assert(suf.skip(pat@.len() as int) =~= s@.skip(i + plen));
            }
            out.append(to);
            i = i + plen;
            proof {
                assert((old_out + to@) + spec_replace(s@.skip(i as int), pat@, to@) =~= old_out + (
                to@ + spec_replace(s@.skip(i as int), pat@, to@)));
            }
        } else {
            proof {
                let suf = s@.skip(i as int);
                if suf.len() >= pat@.len() {
                    assert(suf.subrange(0, pat@.len() as int) =~= s@.subrange(
                        i as int,
                        i + pat@.len(),
                    ));
                }
                assert(suf =~= seq![s@[i as int]] + s@.skip(i + 1));
                assert(suf[0] == s@[i as int]);
                assert(suf.skip(1) =~= s@.skip(i + 1));
                if suf.len() < pat@.len() {
                    assert(s@.skip(i + 1).len() < pat@.len());
                }
                assert(s@.subrange(i as int, i + 1) =~= seq![s@[i as int]]);
            }
            out.append(s.substring_char(i, i + 1));
            i = i + 1;
            proof {
                assert((old_out + s@.subrange(old_i, old_i + 1)) + spec_replace(
                    s@.skip(i as int),
                    pat@,
                    to@,
                ) =~= old_out + (seq![s@[old_i]] + spec_replace(s@.skip(i as int), pat@, to@)));
            }
        }
    }
    proof {
        assert(s@.skip(i as int).len() == 0);
        assert(out@ =~= out@ + spec_replace(s@.skip(i as int), pat@, to@));
    }
    out
}

/// The index of the last occurrence of the character `c` in `s`, if any.
pub open spec fn spec_rfind_char(s: Seq<char>, c: char) -> Option<int>
    decreases s.len(),
{
    if s.len() == 0 {
        None
    } else if s.last() == c {
        Some(s.len() - 1)
    } else {
        spec_rfind_char(s.drop_last(), c)
    }
}

/// Find the last occurrence of the character `c` in `s`.
pub fn rfind_char(s: &str, c: char) -> (r: Option<usize>)
    ensures
        match r {
            Some(i) => i < s@.len() && spec_rfind_char(s@, c) == Some(i as int),
            None => spec_rfind_char(s@, c) is None,
        },
{
    let len = s.unicode_len();
    let mut i: usize = len;
    proof {
        assert(s@.subrange(0, len as int) =~= s@);
    }
    while i > 0
        invariant
            len == s@.len(),
            i <= len,
            spec_rfind_char(s@, c) == spec_rfind_char(s@.subrange(0, i as int), c),
        decreases i,
    {
        proof {
            let cur = s@.subrange(0, i as int);
            assert(cur.drop_last() =~= s@.subrange(0, i - 1));
            assert(cur.last() == s@[i - 1]);
        }
        if s.get_char(i - 1) == c {
            return Some(i - 1);
        }
        i = i - 1;
    }
    proof {
        assert(s@.subrange(0, 0) =~= Seq::<char>::empty());
    }
    None
}

/// The index of the last `/` in `s`, if any.
pub open spec fn spec_last_slash(s: Seq<char>) -> Option<int>
    decreases s.len(),
{
    if s.len() == 0 {
        None
    } else if s.last() == '/' {
        Some(s.len() - 1)
    } else {
        spec_last_slash(s.drop_last())
    }
}

/// The parent directory of a `/`-separated path: everything before the last
/// slash. A path without a slash has no parent to create, and neither has a
/// path whose only slash is its leading one.
pub open spec fn spec_parent_dir(s: Seq<char>) -> Option<Seq<char>> {
    match spec_last_slash(s) {
        None => None,
        Some(k) => if k == 0 {
            None
        } else {
            Some(s.subrange(0, k))
        },
    }
}

/// Compute the parent directory of a `/`-separated path.
pub fn parent_dir(s: &str) -> (r: Option<String>)
    ensures
        match r {
            None => spec_parent_dir(s@) is None,
            Some(p) => spec_parent_dir(s@) == Some(p@),
        },
{
    let len = s.unicode_len();
    let mut i: usize = len;
    proof {
        assert(s@.subrange(0, len as int) =~= s@);
    }
    while i > 0
        invariant
            len == s@.len(),
            i <= len,
            spec_last_slash(s@) == spec_last_slash(s@.subrange(0, i as int)),
        decreases i,
    {
        proof {
            let cur = s@.subrange(0, i as int);
            assert(cur.drop_last() =~= s@.subrange(0, i - 1));
            assert(cur.last() == s@[i - 1]);
        }
        if s.get_char(i - 1) == '/' {
            if i - 1 == 0 {
                return None;
            }
            let p = s.substring_char(0, i - 1);
            return Some(String::from_str(p));
        }
        i = i - 1;
    }
    proof {
        assert(s@.subrange(0, 0) =~= Seq::<char>::empty());
    }
    None
}

} // verus!
