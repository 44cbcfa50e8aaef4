//! Character and string primitives used by the classifier: whitespace,
//! trimming, prefix and substring tests, and word counting, each specified
//! over the `Seq<char>` view of a `&str`.

use vstd::prelude::*;
use vstd::string::StrSliceExecFns;

verus! {

/// A character with the Unicode `White_Space` property: the set that
/// `str::trim` strips and that separates words.
pub open spec fn is_ws(c: char) -> bool {
    let u = c as u32;
    (0x9 <= u && u <= 0xD) || u == 0x20 || u == 0x85 || u == 0xA0 || u == 0x1680 || (0x2000 <= u
        && u <= 0x200A) || u == 0x2028 || u == 0x2029 || u == 0x202F || u == 0x205F || u == 0x3000
}

/// Decide `is_ws` for one character.
pub fn is_ws_char(c: char) -> (r: bool)
    ensures
        r == is_ws(c),
{
    let u = c as u32;
    (0x9 <= u && u <= 0xD) || u == 0x20 || u == 0x85 || u == 0xA0 || u == 0x1680 || (0x2000 <= u
        && u <= 0x200A) || u == 0x2028 || u == 0x2029 || u == 0x202F || u == 0x205F || u == 0x3000
}

/// The characters of a string slice, in order.
pub fn chars_of(s: &str) -> (r: Vec<char>)
    ensures
        r@ == s@,
{
    let n: usize = s.unicode_len();
    let mut r: Vec<char> = Vec::new();
    let mut i: usize = 0;
    while i < n
        invariant
            i <= n,
            n == s@.len(),
            r@ == s@.take(i as int),
        decreases n - i,
    {
        r.push(s.get_char(i));
        proof {
            assert(s@.take(i + 1) =~= s@.take(i as int).push(s@[i as int]));
        }
        i = i + 1;
    }
    proof {
        assert(s@.take(n as int) =~= s@);
    }
    r
}

/// String equality, decided character by character.
pub fn str_eq(a: &str, b: &str) -> (r: bool)
    ensures
        r == (a@ == b@),
{
    let na: usize = a.unicode_len();
    let nb: usize = b.unicode_len();
    if na != nb {
        return false;
    }
    let mut i: usize = 0;
    while i < na
        invariant
            i <= na,
            na == a@.len(),
            na == b@.len(),
            forall|j: int| 0 <= j < i ==> a@[j] == b@[j],
        decreases na - i,
    {
        if a.get_char(i) != b.get_char(i) {
            return false;
        }
        i = i + 1;
    }
    proof {
        assert(a@ =~= b@);
    }
    true
}

/// Whether the characters of `v` spell exactly the string `s`.
pub fn chars_eq_str(v: &Vec<char>, s: &str) -> (r: bool)
    ensures
        r == (v@ == s@),
{
    let n: usize = s.unicode_len();
    if v.len() != n {
        return false;
    }
    let mut i: usize = 0;
    while i < n
        invariant
            i <= n,
            n == v@.len(),
            n == s@.len(),
            forall|j: int| 0 <= j < i ==> v@[j] == s@[j],
        decreases n - i,
    {
        if v[i] != s.get_char(i) {
            return false;
        }
        i = i + 1;
    }
    proof {
        assert(v@ =~= s@);
    }
    true
}

/// `line` begins with the marker `p` (a literal prefix, not a substring test).
pub fn str_starts_with(s: &str, p: &str) -> (r: bool)
    ensures
        r == p@.is_prefix_of(s@),
{
    let ns: usize = s.unicode_len();
    let np: usize = p.unicode_len();
    if np > ns {
        return false;
    }
    let mut i: usize = 0;
    while i < np
        invariant
            i <= np,
            np <= ns,
            ns == s@.len(),
            np == p@.len(),
            forall|j: int| 0 <= j < i ==> p@[j] == s@[j],
        decreases np - i,
    {
        if p.get_char(i) != s.get_char(i) {
            assert(p@[i as int] != s@.subrange(0, np as int)[i as int]);
            return false;
        }
        i = i + 1;
    }
    proof {
        assert(p@ =~= s@.subrange(0, np as int));
    }
    true
}

/// `needle` occurs somewhere inside `hay` as a contiguous run.
pub open spec fn seq_contains(hay: Seq<char>, needle: Seq<char>) -> bool {
    exists|k: int|
        0 <= k <= hay.len() - needle.len() && #[trigger] hay.subrange(k, k + needle.len() as int)
            == needle
}

/// `p` occurs somewhere inside `s` (a substring test).
pub fn str_contains(s: &str, p: &str) -> (r: bool)
    ensures
        r == seq_contains(s@, p@),
{
    let cs = chars_of(s);
    let cp = chars_of(p);
    let ns: usize = cs.len();
    let np: usize = cp.len();
    if np > ns {
        return false;
    }
    if np == 0 {
        proof {
            assert(s@.subrange(0, 0 + p@.len() as int) =~= p@);
        }
        return true;
    }
    let mut k: usize = 0;
    while k <= ns - np
        invariant
            0 < np <= ns,
            ns == s@.len(),
            np == p@.len(),
            cs@ == s@,
            cp@ == p@,
            k <= ns - np + 1,
            forall|k0: int|
                0 <= k0 < k ==> #[trigger] s@.subrange(k0, k0 + np as int) != p@,
        decreases ns - np + 1 - k,
    {
        let mut j: usize = 0;
        let mut hit: bool = true;
        while j < np
            invariant
                j <= np,
                k + np <= ns,
                ns == s@.len(),
                np == p@.len(),
                cs@ == s@,
                cp@ == p@,
                hit ==> forall|j0: int| 0 <= j0 < j ==> s@[k + j0] == p@[j0],
                !hit ==> s@.subrange(k as int, k + np as int) != p@,
            decreases np - j,
        {
            if cs[k + j] != cp[j] {
                proof {
                    assert(s@.subrange(k as int, k + np as int)[j as int] == s@[k + j]);
                }
                hit = false;
            }
            j = j + 1;
        }
        if hit {
            proof {
                assert(s@.subrange(k as int, k + np as int) =~= p@);
            }
            return true;
        }
        k = k + 1;
    }
    false
}

/// `s` with its leading whitespace removed.
pub open spec fn trim_front(s: Seq<char>) -> Seq<char>
    decreases s.len(),
{
    if s.len() > 0 && is_ws(s[0]) {
        trim_front(s.drop_first())
    } else {
        s
    }
}

/// `s` with its trailing whitespace removed.
pub open spec fn trim_back(s: Seq<char>) -> Seq<char>
    decreases s.len(),
{
    if s.len() > 0 && is_ws(s.last()) {
        trim_back(s.drop_last())
    } else {
        s
    }
}

/// `s` with surrounding whitespace removed, as `str::trim` leaves it.
pub open spec fn spec_trim(s: Seq<char>) -> Seq<char> {
    trim_back(trim_front(s))
}

/// The trimmed form of `s`: surrounding whitespace stripped.
pub fn trim_str<'a>(s: &'a str) -> (r: &'a str)
    ensures
        r@ == spec_trim(s@),
{
    let cs = chars_of(s);
    let n: usize = cs.len();
    proof {
        assert(s@.skip(0) =~= s@);
    }
    let mut i: usize = 0;
    while i < n && is_ws_char(cs[i])
        invariant
            i <= n,
            n == s@.len(),
            cs@ == s@,
            trim_front(s@) == trim_front(s@.skip(i as int)),
        decreases n - i,
    {
        proof {
            assert(s@.skip(i as int).drop_first() =~= s@.skip(i + 1));
        }
        i = i + 1;
    }
    proof {
        assert(trim_front(s@) == s@.skip(i as int)) by {
            if i < n {
                assert(s@.skip(i as int)[0] == s@[i as int]);
            }
        }
        assert(s@.skip(i as int) =~= s@.subrange(i as int, n as int));
    }
    let mut j: usize = n;
    while j > i && is_ws_char(cs[j - 1])
        invariant
            i <= j <= n,
            n == s@.len(),
            cs@ == s@,
            trim_front(s@) == s@.subrange(i as int, n as int),
            trim_back(s@.subrange(i as int, n as int)) == trim_back(
                s@.subrange(i as int, j as int),
            ),
        decreases j,
    {
        proof {
            let t = s@.subrange(i as int, j as int);
            assert(t.last() == s@[j - 1]);
            assert(t.drop_last() =~= s@.subrange(i as int, j - 1));
        }
        j = j - 1;
    }
    proof {
        let t = s@.subrange(i as int, j as int);
        assert(trim_back(t) == t) by {
            if j > i {
                assert(t.last() == s@[j - 1]);
            }
        }
    }
    s.substring_char(i, j)
}

/// The number of words remaining in `s`, where `prev_ws` says whether the
/// character just before `s` was whitespace (or `s` starts the line).
pub open spec fn wc_from(s: Seq<char>, prev_ws: bool) -> nat
    decreases s.len(),
{
    if s.len() == 0 {
        0
    } else {
        (if !is_ws(s[0]) && prev_ws {
            1nat
        } else {
            0nat
        }) + wc_from(s.drop_first(), is_ws(s[0]))
    }
}

/// The number of whitespace-delimited words in `s`, as
/// `str::split_whitespace` would yield them.
pub open spec fn spec_word_count(s: Seq<char>) -> nat {
    wc_from(s, true)
}

pub proof fn lemma_wc_le_len(s: Seq<char>, prev_ws: bool)
    ensures
        wc_from(s, prev_ws) <= s.len(),
    decreases s.len(),
{
    if s.len() > 0 {
        lemma_wc_le_len(s.drop_first(), is_ws(s[0]));
    }
}

/// Count the whitespace-delimited words in `s`.
pub fn count_words(s: &str) -> (r: usize)
    ensures
        r == spec_word_count(s@),
{
    let cs = chars_of(s);
    let n: usize = cs.len();
    proof {
        assert(s@.skip(0) =~= s@);
    }
    let mut count: usize = 0;
    let mut prev_ws: bool = true;
    let mut i: usize = 0;
    while i < n
        invariant
            i <= n,
            n == s@.len(),
            cs@ == s@,
            count <= i,
            spec_word_count(s@) == count + wc_from(s@.skip(i as int), prev_ws),
        decreases n - i,
    {
        let c = cs[i];
        proof {
            assert(s@.skip(i as int)[0] == s@[i as int]);
            assert(s@.skip(i as int).drop_first() =~= s@.skip(i + 1));
        }
        if is_ws_char(c) {
            prev_ws = true;
        } else {
            if prev_ws {
                count = count + 1;
            }
            prev_ws = false;
        }
        i = i + 1;
    }
    count
}

} // verus!
