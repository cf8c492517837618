//! Character-level text utilities shared by the localisation code:
//! Unicode white-space trimming, ASCII case-insensitive comparison,
//! splitting at separator characters and placeholder substitution.
use vstd::prelude::*;
use vstd::string::*;

verus! {

/// The Unicode `White_Space` property, as `char::is_whitespace` tests it.
pub open spec fn is_white_space(c: char) -> bool {
    let u = c as u32;
    ||| 0x9 <= u <= 0xd
    ||| u == 0x20
    ||| u == 0x85
    ||| u == 0xa0
    ||| u == 0x1680
    ||| 0x2000 <= u <= 0x200a
    ||| u == 0x2028
    ||| u == 0x2029
    ||| u == 0x202f
    ||| u == 0x205f
    ||| u == 0x3000
}

/// `s` without its leading white space.
pub open spec fn trim_start(s: Seq<char>) -> Seq<char>
    decreases s.len(),
{
    if s.len() > 0 && is_white_space(s[0]) {
        trim_start(s.drop_first())
    } else {
        s
    }
}

/// `s` without its trailing white space.
pub open spec fn trim_end(s: Seq<char>) -> Seq<char>
    decreases s.len(),
{
    if s.len() > 0 && is_white_space(s.last()) {
        trim_end(s.drop_last())
    } else {
        s
    }
}

/// `s` without leading and trailing white space (`str::trim`).
pub open spec fn trim(s: Seq<char>) -> Seq<char> {
    trim_end(trim_start(s))
}

/// ASCII upper-case letters mapped to lower case; every other character unchanged.
pub open spec fn ascii_lower(c: char) -> char {
    if 'A' <= c && c <= 'Z' {
        ((c as u32) + 32) as char
    } else {
        c
    }
}

/// Equality up to ASCII case (`str::eq_ignore_ascii_case`).
pub open spec fn eq_ignore_ascii_case(a: Seq<char>, b: Seq<char>) -> bool {
    &&& a.len() == b.len()
    &&& forall|i: int| 0 <= i < a.len() ==> #[trigger] ascii_lower(a[i]) == ascii_lower(b[i])
}

/// The state of a left-to-right split of `s` at the characters of `seps`:
/// the pieces already closed by a separator, and the piece still open.
pub open spec fn split_scan(s: Seq<char>, seps: Seq<char>) -> (Seq<Seq<char>>, Seq<char>)
    decreases s.len(),
{
    if s.len() == 0 {
        (Seq::empty(), Seq::empty())
    } else {
        let (done, cur) = split_scan(s.drop_last(), seps);
        if seps.contains(s.last()) {
            (done.push(cur), Seq::empty())
        } else {
            (done, cur.push(s.last()))
        }
    }
}

/// The pieces of `s` between separators, empty ones included (`str::split`).
pub open spec fn split_pieces(s: Seq<char>, seps: Seq<char>) -> Seq<Seq<char>> {
    let (done, cur) = split_scan(s, seps);
    done.push(cur)
}

/// Replaces every non-overlapping occurrence of `pat` in `s`, scanning from
/// the left, by `rep` (`str::replace` with a non-empty pattern).
pub open spec fn replace_all(s: Seq<char>, pat: Seq<char>, rep: Seq<char>) -> Seq<char>
    decreases s.len(),
{
    if pat.len() == 0 || s.len() < pat.len() {
        s
    } else if s.take(pat.len() as int) == pat {
        rep + replace_all(s.skip(pat.len() as int), pat, rep)
    } else {
        seq![s[0]] + replace_all(s.drop_first(), pat, rep)
    }
}

/// Tests the Unicode `White_Space` property.
pub fn is_whitespace_char(c: char) -> (r: bool)
    ensures
        r == is_white_space(c),
{
    let u = c as u32;
    (0x9 <= u && u <= 0xd) || u == 0x20 || u == 0x85 || u == 0xa0 || u == 0x1680 || (0x2000 <= u
        && u <= 0x200a) || u == 0x2028 || u == 0x2029 || u == 0x202f || u == 0x205f || u == 0x3000
}

/// Maps ASCII upper-case letters to lower case.
pub fn to_ascii_lower(c: char) -> (r: char)
    ensures
        r == ascii_lower(c),
{
    if 'A' <= c && c <= 'Z' {
        let b: u8 = c as u8;
        (b + 32) as char
    } else {
        c
    }
}

/// The characters of `s`, in order.
pub fn chars_of(s: &str) -> (v: Vec<char>)
    ensures
        v@ == s@,
{
    let n = s.unicode_len();
    let mut v: Vec<char> = Vec::new();
    let mut i: usize = 0;
    while i < n
        invariant
            n == s@.len(),
            i <= n,
            v@ == s@.take(i as int),
        decreases n - i,
    {
        let c = s.get_char(i);
        v.push(c);
        assert(s@.take(i as int).push(c) =~= s@.take(i + 1));
        i = i + 1;
    }
    assert(s@.take(n as int) =~= s@);
    v
}

/// Builds a `String` holding the characters of `v` (`String::from_iter`).
#[verifier::external_body]
pub(crate) fn string_from_chars(v: &Vec<char>) -> (s: String)
    ensures
        s@ == v@,
{
    String::from_iter(v.iter())
}

/// Equality of `a[lo..hi]` with `pat` up to ASCII case.
pub fn range_eq_ignore_ascii_case(a: &Vec<char>, lo: usize, hi: usize, pat: &Vec<char>) -> (r:
    bool)
    requires
        lo <= hi <= a@.len(),
    ensures
        r == eq_ignore_ascii_case(a@.subrange(lo as int, hi as int), pat@),
{
    if hi - lo != pat.len() {
        return false;
    }
    let mut i: usize = 0;
    while i < pat.len()
        invariant
            lo <= hi <= a@.len(),
            hi - lo == pat@.len(),
            i <= pat@.len(),
            forall|j: int| 0 <= j < i ==> ascii_lower(a@[lo + j]) == ascii_lower(pat@[j]),
        decreases pat@.len() - i,
    {
        if to_ascii_lower(a[lo + i]) != to_ascii_lower(pat[i]) {
            assert(ascii_lower(a@.subrange(lo as int, hi as int)[i as int]) != ascii_lower(
                pat@[i as int],
            ));
            return false;
        }
        i = i + 1;
    }
    assert forall|j: int| 0 <= j < pat@.len() implies #[trigger] ascii_lower(
        a@.subrange(lo as int, hi as int)[j],
    ) == ascii_lower(pat@[j]) by {
        assert(a@.subrange(lo as int, hi as int)[j] == a@[lo + j]);
    }
    true
}

/// Exact equality of `a[lo..hi]` with `pat`.
pub fn range_eq(a: &Vec<char>, lo: usize, hi: usize, pat: &Vec<char>) -> (r: bool)
    requires
        lo <= hi <= a@.len(),
    ensures
        r == (a@.subrange(lo as int, hi as int) == pat@),
{
    if hi - lo != pat.len() {
        return false;
    }
    let mut i: usize = 0;
    while i < pat.len()
        invariant
            lo <= hi <= a@.len(),
            hi - lo == pat@.len(),
            i <= pat@.len(),
            forall|j: int| 0 <= j < i ==> a@[lo + j] == pat@[j],
        decreases pat@.len() - i,
    {
        if a[lo + i] != pat[i] {
            assert(a@.subrange(lo as int, hi as int)[i as int] != pat@[i as int]);
            return false;
        }
        i = i + 1;
    }
    assert(a@.subrange(lo as int, hi as int) =~= pat@);
    true
}

/// The bounds of `a[lo..hi]` once leading and trailing white space is removed.
pub fn trim_range(a: &Vec<char>, lo: usize, hi: usize) -> (r: (usize, usize))
    requires
        lo <= hi <= a@.len(),
    ensures
        lo <= r.0 <= r.1 <= hi,
        a@.subrange(r.0 as int, r.1 as int) == trim(a@.subrange(lo as int, hi as int)),
{
    let mut i = lo;
    while i < hi && is_whitespace_char(a[i])
        invariant
            lo <= i <= hi <= a@.len(),
            trim_start(a@.subrange(lo as int, hi as int)) == trim_start(
                a@.subrange(i as int, hi as int),
            ),
        decreases hi - i,
    {
        assert(a@.subrange(i as int, hi as int).drop_first() =~= a@.subrange(i + 1, hi as int));
        i = i + 1;
    }
    let mut j = hi;
    while j > i && is_whitespace_char(a[j - 1])
        invariant
            lo <= i <= j <= hi <= a@.len(),
            trim_end(a@.subrange(i as int, hi as int)) == trim_end(a@.subrange(i as int, j as int)),
        decreases j - i,
    {
        assert(a@.subrange(i as int, j as int).drop_last() =~= a@.subrange(i as int, j - 1));
        j = j - 1;
    }
    (i, j)
}

/// Replaces every non-overlapping occurrence of `pat` in `s`, scanning from the left.
pub fn replace_chars(s: &Vec<char>, pat: &Vec<char>, rep: &Vec<char>) -> (out: Vec<char>)
    requires
        pat@.len() > 0,
    ensures
        out@ == replace_all(s@, pat@, rep@),
{
    let mut out: Vec<char> = Vec::new();
    let mut i: usize = 0;
    let n = s.len();
    let m = pat.len();
    assert(s@.skip(0) =~= s@);
    assert(out@ + replace_all(s@, pat@, rep@) =~= replace_all(s@, pat@, rep@));
    while i < n
        invariant
            n == s@.len(),
            m == pat@.len(),
            m > 0,
            i <= n,
            replace_all(s@, pat@, rep@) == out@ + replace_all(s@.skip(i as int), pat@, rep@),
        decreases n - i,
    {
        let ghost rest = s@.skip(i as int);
        if n - i >= m && range_eq(s, i, i + m, pat) {
            assert(rest.take(m as int) =~= s@.subrange(i as int, i + m));
            assert(rest.skip(m as int) =~= s@.skip(i + m));
            let mut k: usize = 0;
            let ghost before = out@;
            while k < rep.len()
                invariant
                    k <= rep@.len(),
                    out@ == before + rep@.take(k as int),
                decreases rep@.len() - k,
            {
                out.push(rep[k]);
                assert(before + rep@.take(k as int).push(rep@[k as int]) =~= before + rep@.take(
                    k + 1,
                ));
                k = k + 1;
            }
            assert(rep@.take(rep@.len() as int) =~= rep@);
            assert(before + (rep@ + replace_all(s@.skip(i + m), pat@, rep@)) =~= (before + rep@)
                + replace_all(s@.skip(i + m), pat@, rep@));
            i = i + m;
        } else {
            if n - i >= m {
                assert(rest.take(m as int) =~= s@.subrange(i as int, i + m));
            }
            assert(rest.drop_first() =~= s@.skip(i + 1));
            let ghost before = out@;
            out.push(s[i]);
            assert(before + (seq![s@[i as int]] + replace_all(s@.skip(i + 1), pat@, rep@)) =~= (
            before.push(s@[i as int])) + replace_all(s@.skip(i + 1), pat@, rep@));
            i = i + 1;
        }
    }
    assert(s@.skip(n as int) =~= Seq::<char>::empty());
    assert(out@ + Seq::<char>::empty() =~= out@);
    out
}

} // verus!
