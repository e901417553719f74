//! Text utilities the backend's parsing rests on: suffix and prefix
//! tests, equality, line splitting, trimming, and pattern removal, each
//! specified against a sequence-of-characters model.

use vstd::prelude::*;
use vstd::string::StrSliceExecFns;
use vstd::string::StringExecFns;

verus! {

/// The characters `str::trim` removes: Unicode whitespace.
pub open spec fn is_ws_char(c: char) -> bool {
    ||| c == ' '
    ||| c == '\t'
    ||| c == '\n'
    ||| c == '\r'
    ||| c == '\u{B}'
    ||| c == '\u{C}'
    ||| c == '\u{85}'
    ||| c == '\u{A0}'
    ||| c == '\u{1680}'
    ||| c == '\u{2000}'
    ||| c == '\u{2001}'
    ||| c == '\u{2002}'
    ||| c == '\u{2003}'
    ||| c == '\u{2004}'
    ||| c == '\u{2005}'
    ||| c == '\u{2006}'
    ||| c == '\u{2007}'
    ||| c == '\u{2008}'
    ||| c == '\u{2009}'
    ||| c == '\u{200A}'
    ||| c == '\u{2028}'
    ||| c == '\u{2029}'
    ||| c == '\u{202F}'
    ||| c == '\u{205F}'
    ||| c == '\u{3000}'
}

/// Whether `c` counts as whitespace for trimming.
pub fn is_whitespace_char(c: char) -> (b: bool)
    ensures
        b == is_ws_char(c),
{
    c == ' ' || c == '\t' || c == '\n' || c == '\r' || c == '\u{B}' || c == '\u{C}' || c
        == '\u{85}' || c == '\u{A0}' || c == '\u{1680}' || c == '\u{2000}' || c == '\u{2001}' || c
        == '\u{2002}' || c == '\u{2003}' || c == '\u{2004}' || c == '\u{2005}' || c == '\u{2006}'
        || c == '\u{2007}' || c == '\u{2008}' || c == '\u{2009}' || c == '\u{200A}' || c
        == '\u{2028}' || c == '\u{2029}' || c == '\u{202F}' || c == '\u{205F}' || c == '\u{3000}'
}

/// `suffix` is a suffix of `s`.
pub open spec fn is_suffix_of(suffix: Seq<char>, s: Seq<char>) -> bool {
    suffix.len() <= s.len() && s.subrange(s.len() - suffix.len(), s.len() as int) == suffix
}

/// `p` occurs in `s` at position `i`.
pub open spec fn matches_at(s: Seq<char>, i: int, p: Seq<char>) -> bool {
    0 <= i && i + p.len() <= s.len() && s.subrange(i, i + p.len()) == p
}

/// Whether `s` ends with `suffix`.
pub fn ends_with_str(s: &str, suffix: &str) -> (b: bool)
    ensures
        b == is_suffix_of(suffix@, s@),
{
    let n = s.unicode_len();
    let k = suffix.unicode_len();
    if k > n {
        return false;
    }
    let mut i: usize = 0;
    while i < k
        invariant
            i <= k <= n,
            n == s@.len(),
            k == suffix@.len(),
            forall|j: int| 0 <= j < i ==> s@[n - k + j] == suffix@[j],
        decreases k - i,
    {
        if s.get_char(n - k + i) != suffix.get_char(i) {
            assert(s@.subrange(n - k, n as int)[i as int] == s@[n - k + i]);
            return false;
        }
        i = i + 1;
    }
    proof {
        assert(s@.subrange(n - k, n as int) =~= suffix@);
    }
    true
}

/// Whether `p` occurs in `s` at position `i`.
pub fn str_matches_at(s: &str, i: usize, p: &str) -> (b: bool)
    ensures
        b == matches_at(s@, i as int, p@),
{
    let n = s.unicode_len();
    let k = p.unicode_len();
    if i > n || k > n - i {
        return false;
    }
    let mut j: usize = 0;
    while j < k
        invariant
            j <= k,
            i + k <= n,
            n == s@.len(),
            k == p@.len(),
            forall|l: int| 0 <= l < j ==> s@[i + l] == p@[l],
        decreases k - j,
    {
        if s.get_char(i + j) != p.get_char(j) {
            assert(s@.subrange(i as int, i + k)[j as int] == s@[i + j]);
            return false;
        }
        j = j + 1;
    }
    proof {
        assert(s@.subrange(i as int, i + k) =~= p@);
    }
    true
}

/// Whether two strings hold the same characters.
pub fn str_eq(a: &str, b: &str) -> (r: bool)
    ensures
        r == (a@ == b@),
{
    let n = a.unicode_len();
    let m = b.unicode_len();
    if n != m {
        return false;
    }
    let mut i: usize = 0;
    while i < n
        invariant
            i <= n,
            n == a@.len(),
            n == b@.len(),
            forall|j: int| 0 <= j < i ==> a@[j] == b@[j],
        decreases n - i,
    {
        if a.get_char(i) != b.get_char(i) {
            return false;
        }
        i = i + 1;
    }
    proof {
        assert(a@ =~= b@);
    }
    true
}

/// A line with one trailing carriage return removed, as a `\r\n`
/// terminator leaves it.
pub open spec fn strip_cr(l: Seq<char>) -> Seq<char> {
    if l.len() > 0 && l[l.len() - 1] == '\r' {
        l.drop_last()
    } else {
        l
    }
}

/// The lines of `cur + rest`, where `cur` is the part of the current
/// line already read.  A line ends at `\n` (a preceding `\r` is
/// dropped); a last line without terminator is kept as it stands, and
/// an empty one is not a line.
pub open spec fn lines_acc(cur: Seq<char>, rest: Seq<char>) -> Seq<Seq<char>>
    decreases rest.len(),
{
    if rest.len() == 0 {
        if cur.len() == 0 {
            Seq::empty()
        } else {
            seq![cur]
        }
    } else if rest[0] == '\n' {
        seq![strip_cr(cur)] + lines_acc(Seq::empty(), rest.drop_first())
    } else {
        lines_acc(cur.push(rest[0]), rest.drop_first())
    }
}

/// The lines of `s`, as `str::lines` yields them.
pub open spec fn lines_spec(s: Seq<char>) -> Seq<Seq<char>> {
    lines_acc(Seq::empty(), s)
}

/// Split `s` into its lines.
pub fn split_lines(s: &str) -> (r: Vec<String>)
    ensures
        r.deep_view() == lines_spec(s@),
{
    let n = s.unicode_len();
    let mut r: Vec<String> = Vec::new();
    let mut start: usize = 0;
    let mut i: usize = 0;
    proof {
        assert(s@.subrange(0, 0) =~= Seq::<char>::empty());
        assert(s@.subrange(0, n as int) =~= s@);
        assert(r.deep_view() =~= Seq::<Seq<char>>::empty());
        assert(Seq::<Seq<char>>::empty() + lines_acc(Seq::empty(), s@) =~= lines_acc(
            Seq::empty(),
            s@,
        ));
    }
    while i < n
        invariant
            start <= i <= n,
            n == s@.len(),
            r.deep_view() + lines_acc(
                s@.subrange(start as int, i as int),
                s@.subrange(i as int, n as int),
            ) == lines_spec(s@),
        decreases n - i,
    {
        let ghost cur = s@.subrange(start as int, i as int);
        let ghost rest = s@.subrange(i as int, n as int);
        if s.get_char(i) == '\n' {
            let line = if i > start && s.get_char(i - 1) == '\r' {
                s.substring_char(start, i - 1)
            } else {
                s.substring_char(start, i)
            };
            proof {
                assert(rest[0] == '\n');
                assert(line@ =~= strip_cr(cur));
                assert(rest.drop_first() =~= s@.subrange(i + 1, n as int));
                assert(lines_acc(cur, rest) == seq![strip_cr(cur)] + lines_acc(
                    Seq::empty(),
                    s@.subrange(i + 1, n as int),
                ));
            }
            r.push(String::from_str(line));
            proof {
                assert(s@.subrange(i + 1, i + 1) =~= Seq::<char>::empty());
                assert(r.deep_view() =~= (r.deep_view().drop_last()).push(line@));
                assert(r.deep_view().drop_last() + (seq![strip_cr(cur)] + lines_acc(
                    Seq::empty(),
                    s@.subrange(i + 1, n as int),
                )) =~= r.deep_view() + lines_acc(Seq::empty(), s@.subrange(i + 1, n as int)));
            }
            i = i + 1;
            start = i;
        } else {
            proof {
                assert(rest[0] != '\n');
                assert(rest.drop_first() =~= s@.subrange(i + 1, n as int));
                assert(cur.push(rest[0]) =~= s@.subrange(start as int, i + 1));
                assert(lines_acc(cur, rest) == lines_acc(
                    s@.subrange(start as int, i + 1),
                    s@.subrange(i + 1, n as int),
                ));
            }
            i = i + 1;
        }
    }
    if start < n {
        let line = s.substring_char(start, n);
        proof {
            assert(s@.subrange(i as int, n as int).len() == 0);
            assert(line@.len() > 0);
        }
        r.push(String::from_str(line));
        proof {
            assert(r.deep_view() =~= (r.deep_view().drop_last()).push(line@));
            assert(r.deep_view().drop_last() + seq![line@] =~= r.deep_view());
        }
    } else {
        proof {
            assert(s@.subrange(start as int, i as int).len() == 0);
            assert(r.deep_view() + Seq::<Seq<char>>::empty() =~= r.deep_view());
        }
    }
    r
}

/// `s` with leading whitespace removed.
pub open spec fn trim_start_spec(s: Seq<char>) -> Seq<char>
    decreases s.len(),
{
    if s.len() > 0 && is_ws_char(s[0]) {
        trim_start_spec(s.drop_first())
    } else {
        s
    }
}

/// `s` with trailing whitespace removed.
pub open spec fn trim_end_spec(s: Seq<char>) -> Seq<char>
    decreases s.len(),
{
    if s.len() > 0 && is_ws_char(s[s.len() - 1]) {
        trim_end_spec(s.drop_last())
    } else {
        s
    }
}

/// `s` with whitespace removed at both ends, as `str::trim` leaves it.
pub open spec fn trim_spec(s: Seq<char>) -> Seq<char> {
    trim_end_spec(trim_start_spec(s))
}

/// Trim whitespace from both ends of `s`.
pub fn trim_str(s: &str) -> (r: String)
    ensures
        r@ == trim_spec(s@),
{
    let n = s.unicode_len();
    let mut a: usize = 0;
    proof {
        assert(s@.subrange(0, n as int) =~= s@);
    }
    while a < n && is_whitespace_char(s.get_char(a))
        invariant
            a <= n,
            n == s@.len(),
            trim_start_spec(s@) == trim_start_spec(s@.subrange(a as int, n as int)),
        decreases n - a,
    {
        proof {
            assert(s@.subrange(a as int, n as int).drop_first() =~= s@.subrange(a + 1, n as int));
        }
        a = a + 1;
    }
    proof {
        assert(trim_start_spec(s@) == s@.subrange(a as int, n as int));
    }
    let mut b: usize = n;
    while b > a && is_whitespace_char(s.get_char(b - 1))
        invariant
            a <= b <= n,
            n == s@.len(),
            trim_end_spec(s@.subrange(a as int, n as int)) == trim_end_spec(
                s@.subrange(a as int, b as int),
            ),
        decreases b,
    {
        proof {
            assert(s@.subrange(a as int, b as int).drop_last() =~= s@.subrange(
                a as int,
                b - 1,
            ));
        }
        b = b - 1;
    }
    proof {
        assert(trim_spec(s@) == s@.subrange(a as int, b as int));
    }
    String::from_str(s.substring_char(a, b))
}

/// `s` with every leading occurrence of `p` removed, as
/// `str::trim_start_matches` leaves it.
pub open spec fn strip_prefix_rep_spec(s: Seq<char>, p: Seq<char>) -> Seq<char>
    decreases s.len(),
{
    if p.len() > 0 && matches_at(s, 0, p) {
        strip_prefix_rep_spec(s.subrange(p.len() as int, s.len() as int), p)
    } else {
        s
    }
}

/// Remove every leading occurrence of `p` from `s`.
pub fn strip_prefix_repeated(s: &str, p: &str) -> (r: String)
    ensures
        r@ == strip_prefix_rep_spec(s@, p@),
{
    let n = s.unicode_len();
    let k = p.unicode_len();
    if k == 0 {
        return String::from_str(s);
    }
    let mut a: usize = 0;
    proof {
        assert(s@.subrange(0, n as int) =~= s@);
    }
    while str_matches_at(s, a, p)
        invariant
            a <= n,
            n == s@.len(),
            k == p@.len(),
            k > 0,
            strip_prefix_rep_spec(s@, p@) == strip_prefix_rep_spec(
                s@.subrange(a as int, n as int),
                p@,
            ),
        decreases n - a,
    {
        proof {
            let sub = s@.subrange(a as int, n as int);
            assert(sub.subrange(0, k as int) =~= s@.subrange(a as int, a + k));
            assert(matches_at(sub, 0, p@));
            assert(sub.subrange(k as int, sub.len() as int) =~= s@.subrange(a + k, n as int));
        }
        a = a + k;
    }
    proof {
        let sub = s@.subrange(a as int, n as int);
        if matches_at(sub, 0, p@) {
            assert(s@.subrange(a as int, a + k) =~= sub.subrange(0, k as int));
            assert(matches_at(s@, a as int, p@));
        }
        assert(strip_prefix_rep_spec(sub, p@) == sub);
    }
    String::from_str(s.substring_char(a, n))
}

/// `s` with every occurrence of `p` removed, scanning left to right
/// over non-overlapping occurrences, as `str::replace` with an empty
/// replacement leaves it.
pub open spec fn remove_all_spec(s: Seq<char>, p: Seq<char>) -> Seq<char>
    decreases s.len(),
{
    if p.len() == 0 || s.len() == 0 {
        s
    } else if matches_at(s, 0, p) {
        remove_all_spec(s.subrange(p.len() as int, s.len() as int), p)
    } else {
        seq![s[0]] + remove_all_spec(s.drop_first(), p)
    }
}

/// Remove every occurrence of `p` from `s`.
pub fn remove_all(s: &str, p: &str) -> (r: String)
    ensures
        r@ == remove_all_spec(s@, p@),
{
    let n = s.unicode_len();
    let k = p.unicode_len();
    if k == 0 {
        return String::from_str(s);
    }
    let mut out = String::new();
    let mut seg: usize = 0;
    let mut i: usize = 0;
    proof {
        assert(s@.subrange(0, 0) =~= Seq::<char>::empty());
        assert(s@.subrange(0, n as int) =~= s@);
        assert(out@ + s@.subrange(0, 0) + remove_all_spec(s@, p@) =~= remove_all_spec(s@, p@));
    }
    while i < n
        invariant
            seg <= i <= n,
            n == s@.len(),
            k == p@.len(),
            k > 0,
            remove_all_spec(s@, p@) == out@ + s@.subrange(seg as int, i as int)
                + remove_all_spec(s@.subrange(i as int, n as int), p@),
        decreases n - i,
    {
        let ghost rest = s@.subrange(i as int, n as int);
        if str_matches_at(s, i, p) {
            proof {
                assert(rest.subrange(0, k as int) =~= s@.subrange(i as int, i + k));
                assert(matches_at(rest, 0, p@));
                assert(rest.subrange(k as int, rest.len() as int) =~= s@.subrange(
                    i + k,
                    n as int,
                ));
                assert(remove_all_spec(rest, p@) == remove_all_spec(
                    s@.subrange(i + k, n as int),
                    p@,
                ));
            }
            let piece = s.substring_char(seg, i);
            out.append(piece);
            proof {
                assert(s@.subrange(i + k, i + k) =~= Seq::<char>::empty());
                assert(out@ + s@.subrange(i + k, i + k) =~= out@);
            }
            i = i + k;
            seg = i;
        } else {
            proof {
                if matches_at(rest, 0, p@) {
                    assert(s@.subrange(i as int, i + k) =~= rest.subrange(0, k as int));
                    assert(matches_at(s@, i as int, p@));
                }
                assert(rest.len() > 0);
                assert(rest[0] == s@[i as int]);
                assert(rest.drop_first() =~= s@.subrange(i + 1, n as int));
                assert(remove_all_spec(rest, p@) == seq![s@[i as int]] + remove_all_spec(
                    s@.subrange(i + 1, n as int),
                    p@,
                ));
                assert(s@.subrange(seg as int, i + 1) =~= s@.subrange(seg as int, i as int)
                    + seq![s@[i as int]]);
                assert(out@ + s@.subrange(seg as int, i + 1) + remove_all_spec(
                    s@.subrange(i + 1, n as int),
                    p@,
                ) =~= out@ + s@.subrange(seg as int, i as int) + remove_all_spec(rest, p@));
            }
            i = i + 1;
        }
    }
    proof {
        assert(s@.subrange(i as int, n as int).len() == 0);
        assert(remove_all_spec(s@.subrange(i as int, n as int), p@) == s@.subrange(
            i as int,
            n as int,
        ));
        assert(out@ + s@.subrange(seg as int, n as int) + s@.subrange(i as int, n as int) =~= out@
            + s@.subrange(seg as int, n as int));
    }
    let tail = s.substring_char(seg, n);
    out.append(tail);
    out
}

} // verus!
