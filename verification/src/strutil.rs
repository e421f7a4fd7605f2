//! Small verified string utilities: character-wise equality, substring
//! search, and decimal formatting of integers.

use vstd::prelude::*;
use vstd::string::*;

verus! {

/// Character-wise equality of two string slices.
pub fn str_eq(a: &str, b: &str) -> (r: bool)
    ensures
        r == (a@ == b@),
{
    let na: usize = a.unicode_len();
    let nb: usize = b.unicode_len();
    if na != nb {
        return false;
    }
    let mut i: usize = 0;
    while i < na
        invariant
            i <= na,
            na == a@.len(),
            na == b@.len(),
            forall|j: int| 0 <= j < i ==> a@[j] == b@[j],
        decreases na - i,
    {
        let ca = a.get_char(i);
        let cb = b.get_char(i);
        if ca != cb {
            return false;
        }
        i = i + 1;
    }
    proof {
        assert(a@ =~= b@);
    }
    true
}

/// `needle` occurs as a contiguous run of characters inside `hay`.
pub open spec fn contains_seq(hay: Seq<char>, needle: Seq<char>) -> bool {
    exists|k: int|
        0 <= k && k + needle.len() <= hay.len() && #[trigger] hay.subrange(k, k + needle.len())
            == needle
}

/// Whether `needle` occurs in `hay` starting at character position `k`.
fn matches_at(hay: &str, needle: &str, k: usize) -> (r: bool)
    requires
        k + needle@.len() <= hay@.len(),
        hay@.len() <= usize::MAX,
    ensures
        r == (hay@.subrange(k as int, k + needle@.len()) == needle@),
{
    let nn: usize = needle.unicode_len();
    let mut j: usize = 0;
    while j < nn
        invariant
            j <= nn,
            nn == needle@.len(),
            k + nn <= hay@.len(),
            hay@.len() <= usize::MAX,
            forall|l: int| 0 <= l < j ==> hay@[k + l] == needle@[l],
        decreases nn - j,
    {
        let ch = hay.get_char(k + j);
        let cn = needle.get_char(j);
        if ch != cn {
            proof {
                let sub = hay@.subrange(k as int, k + needle@.len());
                assert(sub[j as int] == hay@[k + j]);
            }
            return false;
        }
        j = j + 1;
    }
    proof {
        assert(hay@.subrange(k as int, k + needle@.len()) =~= needle@);
    }
    true
}

/// Substring search by character positions.
pub fn contains_str(hay: &str, needle: &str) -> (r: bool)
    ensures
        r == contains_seq(hay@, needle@),
{
    let nh: usize = hay.unicode_len();
    let nn: usize = needle.unicode_len();
    if nn > nh {
        return false;
    }
    let bound: usize = nh - nn;
    let mut k: usize = 0;
    while k < bound
        invariant
            nh == hay@.len(),
            nn == needle@.len(),
            nn <= nh,
            bound == nh - nn,
            k <= bound,
            forall|k2: int|
                0 <= k2 < k ==> #[trigger] hay@.subrange(k2, k2 + needle@.len()) != needle@,
        decreases bound - k,
    {
        if matches_at(hay, needle, k) {
            return true;
        }
        k = k + 1;
    }
    if matches_at(hay, needle, bound) {
        return true;
    }
    false
}

/// The character standing for a single decimal digit.
pub open spec fn decimal_digit(d: nat) -> char {
    if d == 0 {
        '0'
    } else if d == 1 {
        '1'
    } else if d == 2 {
        '2'
    } else if d == 3 {
        '3'
    } else if d == 4 {
        '4'
    } else if d == 5 {
        '5'
    } else if d == 6 {
        '6'
    } else if d == 7 {
        '7'
    } else if d == 8 {
        '8'
    } else {
        '9'
    }
}

/// The usual decimal rendering of a natural number, most significant digit
/// first, with no leading zeros except for the number zero itself.
pub open spec fn decimal_of(n: nat) -> Seq<char>
    decreases n,
{
    if n < 10 {
        seq![decimal_digit(n)]
    } else {
        decimal_of(n / 10).push(decimal_digit(n % 10))
    }
}

/// A one-character string slice for a single decimal digit.
fn digit_str(d: u64) -> (r: &'static str)
    requires
        d < 10,
    ensures
        r@ =~= seq![decimal_digit(d as nat)],
{
    if d == 0 {
        proof {
            reveal_strlit("0");
        }
        "0"
    } else if d == 1 {
        proof {
            reveal_strlit("1");
        }
        "1"
    } else if d == 2 {
        proof {
            reveal_strlit("2");
        }
        "2"
    } else if d == 3 {
        proof {
            reveal_strlit("3");
        }
        "3"
    } else if d == 4 {
        proof {
            reveal_strlit("4");
        }
        "4"
    } else if d == 5 {
        proof {
            reveal_strlit("5");
        }
        "5"
    } else if d == 6 {
        proof {
            reveal_strlit("6");
        }
        "6"
    } else if d == 7 {
        proof {
            reveal_strlit("7");
        }
        "7"
    } else if d == 8 {
        proof {
            reveal_strlit("8");
        }
        "8"
    } else {
        proof {
            reveal_strlit("9");
        }
        "9"
    }
}

/// Splitting a character sequence on a separator, keeping empty pieces: the
/// result always holds one piece more than the number of separators.
pub open spec fn split_on(s: Seq<char>, sep: char) -> Seq<Seq<char>>
    decreases s.len(),
{
    if s.len() == 0 {
        seq![Seq::empty()]
    } else {
        let rest = split_on(s.drop_last(), sep);
        if s.last() == sep {
            rest.push(Seq::empty())
        } else {
            rest.update(rest.len() - 1, rest.last().push(s.last()))
        }
    }
}

/// Splits a string on a separator character, keeping empty pieces.
pub fn split_str(s: &str, sep: char) -> (parts: Vec<String>)
    ensures
        parts.deep_view() == split_on(s@, sep),
        parts@.len() >= 1,
{
    let n: usize = s.unicode_len();
    let mut parts: Vec<String> = Vec::new();
    let mut cur = String::new();
    let mut i: usize = 0;
    while i < n
        invariant
            i <= n,
            n == s@.len(),
            parts.deep_view().push(cur@) =~= split_on(s@.subrange(0, i as int), sep),
        decreases n - i,
    {
        let ghost prefix = s@.subrange(0, i as int);
        let ghost parts0 = parts.deep_view();
        let ghost cur0 = cur@;
        let c = s.get_char(i);
        if c == sep {
            parts.push(cur);
            cur = String::new();
            proof {
                assert(parts.deep_view() =~= parts0.push(cur0));
            }
        } else {
            let piece = s.substring_char(i, i + 1);
            cur.append(piece);
            proof {
                assert(cur@ =~= cur0.push(s@[i as int]));
            }
        }
        proof {
            let grown = s@.subrange(0, i + 1 as int);
            assert(grown.drop_last() =~= prefix);
            assert(grown.last() == s@[i as int]);
            assert(parts.deep_view().push(cur@) =~= split_on(grown, sep));
        }
        i = i + 1;
    }
    parts.push(cur);
    proof {
        assert(s@.subrange(0, n as int) =~= s@);
        assert(parts.deep_view() =~= split_on(s@, sep));
    }
    parts
}

/// The piece after the last `/`, or the whole path when it has no `/`.
pub open spec fn last_segment(s: Seq<char>) -> Seq<char> {
    split_on(s, '/').last()
}

/// The file name named by a path: what follows its last slash.
pub fn file_name_of(path: &str) -> (r: String)
    ensures
        r@ == last_segment(path@),
{
    let mut parts = split_str(path, '/');
    let ghost all = parts.deep_view();
    let last = parts.pop().unwrap();
    proof {
        assert(last@ == all[all.len() - 1]);
    }
    last
}

/// The characters treated as blank when a line is cut into tokens.
pub open spec fn is_space(c: char) -> bool {
    c == ' ' || c == '\t' || c == '\r'
}

/// Whether a character is blank.
pub fn is_space_char(c: char) -> (r: bool)
    ensures
        r == is_space(c),
{
    c == ' ' || c == '\t' || c == '\r'
}

/// The blank-separated tokens of a line, in order, without empty tokens.
pub open spec fn ws_tokens(s: Seq<char>) -> Seq<Seq<char>>
    decreases s.len(),
{
    if s.len() == 0 {
        Seq::empty()
    } else {
        let rest = ws_tokens(s.drop_last());
        if is_space(s.last()) {
            rest
        } else {
            if s.len() >= 2 && !is_space(s[s.len() - 2]) {
                rest.update(rest.len() - 1, rest.last().push(s.last()))
            } else {
                rest.push(seq![s.last()])
            }
        }
    }
}

/// Cuts a line into its blank-separated tokens.
pub fn split_tokens(s: &str) -> (parts: Vec<String>)
    ensures
        parts.deep_view() == ws_tokens(s@),
{
    let n: usize = s.unicode_len();
    let mut parts: Vec<String> = Vec::new();
    let mut i: usize = 0;
    let mut prev_nonspace = false;
    while i < n
        invariant
            i <= n,
            n == s@.len(),
            parts.deep_view() =~= ws_tokens(s@.subrange(0, i as int)),
            prev_nonspace == (i > 0 && !is_space(s@[i - 1])),
            prev_nonspace ==> parts@.len() >= 1,
        decreases n - i,
    {
        let ghost prefix = s@.subrange(0, i as int);
        let c = s.get_char(i);
        if !is_space_char(c) {
            let piece = s.substring_char(i, i + 1);
            if prev_nonspace {
                let ghost before = parts.deep_view();
                let mut lastp = parts.pop().unwrap();
                let ghost last0 = lastp@;
                lastp.append(piece);
                parts.push(lastp);
                proof {
                    assert(last0 == before.last());
                    assert(lastp@ =~= before.last().push(s@[i as int]));
                    assert(parts.deep_view() =~= before.update(
                        before.len() - 1,
                        before.last().push(s@[i as int]),
                    ));
                }
            } else {
                let mut t = String::new();
                t.append(piece);
                parts.push(t);
                proof {
                    assert(t@ =~= seq![s@[i as int]]);
                }
            }
            prev_nonspace = true;
        } else {
            prev_nonspace = false;
        }
        proof {
            let grown = s@.subrange(0, i + 1 as int);
            assert(grown.drop_last() =~= prefix);
            assert(grown.last() == s@[i as int]);
            if i > 0 {
                assert(grown[grown.len() - 2] == s@[i - 1]);
            }
            assert(parts.deep_view() =~= ws_tokens(grown));
        }
        i = i + 1;
    }
    proof {
        assert(s@.subrange(0, n as int) =~= s@);
        assert(parts.deep_view() =~= ws_tokens(s@));
    }
    parts
}

/// Renders an unsigned integer in decimal.
pub fn u64_to_decimal(n: u64) -> (r: String)
    ensures
        r@ == decimal_of(n as nat),
    decreases n,
{
    if n < 10 {
        let mut s = String::new();
        s.append(digit_str(n));
        proof {
            assert(s@ =~= decimal_of(n as nat));
        }
        s
    } else {
        let mut s = u64_to_decimal(n / 10);
        s.append(digit_str(n % 10));
        proof {
            assert(s@ =~= decimal_of(n as nat));
        }
        s
    }
}

} // verus!
