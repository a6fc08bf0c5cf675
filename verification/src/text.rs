//! Character-level helpers on strings: splitting at the last `/`, decimal
//! numbers as `u64::from_str` reads them, and substring search.

use vstd::prelude::*;

verus! {

/// The characters of `s`, in order.
pub fn chars_of(s: &str) -> (r: Vec<char>)
    ensures
        r@ == s@,
{
    let n = s.unicode_len();
    let mut out: Vec<char> = Vec::new();
    let mut i: usize = 0;
    while i < n
        invariant
            n == s@.len(),
            i <= n,
            out@ == s@.subrange(0, i as int),
        decreases n - i,
    {
        let c = s.get_char(i);
        out.push(c);
        i = i + 1;
        assert(out@ =~= s@.subrange(0, i as int));
    }
    assert(out@ =~= s@);
    out
}

/// The text after the last `/` of `s`, as `str::rsplit_once("/")` gives it;
/// `None` when `s` holds no `/`.
pub open spec fn after_last_slash(s: Seq<char>) -> Option<Seq<char>>
    decreases s.len(),
{
    if s.len() == 0 {
        None
    } else if s.last() == '/' {
        Some(Seq::empty())
    } else {
        match after_last_slash(s.drop_last()) {
            Some(t) => Some(t.push(s.last())),
            None => None,
        }
    }
}

pub open spec fn is_digit(c: char) -> bool {
    '0' <= c && c <= '9'
}

pub open spec fn all_digits(s: Seq<char>) -> bool {
    forall|i: int| 0 <= i < s.len() ==> is_digit(#[trigger] s[i])
}

/// The number that a string of decimal digits denotes.
pub open spec fn decimal_value(s: Seq<char>) -> nat
    decreases s.len(),
{
    if s.len() == 0 {
        0
    } else {
        decimal_value(s.drop_last()) * 10 + ((s.last() as nat) - ('0' as nat)) as nat
    }
}

/// What `u64::from_str` gives: an optional `+`, then at least one decimal
/// digit and nothing else, of a value that fits in `u64`.
pub open spec fn parse_u64_spec(s: Seq<char>) -> Option<u64> {
    let digits = unsigned_digits(s);
    if digits.len() > 0 && all_digits(digits) && decimal_value(digits) <= u64::MAX {
        Some(decimal_value(digits) as u64)
    } else {
        None
    }
}

/// The text after an optional leading `+`.
pub open spec fn unsigned_digits(s: Seq<char>) -> Seq<char> {
    if s.len() > 0 && s[0] == '+' {
        s.drop_first()
    } else {
        s
    }
}

/// Whether `p` occurs in `s` as a contiguous piece.
pub open spec fn contains_piece(s: Seq<char>, p: Seq<char>) -> bool {
    exists|i: int| 0 <= i <= s.len() - p.len() && #[trigger] s.subrange(i, i + p.len()) == p
}

proof fn lemma_decimal_prefix_monotone(s: Seq<char>, i: int, j: int)
    requires
        0 <= i <= j <= s.len(),
        all_digits(s),
    ensures
        decimal_value(s.subrange(0, i)) <= decimal_value(s.subrange(0, j)),
    decreases j - i,
{
    if i < j {
        lemma_decimal_prefix_monotone(s, i, j - 1);
        let t = s.subrange(0, j);
        assert(t.drop_last() =~= s.subrange(0, j - 1));
        assert(is_digit(s[j - 1]));
    }
}

/// The text after the last `/`, copied.
pub fn text_after_last_slash(s: &str) -> (r: Option<Vec<char>>)
    ensures
        match after_last_slash(s@) {
            Some(t) => r matches Some(v) && v@ == t,
            None => r is None,
        },
{
    let cs = chars_of(s);
    let n = cs.len();
    let mut k: usize = n;
    // scan from the end for the last '/'
    while k > 0
        invariant
            cs@ == s@,
            n == cs@.len(),
            k <= n,
            forall|j: int| k <= j < n ==> cs@[j] != '/',
        ensures
            k <= n,
            forall|j: int| k <= j < n ==> cs@[j] != '/',
            k > 0 ==> cs@[k - 1] == '/',
        decreases k,
    {
        if cs[k - 1] == '/' {
            break;
        }
        k = k - 1;
    }
    proof {
        lemma_after_last_slash_shape(s@, k as int);
    }
    if k == 0 {
        None
    } else {
        let mut out: Vec<char> = Vec::new();
        let mut i: usize = k;
        while i < n
            invariant
                cs@ == s@,
                n == cs@.len(),
                k <= i <= n,
                out@ == cs@.subrange(k as int, i as int),
            decreases n - i,
        {
            out.push(cs[i]);
            i = i + 1;
            assert(out@ =~= cs@.subrange(k as int, i as int));
        }
        Some(out)
    }
}

proof fn lemma_after_last_slash_shape(s: Seq<char>, k: int)
    requires
        0 <= k <= s.len(),
        forall|j: int| k <= j < s.len() ==> s[j] != '/',
        k > 0 ==> s[k - 1] == '/',
    ensures
        k == 0 ==> after_last_slash(s) is None,
        k > 0 ==> after_last_slash(s) == Some(s.subrange(k, s.len() as int)),
    decreases s.len(),
{
    if s.len() == 0 {
    } else if s.last() == '/' {
        assert(k == s.len());
        assert(s.subrange(k, s.len() as int) =~= Seq::<char>::empty());
    } else {
        let d = s.drop_last();
        assert(k < s.len());
        lemma_after_last_slash_shape(d, k);
        if k > 0 {
            assert(d.subrange(k, d.len() as int).push(s.last()) =~= s.subrange(k, s.len() as int));
        }
    }
}

/// Reads a decimal `u64` from `cs` as `u64::from_str` does.
pub fn parse_u64(cs: &Vec<char>) -> (r: Option<u64>)
    ensures
        r == parse_u64_spec(cs@),
{
    let n = cs.len();
    let start: usize = if n > 0 && cs[0] == '+' {
        1
    } else {
        0
    };
    let ghost digits = unsigned_digits(cs@);
    assert(digits =~= cs@.subrange(start as int, n as int));
    if start == n {
        return None;
    }
    let mut acc: u64 = 0;
    let mut i: usize = start;
    while i < n
        invariant
            start <= i <= n,
            n == cs@.len(),
            start < n,
            digits == cs@.subrange(start as int, n as int),
            digits == unsigned_digits(cs@),
            forall|j: int| start <= j < i ==> is_digit(#[trigger] cs@[j]),
            acc == decimal_value(cs@.subrange(start as int, i as int)),
        decreases n - i,
    {
        let c = cs[i];
        if !('0' <= c && c <= '9') {
            proof {
                assert(digits[i - start] == c);
                assert(!is_digit(digits[i - start]));
                assert(!all_digits(digits));
            }
            return None;
        }
        let d: u64 = ((c as u32) - ('0' as u32)) as u64;
        let ghost prefix = cs@.subrange(start as int, i as int + 1);
        proof {
            assert(prefix.drop_last() =~= cs@.subrange(start as int, i as int));
            assert(prefix.last() == c);
            assert(decimal_value(prefix) == acc * 10 + d);
        }
        if acc > (u64::MAX - d) / 10 {
            proof {
                assert(decimal_value(prefix) > u64::MAX) by (nonlinear_arith)
                    requires
                        decimal_value(prefix) == acc * 10 + d,
                        acc > (u64::MAX - d) / 10,
                        d <= 9,
                ;
                if all_digits(digits) {
                    assert(prefix =~= digits.subrange(0, i - start + 1));
                    assert(digits =~= digits.subrange(0, digits.len() as int));
                    lemma_decimal_prefix_monotone(digits, i - start + 1, digits.len() as int);
                    assert(decimal_value(digits) > u64::MAX);
                }
                assert(parse_u64_spec(cs@) is None);
            }
            return None;
        }
        proof {
            assert(acc * 10 + d <= u64::MAX) by (nonlinear_arith)
                requires
                    acc <= (u64::MAX - d) / 10,
                    d <= 9,
            ;
        }
        acc = acc * 10 + d;
        i = i + 1;
        proof {
            assert(is_digit(cs@[i - 1]));
        }
    }
    proof {
        assert(cs@.subrange(start as int, n as int) =~= digits);
        assert(all_digits(digits)) by {
            assert forall|j: int| 0 <= j < digits.len() implies is_digit(#[trigger] digits[j]) by {
                assert(digits[j] == cs@[start + j]);
            }
        }
    }
    Some(acc)
}

/// Whether `pat` occurs in `text`.
pub fn contains_text(text: &str, pat: &str) -> (r: bool)
    ensures
        r == contains_piece(text@, pat@),
{
    let t = chars_of(text);
    let p = chars_of(pat);
    let n = t.len();
    let m = p.len();
    if m > n {
        proof {
            assert forall|i: int| 0 <= i <= t@.len() - p@.len() implies #[trigger] t@.subrange(
                i,
                i + p@.len(),
            ) != p@ by {}
        }
        return false;
    }
    let mut i: usize = 0;
    while i <= n - m
        invariant
            t@ == text@,
            p@ == pat@,
            n == t@.len(),
            m == p@.len(),
            m <= n,
            i <= n - m + 1,
            forall|a: int| 0 <= a < i ==> #[trigger] t@.subrange(a, a + m) != p@,
        decreases n - m + 1 - i,
    {
        let mut j: usize = 0;
        let mut same = true;
        while j < m
            invariant
                t@ == text@,
                p@ == pat@,
                n == t@.len(),
                m == p@.len(),
                i + m <= n,
                j <= m,
                same == (forall|b: int| 0 <= b < j ==> t@[i + b] == p@[b]),
            decreases m - j,
        {
            if t[i + j] != p[j] {
                same = false;
            }
            j = j + 1;
        }
        if same {
            proof {
                assert(t@.subrange(i as int, i + m) =~= p@);
            }
            return true;
        }
        proof {
            assert(t@.subrange(i as int, i + m) != p@) by {
                let b = choose|b: int| 0 <= b < m && t@[i + b] != p@[b];
                assert(t@.subrange(i as int, i + m)[b] == t@[i + b]);
            }
        }
        i = i + 1;
    }
    false
}

} // verus!
