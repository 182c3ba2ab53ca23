//! Plain text helpers: string equality, concatenation, substring search and
//! signed-integer parsing, each against an exact character-level statement.

use vstd::prelude::*;
use crate::date::{all_digits, digit_val, digits_val};

verus! {

/// Relies on std's `String::push_str`: appends the characters of `other` to
/// the end of `s` and does nothing else.
pub assume_specification[ String::push_str ](s: &mut String, other: &str)
    ensures
        final(s)@ == old(s)@ + other@,
;

/// Concatenation of two string slices.
pub fn concat_strs(a: &str, b: &str) -> (r: String)
    ensures
        r@ == a@ + b@,
{
    let mut s = a.to_owned();
    s.push_str(b);
    s
}

/// Character-for-character string equality.
pub fn str_eq(a: &str, b: &str) -> (r: bool)
    ensures
        r == (a@ == b@),
{
    let alen = a.unicode_len();
    let blen = b.unicode_len();
    if alen != blen {
        proof {
            assert(a@ != b@) by {
                assert(a@.len() != b@.len());
            }
        }
        return false;
    }
    let mut i: usize = 0;
    while i < alen
        invariant
            alen == a@.len(),
            alen == b@.len(),
            i <= alen,
            forall|j: int| 0 <= j < i ==> a@[j] == b@[j],
        decreases alen - i,
    {
        if a.get_char(i) != b.get_char(i) {
            return false;
        }
        i += 1;
    }
    proof {
        assert(a@ =~= b@);
    }
    true
}

/// `needle` occurs contiguously somewhere inside `haystack`.
pub open spec fn contains_seq(haystack: Seq<char>, needle: Seq<char>) -> bool {
    exists|i: int|
        0 <= i && i + needle.len() <= haystack.len() && #[trigger] haystack.subrange(
            i,
            i + needle.len() as int,
        ) == needle
}

/// Whether `needle` occurs contiguously inside `haystack`.
pub fn contains_str(haystack: &str, needle: &str) -> (r: bool)
    ensures
        r == contains_seq(haystack@, needle@),
{
    let hlen = haystack.unicode_len();
    let nlen = needle.unicode_len();
    if nlen > hlen {
        return false;
    }
    if nlen == 0 {
        proof {
            assert(haystack@.subrange(0, 0 + needle@.len() as int) =~= needle@);
        }
        return true;
    }
    let mut i: usize = 0;
    while i <= hlen - nlen
        invariant
            hlen == haystack@.len(),
            nlen == needle@.len(),
            1 <= nlen <= hlen,
            i <= hlen - nlen + 1,
            forall|k: int|
                0 <= k < i ==> #[trigger] haystack@.subrange(k, k + nlen as int) != needle@,
        decreases hlen - nlen + 1 - i,
    {
        let mut j: usize = 0;
        let mut matched = true;
        while j < nlen
            invariant
                hlen == haystack@.len(),
                nlen == needle@.len(),
                i + nlen <= hlen,
                j <= nlen,
                matched ==> forall|t: int| 0 <= t < j ==> haystack@[i + t] == needle@[t],
                !matched ==> haystack@.subrange(i as int, i + nlen as int) != needle@,
            decreases nlen - j,
        {
            if haystack.get_char(i + j) != needle.get_char(j) {
                proof {
                    let sub = haystack@.subrange(i as int, i + nlen as int);
                    assert(sub[j as int] == haystack@[i + j]);
                }
                matched = false;
                j = nlen;
            } else {
                j += 1;
            }
        }
        if matched {
            proof {
                assert(haystack@.subrange(i as int, i + nlen as int) =~= needle@);
            }
            return true;
        }
        i += 1;
    }
    proof {
        assert(!contains_seq(haystack@, needle@)) by {
            assert(forall|k: int|
                0 <= k && k + needle@.len() <= haystack@.len() ==> #[trigger] haystack@.subrange(
                    k,
                    k + needle@.len() as int,
                ) != needle@);
        }
    }
    false
}

/// What parsing a decimal integer path segment yields: an optional sign
/// followed by at least one digit, valued within `i64` range; `None` on any
/// other shape or on overflow. This matches how an `{id}` route segment is
/// read.
pub open spec fn parse_i64_spec(s: Seq<char>) -> Option<i64> {
    let neg = s.len() > 0 && s[0] == '-';
    let ds = if s.len() > 0 && (s[0] == '-' || s[0] == '+') {
        s.subrange(1, s.len() as int)
    } else {
        s
    };
    if ds.len() > 0 && all_digits(ds) {
        let v = if neg {
            -digits_val(ds)
        } else {
            digits_val(ds)
        };
        if i64::MIN <= v <= i64::MAX {
            Some(v as i64)
        } else {
            None
        }
    } else {
        None
    }
}

proof fn lemma_digits_val_nonneg(s: Seq<char>)
    requires
        all_digits(s),
    ensures
        digits_val(s) >= 0,
    decreases s.len(),
{
    if s.len() > 0 {
        assert(all_digits(s.drop_last())) by {
            assert(forall|i: int| 0 <= i < s.len() - 1 ==> s.drop_last()[i] == s[i]);
        }
        lemma_digits_val_nonneg(s.drop_last());
        assert(digits_val(s.drop_last()) * 10 >= 0) by (nonlinear_arith)
            requires
                digits_val(s.drop_last()) >= 0,
        ;
    }
}

/// A digit string's value is at least the value of any of its prefixes.
proof fn lemma_digits_val_extend(s: Seq<char>, k: int)
    requires
        all_digits(s),
        0 <= k <= s.len(),
    ensures
        digits_val(s) >= digits_val(s.subrange(0, k)),
    decreases s.len() - k,
{
    if k < s.len() {
        let p = s.subrange(0, k);
        let q = s.subrange(0, k + 1);
        assert(all_digits(p)) by {
            assert(forall|i: int| 0 <= i < k ==> p[i] == s[i]);
        }
        assert(q.drop_last() =~= p);
        assert(q.last() == s[k]);
        lemma_digits_val_nonneg(p);
        assert(digits_val(q) == digits_val(p) * 10 + digit_val(s[k]));
        assert(digits_val(p) * 10 >= digits_val(p)) by (nonlinear_arith)
            requires
                digits_val(p) >= 0,
        ;
        lemma_digits_val_extend(s, k + 1);
        assert(s.subrange(0, s.len() as int) =~= s);
    } else {
        assert(s.subrange(0, s.len() as int) =~= s);
    }
}

/// Parse a decimal integer with optional sign, exactly as
/// [`parse_i64_spec`] names it.
pub fn parse_i64(s: &str) -> (r: Option<i64>)
    ensures
        r == parse_i64_spec(s@),
{
    let n = s.unicode_len();
    if n == 0 {
        return None;
    }
    let first = s.get_char(0);
    let neg = first == '-';
    let signed = first == '-' || first == '+';
    let start: usize = if signed {
        1
    } else {
        0
    };
    let ghost ds = if signed {
        s@.subrange(1, s@.len() as int)
    } else {
        s@
    };
    if n == start {
        return None;
    }
    let mut acc: u64 = 0;
    let mut i: usize = start;
    while i < n
        invariant
            n == s@.len(),
            start <= i <= n,
            start < n,
            start == if signed {
                1int
            } else {
                0int
            },
            neg == (s@[0] == '-'),
            signed == (s@[0] == '-' || s@[0] == '+'),
            ds == if signed {
                s@.subrange(1, s@.len() as int)
            } else {
                s@
            },
            all_digits(ds.subrange(0, i - start)),
            acc == digits_val(ds.subrange(0, i - start)),
            acc <= 0x8000_0000_0000_0000u64,
        decreases n - i,
    {
        let c = s.get_char(i);
        proof {
            assert(ds[i - start] == s@[i as int]);
        }
        if !('0' <= c && c <= '9') {
            proof {
                assert(ds[i - start] == c);
                assert(!all_digits(ds));
            }
            return None;
        }
        let d: u64 = (c as u32 as u64) - ('0' as u32 as u64);
        proof {
            let p = ds.subrange(0, i - start);
            let q = ds.subrange(0, i + 1 - start);
            assert(q.drop_last() =~= p);
            assert(q.last() == ds[i - start]);
            assert(all_digits(q)) by {
                assert(forall|t: int| 0 <= t < q.len() - 1 ==> q[t] == p[t]);
            }
        }
        if acc > (0x8000_0000_0000_0000u64 - d) / 10 {
            proof {
                let q = ds.subrange(0, i + 1 - start);
                assert(digits_val(q) == acc * 10 + d);
                assert(acc * 10 + d > 0x8000_0000_0000_0000) by (nonlinear_arith)
                    requires
                        acc > (0x8000_0000_0000_0000u64 - d) / 10,
                        d <= 9,
                ;
                if all_digits(ds) {
                    lemma_digits_val_extend(ds, i + 1 - start);
                    assert(digits_val(ds) >= digits_val(q));
                }
            }
            return None;
        }
        proof {
            assert(acc * 10 + d <= 0x8000_0000_0000_0000) by (nonlinear_arith)
                requires
                    acc <= (0x8000_0000_0000_0000u64 - d) / 10,
                    d <= 9,
            ;
        }
        acc = acc * 10 + d;
        i += 1;
    }
    proof {
        assert(ds.subrange(0, ds.len() as int) =~= ds);
    }
    if neg {
        if acc == 0x8000_0000_0000_0000u64 {
            Some(i64::MIN)
        } else {
            Some(-(acc as i64))
        }
    } else {
        if acc == 0x8000_0000_0000_0000u64 {
            None
        } else {
            Some(acc as i64)
        }
    }
}

} // verus!
