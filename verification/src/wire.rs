//! Byte-level codec for the wire protocol: ASCII decimal formatting and
//! parsing of unsigned values, and trimming of reply lines.

use vstd::prelude::*;

verus! {

/// The ASCII digit byte for a value below ten.
pub open spec fn digit_byte(d: nat) -> u8 {
    (d + 0x30) as u8
}

/// The ASCII decimal representation of `n`, most significant digit first.
pub open spec fn dec_rep(n: nat) -> Seq<u8>
    decreases n,
{
    if n < 10 {
        seq![digit_byte(n)]
    } else {
        dec_rep(n / 10) + seq![digit_byte(n % 10)]
    }
}

/// Whether `b` is an ASCII decimal digit.
pub open spec fn is_digit(b: u8) -> bool {
    0x30 <= b <= 0x39
}

/// Whether every byte of `s` is an ASCII decimal digit.
pub open spec fn all_digits(s: Seq<u8>) -> bool {
    forall|i: int| 0 <= i < s.len() ==> is_digit(s[i])
}

/// The unsigned value spelled by the digit string `s`, most significant digit
/// first. Meaningful when `all_digits(s)` holds.
pub open spec fn dec_val(s: Seq<u8>) -> nat
    decreases s.len(),
{
    if s.len() == 0 {
        0
    } else {
        dec_val(s.drop_last()) * 10 + (s.last() - 0x30) as nat
    }
}

/// Whether `b` is an ASCII whitespace byte (space, tab, line feed, vertical
/// tab, form feed or carriage return).
pub open spec fn is_space(b: u8) -> bool {
    b == 0x20 || b == 0x09 || b == 0x0a || b == 0x0b || b == 0x0c || b == 0x0d
}

/// `s` with every trailing whitespace byte removed.
pub open spec fn trim_back(s: Seq<u8>) -> Seq<u8>
    decreases s.len(),
{
    if s.len() > 0 && is_space(s.last()) {
        trim_back(s.drop_last())
    } else {
        s
    }
}

/// Formats `n` in ASCII decimal, most significant digit first.
pub fn format_usize(n: usize) -> (r: Vec<u8>)
    ensures
        r@ == dec_rep(n as nat),
    decreases n,
{
    if n < 10 {
        let mut r: Vec<u8> = Vec::new();
        r.push(n as u8 + 0x30);
        proof {
            assert(r@ =~= dec_rep(n as nat));
        }
        r
    } else {
        let mut r: Vec<u8> = format_usize(n / 10);
        r.push((n % 10) as u8 + 0x30);
        proof {
            assert(r@ =~= dec_rep((n / 10) as nat) + seq![digit_byte((n as nat) % 10)]);
            assert(r@ =~= dec_rep(n as nat));
        }
        r
    }
}

/// A prefix of a byte string never spells a larger value than the whole
/// string: appending bytes can only keep or grow `dec_val`.
proof fn lemma_dec_val_prefix(t: Seq<u8>, i: int)
    requires
        0 <= i <= t.len(),
    ensures
        dec_val(t.subrange(0, i)) <= dec_val(t),
    decreases t.len() - i,
{
    if i < t.len() {
        lemma_dec_val_prefix(t, i + 1);
        let p = t.subrange(0, i);
        let q = t.subrange(0, i + 1);
        assert(q.drop_last() =~= p);
        assert(dec_val(q) == dec_val(p) * 10 + (q.last() - 0x30) as nat);
        assert(dec_val(p) * 10 >= dec_val(p)) by (nonlinear_arith);
    } else {
        assert(t.subrange(0, i) =~= t);
    }
}

/// Parses `s` as an unsigned ASCII decimal number.
///
/// Returns the spelled value exactly when `s` is a nonempty string of digits
/// whose value fits in `usize`; returns `None` otherwise.
pub fn parse_usize(s: &[u8]) -> (r: Option<usize>)
    ensures
        match r {
            Some(v) => s@.len() > 0 && all_digits(s@) && dec_val(s@) <= usize::MAX
                && v == dec_val(s@),
            None => s@.len() == 0 || !all_digits(s@) || dec_val(s@) > usize::MAX,
        },
{
    if s.len() == 0 {
        return None;
    }
    let mut acc: usize = 0;
    let mut i: usize = 0;
    while i < s.len()
        invariant
            0 < s@.len(),
            i <= s@.len(),
            forall|k: int| 0 <= k < i ==> is_digit(s@[k]),
            acc == dec_val(s@.subrange(0, i as int)),
        decreases s@.len() - i,
    {
        let b: u8 = s[i];
        if b < 0x30 || b > 0x39 {
            assert(!is_digit(s@[i as int]));
            return None;
        }
        let d: usize = (b - 0x30) as usize;
        proof {
            assert(s@.subrange(0, i + 1 as int).drop_last() =~= s@.subrange(0, i as int));
        }
        if acc > (usize::MAX - d) / 10 {
            proof {
                let lim: int = (usize::MAX - d) as int;
                assert(lim == (lim / 10) * 10 + lim % 10);
                assert(acc * 10 + d > usize::MAX) by {
                    assert(acc >= lim / 10 + 1);
                    assert(acc * 10 >= (lim / 10 + 1) * 10) by (nonlinear_arith)
                        requires acc >= lim / 10 + 1;
                    assert((lim / 10 + 1) * 10 == (lim / 10) * 10 + 10);
                    assert((lim / 10) * 10 >= lim - 9);
                }
                assert(dec_val(s@.subrange(0, i + 1 as int)) == acc * 10 + d);
                lemma_dec_val_prefix(s@, i + 1 as int);
            }
            return None;
        }
        proof {
            let lim: int = (usize::MAX - d) as int;
            assert(lim == (lim / 10) * 10 + lim % 10);
            assert(acc * 10 <= (lim / 10) * 10) by (nonlinear_arith)
                requires acc <= lim / 10;
            assert((lim / 10) * 10 <= lim);
        }
        acc = acc * 10 + d;
        i = i + 1;
    }
    proof {
        assert(s@.subrange(0, i as int) =~= s@);
    }
    Some(acc)
}

/// Law: decimal formatting and parsing agree — the representation of `n` is
/// all digits and spells `n` back.
pub proof fn lemma_dec_round_trip(n: nat)
    ensures
        all_digits(dec_rep(n)),
        dec_val(dec_rep(n)) == n,
    decreases n,
{
    if n < 10 {
        let s = dec_rep(n);
        assert(s =~= seq![digit_byte(n)]);
        assert(s.last() == digit_byte(n));
        assert(s.drop_last() =~= Seq::<u8>::empty());
        assert(dec_val(s.drop_last()) == 0);
        assert(digit_byte(n) == n + 0x30);
        assert(dec_val(s) == dec_val(s.drop_last()) * 10 + (s.last() - 0x30) as nat);
    } else {
        lemma_dec_round_trip(n / 10);
        assert(dec_rep(n).drop_last() =~= dec_rep(n / 10));
        assert(dec_rep(n).last() == digit_byte(n % 10));
        assert(dec_val(dec_rep(n)) == (n / 10) * 10 + n % 10);
        assert(n == (n / 10) * 10 + n % 10);
        assert forall|i: int| 0 <= i < dec_rep(n).len() implies is_digit(dec_rep(n)[i]) by {
            if i < dec_rep(n / 10).len() {
                assert(dec_rep(n)[i] == dec_rep(n / 10)[i]);
            } else {
                assert(dec_rep(n)[i] == digit_byte(n % 10));
            }
        }
    }
}

/// Whether `b` is an ASCII whitespace byte; the executable twin of
/// `is_space`.
fn byte_is_space(b: u8) -> (r: bool)
    ensures
        r == is_space(b),
{
    b == 0x20 || b == 0x09 || b == 0x0a || b == 0x0b || b == 0x0c || b == 0x0d
}

/// Copies `s` with every trailing whitespace byte removed, the way a reply
/// line is cleaned before it is interpreted.
pub fn trim_trailing(s: &[u8]) -> (r: Vec<u8>)
    ensures
        r@ == trim_back(s@),
{
    let mut end: usize = s.len();
    proof {
        assert(s@.subrange(0, end as int) =~= s@);
    }
    while end > 0 && byte_is_space(s[end - 1])
        invariant
            end <= s@.len(),
            trim_back(s@) == trim_back(s@.subrange(0, end as int)),
        decreases end,
    {
        proof {
            assert(s@.subrange(0, end as int).drop_last() =~= s@.subrange(0, end - 1 as int));
        }
        end = end - 1;
    }
    proof {
        if end > 0 {
            assert(trim_back(s@.subrange(0, end as int)) == s@.subrange(0, end as int));
        }
    }
    let mut r: Vec<u8> = Vec::new();
    let mut j: usize = 0;
    while j < end
        invariant
            j <= end <= s@.len(),
            r@ == s@.subrange(0, j as int),
        decreases end - j,
    {
        r.push(s[j]);
        proof {
            assert(s@.subrange(0, j as int).push(s@[j as int]) =~= s@.subrange(0, j + 1 as int));
        }
        j = j + 1;
    }
    proof {
        assert(trim_back(s@) =~= s@.subrange(0, end as int));
    }
    r
}

} // verus!
