//! Hex colour parsing: `"#rrggbb"` or `"0x..."` strings to a 32-bit value.
//!
//! Mirrors integer parsing with radix 16: after stripping every leading
//! `0x` pair and then every leading `#`, the remainder must be one optional
//! `+` followed by one or more hex digits whose value fits 32 bits;
//! anything else falls back to white (`0xFFFFFF`).
use vstd::prelude::*;
use vstd::string::StrSliceExecFns;

verus! {

/// Whether `c` is an ASCII hex digit.
pub open spec fn is_hex_digit(c: char) -> bool {
    (48 <= c as int <= 57) || (97 <= c as int <= 102) || (65 <= c as int <= 70)
}

/// The digit value of `c`; 0 for non-digits, making the fold total.
pub open spec fn hex_digit_val(c: char) -> int {
    if 48 <= c as int <= 57 {
        c as int - 48
    } else if 97 <= c as int <= 102 {
        c as int - 87
    } else if 65 <= c as int <= 70 {
        c as int - 55
    } else {
        0
    }
}

/// Whether every character of `t` is a hex digit.
pub open spec fn all_hex(t: Seq<char>) -> bool {
    forall|i: int| 0 <= i < t.len() ==> is_hex_digit(#[trigger] t[i])
}

/// The base-16 value of `t`, folding from the left.
pub open spec fn hex_val(t: Seq<char>) -> int
    decreases t.len(),
{
    if t.len() == 0 {
        0
    } else {
        16 * hex_val(t.drop_last()) + hex_digit_val(t.last())
    }
}

/// `s` with every leading `0x` pair removed.
pub open spec fn strip_0x(s: Seq<char>) -> Seq<char>
    decreases s.len(),
{
    if s.len() >= 2 && s[0] == '0' && s[1] == 'x' {
        strip_0x(s.skip(2))
    } else {
        s
    }
}

/// `s` with every leading `#` removed.
pub open spec fn strip_hash(s: Seq<char>) -> Seq<char>
    decreases s.len(),
{
    if s.len() >= 1 && s[0] == '#' {
        strip_hash(s.skip(1))
    } else {
        s
    }
}

/// `s` with one optional leading `+` removed.
pub open spec fn strip_plus(s: Seq<char>) -> Seq<char> {
    if s.len() >= 1 && s[0] == '+' {
        s.skip(1)
    } else {
        s
    }
}

/// The 32-bit value of a hex digit string with optional sign, or `None` when
/// it is empty, holds a non-digit, or overflows 32 bits.
pub open spec fn spec_parse_u32_hex(t: Seq<char>) -> Option<int> {
    let d = strip_plus(t);
    if d.len() > 0 && all_hex(d) && hex_val(d) <= 0xffff_ffff {
        Some(hex_val(d))
    } else {
        None
    }
}

/// The colour a settings string denotes: its hex value after prefix
/// stripping, or white when it does not parse.
pub open spec fn spec_color_from_str(s: Seq<char>) -> int {
    match spec_parse_u32_hex(strip_hash(strip_0x(s))) {
        Some(v) => v,
        None => 0xffffff,
    }
}

/// `hex_val` is never negative.
proof fn lemma_hex_val_nonneg(t: Seq<char>)
    ensures
        hex_val(t) >= 0,
    decreases t.len(),
{
    if t.len() > 0 {
        lemma_hex_val_nonneg(t.drop_last());
    }
}

/// Extending a prefix by one character multiplies its value by 16 and adds
/// the digit.
proof fn lemma_hex_val_take_step(t: Seq<char>, k: int)
    requires
        0 <= k < t.len(),
    ensures
        hex_val(t.take(k + 1)) == 16 * hex_val(t.take(k)) + hex_digit_val(t[k]),
{
    assert(t.take(k + 1).drop_last() =~= t.take(k));
    assert(t.take(k + 1).last() == t[k]);
}

/// The value of the whole string is at least the value of any prefix.
proof fn lemma_hex_val_take_mono(t: Seq<char>, k: int)
    requires
        0 <= k <= t.len(),
    ensures
        hex_val(t) >= hex_val(t.take(k)),
    decreases t.len() - k,
{
    if k == t.len() {
        assert(t.take(k) =~= t);
    } else {
        lemma_hex_val_take_step(t, k);
        lemma_hex_val_nonneg(t.take(k));
        lemma_hex_val_take_mono(t, k + 1);
    }
}

/// The digit value of `c`, or `None` for a non-digit.
fn hex_digit_of(c: char) -> (r: Option<u64>)
    ensures
        match r {
            Some(v) => is_hex_digit(c) && v == hex_digit_val(c),
            None => !is_hex_digit(c),
        },
{
    let u = c as u32;
    if 48 <= u && u <= 57 {
        Some((u - 48) as u64)
    } else if 97 <= u && u <= 102 {
        Some((u - 87) as u64)
    } else if 65 <= u && u <= 70 {
        Some((u - 55) as u64)
    } else {
        None
    }
}

/// Parse a settings colour string: strip `0x` and `#` prefixes, then read an
/// optional `+` and hex digits.  Unparseable or overflowing strings give
/// white, never an error.
pub fn parse_hex_color(s: &str) -> (r: u32)
    ensures
        r as int == spec_color_from_str(s@),
{
    let n = s.unicode_len();
    let mut start: usize = 0;
    proof {
        assert(s@.skip(0) =~= s@);
    }
    while n - start >= 2 && s.get_char(start) == '0' && s.get_char(start + 1) == 'x'
        invariant
            n == s@.len(),
            start <= n,
            strip_0x(s@) == strip_0x(s@.skip(start as int)),
        decreases n - start,
    {
        proof {
            assert(s@.skip(start as int).len() >= 2);
            assert(s@.skip(start as int)[0] == s@[start as int]);
            assert(s@.skip(start as int)[1] == s@[start as int + 1]);
            assert(s@.skip(start as int).skip(2) =~= s@.skip(start as int + 2));
        }
        start += 2;
    }
    proof {
        assert(strip_0x(s@.skip(start as int)) == s@.skip(start as int));
    }
    let ghost after_0x = s@.skip(start as int);
    while start < n && s.get_char(start) == '#'
        invariant
            n == s@.len(),
            start <= n,
            strip_hash(after_0x) == strip_hash(s@.skip(start as int)),
            strip_0x(s@) == after_0x,
        decreases n - start,
    {
        proof {
            assert(s@.skip(start as int)[0] == s@[start as int]);
            assert(s@.skip(start as int).skip(1) =~= s@.skip(start as int + 1));
        }
        start += 1;
    }
    proof {
        assert(strip_hash(s@.skip(start as int)) == s@.skip(start as int));
    }
    let ghost stripped = s@.skip(start as int);
    let dstart: usize = if start < n && s.get_char(start) == '+' {
        start + 1
    } else {
        start
    };
    proof {
        if start < n && s@[start as int] == '+' {
            assert(stripped[0] == s@[start as int]);
            assert(stripped.skip(1) =~= s@.skip(dstart as int));
        }
        assert(strip_plus(stripped) == s@.skip(dstart as int));
    }
    let ghost d = s@.skip(dstart as int);
    if dstart >= n {
        return 0xffffff;
    }
    let mut i: usize = dstart;
    let mut acc: u64 = 0;
    while i < n
        invariant
            n == s@.len(),
            dstart <= i <= n,
            dstart < n,
            d == s@.skip(dstart as int),
            strip_plus(strip_hash(strip_0x(s@))) == d,
            acc <= 0xffff_ffffu64,
            acc as int == hex_val(d.take(i - dstart)),
            all_hex(d.take(i - dstart)),
        decreases n - i,
    {
        let c = s.get_char(i);
        proof {
            assert(d[i - dstart] == s@[i as int]);
        }
        match hex_digit_of(c) {
            None => {
                proof {
                    assert(!all_hex(d));
                }
                return 0xffffff;
            },
            Some(v) => {
                let acc2 = acc * 16 + v;
                proof {
                    lemma_hex_val_take_step(d, i - dstart);
                    assert(d.take(i - dstart + 1) =~= d.take((i + 1 - dstart) as int));
                    assert forall|k: int| 0 <= k < i + 1 - dstart implies is_hex_digit(
                        #[trigger] d.take((i + 1 - dstart) as int)[k],
                    ) by {
                        assert(d.take((i + 1 - dstart) as int)[k] == d[k]);
                        if k < i - dstart {
                            assert(d.take(i - dstart)[k] == d[k]);
                        }
                    }
                }
                if acc2 > 0xffff_ffff {
                    proof {
                        lemma_hex_val_take_mono(d, i - dstart + 1);
                        if all_hex(d) {
                            assert(hex_val(d) > 0xffff_ffff);
                        }
                    }
                    return 0xffffff;
                }
                acc = acc2;
                i += 1;
            },
        }
    }
    proof {
        assert(d.take(i - dstart) =~= d);
        assert(d.len() > 0);
    }
    acc as u32
}

} // verus!
