//! Parsing of memory quantities such as `512Mi` or `42Gi`, and the heap
//! arithmetic derived from them.

use vstd::prelude::*;

verus! {

use vstd::string::*;

pub open spec fn spec_is_digit(c: char) -> bool {
    '0' <= c && c <= '9'
}

/// The numeric value of a digit sequence, most significant digit first.
pub open spec fn spec_digits_val(s: Seq<char>) -> int
    decreases s.len(),
{
    if s.len() == 0 {
        0
    } else {
        spec_digits_val(s.drop_last()) * 10 + (s.last() as int - '0' as int)
    }
}

/// The length of the leading run of digits.
pub open spec fn spec_digit_prefix_len(s: Seq<char>, i: int) -> int
    decreases s.len() - i,
{
    if i < 0 || i >= s.len() || !spec_is_digit(s[i]) {
        i
    } else {
        spec_digit_prefix_len(s, i + 1)
    }
}

/// The byte multiplier of a quantity suffix: binary suffixes `Ki` to
/// `Ei`, decimal suffixes `k` to `E`, or no suffix at all.
pub open spec fn spec_suffix_scale(s: Seq<char>) -> Option<int> {
    if s.len() == 0 {
        Some(1)
    } else if s.len() == 1 {
        if s[0] == 'k' {
            Some(1000)
        } else if s[0] == 'M' {
            Some(1000000)
        } else if s[0] == 'G' {
            Some(1000000000)
        } else if s[0] == 'T' {
            Some(1000000000000)
        } else if s[0] == 'P' {
            Some(1000000000000000)
        } else if s[0] == 'E' {
            Some(1000000000000000000)
        } else {
            None
        }
    } else if s.len() == 2 && s[1] == 'i' {
        if s[0] == 'K' {
            Some(0x400)
        } else if s[0] == 'M' {
            Some(0x100000)
        } else if s[0] == 'G' {
            Some(0x40000000)
        } else if s[0] == 'T' {
            Some(0x10000000000)
        } else if s[0] == 'P' {
            Some(0x4000000000000)
        } else if s[0] == 'E' {
            Some(0x1000000000000000)
        } else {
            None
        }
    } else {
        None
    }
}

/// The byte value of a memory quantity: a non-empty digit run followed by
/// a known suffix.
pub open spec fn spec_parse_mem_bytes(s: Seq<char>) -> Option<int> {
    let n = spec_digit_prefix_len(s, 0);
    if n == 0 {
        None
    } else {
        match spec_suffix_scale(s.subrange(n, s.len() as int)) {
            Some(m) => Some(spec_digits_val(s.subrange(0, n)) * m),
            None => None,
        }
    }
}

proof fn lemma_digits_val_nonneg(s: Seq<char>)
    requires
        forall|i: int| 0 <= i < s.len() ==> spec_is_digit(#[trigger] s[i]),
    ensures
        spec_digits_val(s) >= 0,
    decreases s.len(),
{
    if s.len() > 0 {
        lemma_digits_val_nonneg(s.drop_last());
    }
}

/// Parses a memory quantity to bytes. `None` means the text is not a
/// valid quantity or its value does not fit the result type.
pub fn parse_mem_bytes(s: &str) -> (r: Option<u64>)
    ensures
        match r {
            Some(b) => spec_parse_mem_bytes(s@) == Some(b as int),
            None => spec_parse_mem_bytes(s@) is None || (spec_parse_mem_bytes(s@) matches Some(v)
                && v > u64::MAX),
        },
{
    let len = s.unicode_len();
    // Find the digit run.
    let mut i: usize = 0;
    let mut scanning = true;
    while scanning && i < len
        invariant
            0 <= i <= len,
            len == s@.len(),
            forall|k: int| 0 <= k < i ==> spec_is_digit(#[trigger] s@[k]),
            scanning ==> spec_digit_prefix_len(s@, 0) == spec_digit_prefix_len(s@, i as int),
            !scanning ==> spec_digit_prefix_len(s@, 0) == i as int && i < len,
        decreases len - i, if scanning { 1int } else { 0int },
    {
        let c = s.get_char(i);
        if '0' <= c && c <= '9' {
            i = i + 1;
        } else {
            scanning = false;
        }
    }
    proof {
        assert(spec_digit_prefix_len(s@, 0) == i as int);
    }
    if i == 0 {
        return None;
    }
    // Accumulate the value of the digit run.
    let mut k: usize = 0;
    let mut acc: u128 = 0;
    let mut overflowed = false;
    while k < i
        invariant
            0 <= k <= i <= len,
            len == s@.len(),
            forall|j: int| 0 <= j < i ==> spec_is_digit(#[trigger] s@[j]),
            !overflowed ==> acc == spec_digits_val(s@.subrange(0, k as int)),
            overflowed ==> spec_digits_val(s@.subrange(0, k as int)) > u64::MAX,
            acc <= u64::MAX as u128,
        decreases i - k,
    {
        let c = s.get_char(k);
        let d: u128 = (c as u32 as u128) - ('0' as u32 as u128);
        proof {
            let pre = s@.subrange(0, k as int);
            let cur = s@.subrange(0, k + 1 as int);
            assert(cur.drop_last() =~= pre);
            assert(cur.last() == s@[k as int]);
            assert(spec_digits_val(cur) == spec_digits_val(pre) * 10 + d);
            if overflowed {
                lemma_digits_val_nonneg(pre);
            }
        }
        if !overflowed {
            let next = acc * 10 + d;
            if next > u64::MAX as u128 {
                overflowed = true;
            } else {
                acc = next;
            }
        }
        k = k + 1;
    }
    // Read the suffix.
    let rest = len - i;
    let scale: u128 = if rest == 0 {
        1
    } else if rest == 1 {
        let c = s.get_char(i);
        if c == 'k' {
            1000
        } else if c == 'M' {
            1000000
        } else if c == 'G' {
            1000000000
        } else if c == 'T' {
            1000000000000
        } else if c == 'P' {
            1000000000000000
        } else if c == 'E' {
            1000000000000000000
        } else {
            proof {
                assert(s@.subrange(i as int, len as int).len() == 1);
                assert(s@.subrange(i as int, len as int)[0] == s@[i as int]);
            }
            return None;
        }
    } else if rest == 2 && s.get_char(i + 1) == 'i' {
        let c = s.get_char(i);
        if c == 'K' {
            0x400
        } else if c == 'M' {
            0x100000
        } else if c == 'G' {
            0x40000000
        } else if c == 'T' {
            0x10000000000
        } else if c == 'P' {
            0x4000000000000
        } else if c == 'E' {
            0x1000000000000000
        } else {
            proof {
                assert(s@.subrange(i as int, len as int).len() == 2);
                assert(s@.subrange(i as int, len as int)[0] == s@[i as int]);
                assert(s@.subrange(i as int, len as int)[1] == s@[i + 1]);
            }
            return None;
        }
    } else {
        proof {
            let suf = s@.subrange(i as int, len as int);
            assert(suf.len() == rest);
            if rest == 2 {
                assert(suf[1] == s@[i + 1]);
            }
        }
        return None;
    };
    proof {
        let suf = s@.subrange(i as int, len as int);
        assert(suf.len() == rest);
        if rest >= 1 {
            assert(suf[0] == s@[i as int]);
        }
        if rest == 2 {
            assert(suf[1] == s@[i + 1]);
        }
        assert(spec_suffix_scale(suf) == Some(scale as int));
    }
    if overflowed {
        proof {
            let pre = s@.subrange(0, i as int);
            lemma_digits_val_nonneg(pre);
            vstd::arithmetic::mul::lemma_mul_inequality(1, scale as int, spec_digits_val(pre));
            vstd::arithmetic::mul::lemma_mul_is_commutative(scale as int, spec_digits_val(pre));
        }
        return None;
    }
    let total = acc * scale;
    proof {
        let pre = s@.subrange(0, i as int);
        assert(acc * scale == spec_digits_val(pre) * scale as int);
    }
    if total > u64::MAX as u128 {
        return None;
    }
    Some(total as u64)
}

/// The heap size the JVM gets, in whole mebibytes: eight tenths of the
/// memory limit, rounded down.
pub open spec fn spec_heap_mib(bytes: int) -> int {
    (bytes * 8 / 10) / 0x100000
}

/// Computes the heap size in mebibytes from the memory limit in bytes.
pub fn heap_mib(bytes: u64) -> (r: u64)
    ensures
        r as int == spec_heap_mib(bytes as int),
{
    let scaled = (bytes as u128) * 8 / 10;
    let mib = scaled / 0x100000;
    proof {
        assert(mib <= u64::MAX as u128);
    }
    mib as u64
}

} // verus!
