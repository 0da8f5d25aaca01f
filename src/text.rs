//! Byte-level text handling for the shell: trimming, splitting an argument
//! into three fields, reading unsigned numerals and writing decimals.
use vstd::prelude::*;

verus! {

/// ASCII whitespace: space, tab, line feed, form feed, carriage return.
pub open spec fn is_space(b: u8) -> bool {
    b == 32 || b == 9 || b == 10 || b == 12 || b == 13
}

pub open spec fn is_digit(b: u8) -> bool {
    48 <= b <= 57
}

pub open spec fn trim_start(s: Seq<u8>) -> Seq<u8>
    decreases s.len(),
{
    if s.len() > 0 && is_space(s[0]) {
        trim_start(s.drop_first())
    } else {
        s
    }
}

pub open spec fn trim_end(s: Seq<u8>) -> Seq<u8>
    decreases s.len(),
{
    if s.len() > 0 && is_space(s.last()) {
        trim_end(s.drop_last())
    } else {
        s
    }
}

/// `s` without leading and trailing whitespace.
pub open spec fn trim(s: Seq<u8>) -> Seq<u8> {
    trim_end(trim_start(s))
}

/// Value of a run of decimal digits, most significant first.
pub open spec fn digits_value(d: Seq<u8>) -> int
    decreases d.len(),
{
    if d.len() == 0 {
        0
    } else {
        digits_value(d.drop_last()) * 10 + (d.last() - 48)
    }
}

/// The digits of a numeral: an optional leading `+` is dropped.
pub open spec fn numeral_digits(s: Seq<u8>) -> Seq<u8> {
    if s.len() > 0 && s[0] == 43 {
        s.drop_first()
    } else {
        s
    }
}

/// An unsigned numeral: an optional `+` and then one or more decimal digits.
pub open spec fn is_numeral(s: Seq<u8>) -> bool {
    let d = numeral_digits(s);
    d.len() > 0 && forall|i: int| 0 <= i < d.len() ==> is_digit(#[trigger] d[i])
}

pub open spec fn numeral_value(s: Seq<u8>) -> int {
    digits_value(numeral_digits(s))
}

/// `s` reads as an unsigned number no larger than `max`.
pub open spec fn reads_as(s: Seq<u8>, max: int) -> bool {
    is_numeral(s) && numeral_value(s) <= max
}

/// `s` holds `sep` exactly at `p` and `q` and nowhere else.
pub open spec fn fields_at(s: Seq<u8>, sep: u8, p: int, q: int) -> bool {
    &&& 0 <= p < q < s.len()
    &&& s[p] == sep
    &&& s[q] == sep
    &&& forall|i: int| 0 <= i < s.len() && i != p && i != q ==> #[trigger] s[i] != sep
}

/// `s` splits at `sep` into exactly three fields.
pub open spec fn has_three_fields(s: Seq<u8>, sep: u8) -> bool {
    exists|p: int, q: int| fields_at(s, sep, p, q)
}

pub open spec fn separator_positions(s: Seq<u8>, sep: u8) -> (int, int) {
    choose|p: int, q: int| fields_at(s, sep, p, q)
}

/// Field `k` (0, 1 or 2) of `s` split at `sep`.
pub open spec fn field(s: Seq<u8>, sep: u8, k: int) -> Seq<u8> {
    let (p, q) = separator_positions(s, sep);
    if k == 0 {
        s.subrange(0, p)
    } else if k == 1 {
        s.subrange(p + 1, q)
    } else {
        s.subrange(q + 1, s.len() as int)
    }
}

/// Copy of `s[start..end]`.
pub fn copy_range(s: &Vec<u8>, start: usize, end: usize) -> (r: Vec<u8>)
    requires
        start <= end <= s@.len(),
    ensures
        r@ == s@.subrange(start as int, end as int),
{
    let mut r: Vec<u8> = Vec::new();
    let mut i: usize = start;
    while i < end
        invariant
            start <= i <= end <= s@.len(),
            r@ == s@.subrange(start as int, i as int),
        decreases end - i,
    {
        r.push(s[i]);
        i = i + 1;
    }
    r
}

/// Bounds of `s` with leading and trailing whitespace left out.
pub fn trim_bounds(s: &Vec<u8>) -> (r: (usize, usize))
    ensures
        r.0 <= r.1 <= s@.len(),
        s@.subrange(r.0 as int, r.1 as int) == trim(s@),
{
    let n = s.len();
    let mut i: usize = 0;
    proof {
        assert(s@.subrange(0, n as int) =~= s@);
    }
    while i < n && (s[i] == 32 || s[i] == 9 || s[i] == 10 || s[i] == 12 || s[i] == 13)
        invariant
            i <= n == s@.len(),
            trim_start(s@.subrange(i as int, n as int)) == trim_start(s@),
        decreases n - i,
    {
        proof {
            assert(s@.subrange(i as int, n as int).drop_first() =~= s@.subrange(i + 1, n as int));
        }
        i = i + 1;
    }
    let mut j: usize = n;
    while j > i && (s[j - 1] == 32 || s[j - 1] == 9 || s[j - 1] == 10 || s[j - 1] == 12 || s[j
        - 1] == 13)
        invariant
            i <= j <= n == s@.len(),
            trim_start(s@) == s@.subrange(i as int, n as int),
            trim_end(s@.subrange(i as int, j as int)) == trim(s@),
        decreases j - i,
    {
        proof {
            assert(s@.subrange(i as int, j as int).drop_last() =~= s@.subrange(
                i as int,
                j - 1,
            ));
        }
        j = j - 1;
    }
    (i, j)
}

proof fn lemma_prefix_value_le(d: Seq<u8>, k: int)
    requires
        0 <= k <= d.len(),
        forall|i: int| 0 <= i < d.len() ==> is_digit(#[trigger] d[i]),
    ensures
        0 <= digits_value(d.subrange(0, k)) <= digits_value(d),
    decreases d.len(),
{
    if k == d.len() {
        assert(d.subrange(0, k) =~= d);
        if d.len() > 0 {
            lemma_prefix_value_le(d.drop_last(), k - 1);
        }
    } else {
        lemma_prefix_value_le(d.drop_last(), k);
        assert(d.drop_last().subrange(0, k) =~= d.subrange(0, k));
    }
}

/// Reads `s[start..end]` as an unsigned numeral no larger than `max`.
pub fn parse_numeral(s: &Vec<u8>, start: usize, end: usize, max: u32) -> (r: Option<u32>)
    requires
        start <= end <= s@.len(),
        max <= 0xFFFF,
    ensures
        r == (if reads_as(s@.subrange(start as int, end as int), max as int) {
            Some(numeral_value(s@.subrange(start as int, end as int)) as u32)
        } else {
            None
        }),
        r matches Some(v) ==> v as int == numeral_value(s@.subrange(start as int, end as int)),
{
    let ghost t = s@.subrange(start as int, end as int);
    let mut i: usize = start;
    if i < end && s[i] == 43 {
        i = i + 1;
    }
    let first = i;
    let ghost d = numeral_digits(t);
    assert(d =~= s@.subrange(first as int, end as int));
    if i == end {
        return None;
    }
    let mut value: u32 = 0;
    while i < end
        invariant
            first <= i <= end <= s@.len(),
            first < end,
            d == s@.subrange(first as int, end as int),
            t == s@.subrange(start as int, end as int),
            d == numeral_digits(t),
            max <= 0xFFFF,
            value <= max,
            forall|k: int| 0 <= k < i - first ==> is_digit(#[trigger] d[k]),
            value == digits_value(d.subrange(0, i - first)),
        decreases end - i,
    {
        let b = s[i];
        if b < 48 || b > 57 {
            assert(!is_digit(d[i - first]));
            return None;
        }
        proof {
            assert(d.subrange(0, i - first + 1).drop_last() =~= d.subrange(0, i - first));
        }
        value = value * 10 + (b - 48) as u32;
        i = i + 1;
        if value > max {
            proof {
                if is_numeral(t) {
                    lemma_prefix_value_le(d, i - first);
                }
            }
            return None;
        }
    }
    assert(d.subrange(0, d.len() as int) =~= d);
    Some(value)
}

/// Finds the two separators of `s` when it splits at `sep` into exactly three fields.
pub fn find_separators(s: &Vec<u8>, sep: u8) -> (r: Option<(usize, usize)>)
    ensures
        r is Some <==> has_three_fields(s@, sep),
        r matches Some((p, q)) ==> fields_at(s@, sep, p as int, q as int),
{
    let mut found: usize = 0;
    let mut p: usize = 0;
    let mut q: usize = 0;
    let mut i: usize = 0;
    while i < s.len()
        invariant
            i <= s@.len(),
            found <= 2,
            found == 0 ==> forall|j: int| 0 <= j < i ==> #[trigger] s@[j] != sep,
            found == 1 ==> p < i && s@[p as int] == sep && forall|j: int|
                0 <= j < i && j != p ==> #[trigger] s@[j] != sep,
            found == 2 ==> p < q < i && s@[p as int] == sep && s@[q as int] == sep && forall|
                j: int,
            |
                0 <= j < i && j != p && j != q ==> #[trigger] s@[j] != sep,
        decreases s@.len() - i,
    {
        if s[i] == sep {
            if found == 2 {
                assert(!has_three_fields(s@, sep)) by {
                    if exists|a: int, b: int| fields_at(s@, sep, a, b) {
                        let (a, b) = choose|a: int, b: int| fields_at(s@, sep, a, b);
                        assert(s@[p as int] == sep && s@[q as int] == sep && s@[i as int] == sep);
                    }
                }
                return None;
            } else if found == 1 {
                q = i;
            } else {
                p = i;
            }
            found = found + 1;
        }
        i = i + 1;
    }
    if found == 2 {
        assert(fields_at(s@, sep, p as int, q as int));
        Some((p, q))
    } else {
        assert(!has_three_fields(s@, sep)) by {
            if exists|a: int, b: int| fields_at(s@, sep, a, b) {
                let (a, b) = choose|a: int, b: int| fields_at(s@, sep, a, b);
                assert(s@[a] == sep && s@[b] == sep);
            }
        }
        None
    }
}

/// The separators that `find_separators` reports are the ones `field` uses.
proof fn lemma_separators_unique(s: Seq<u8>, sep: u8, p: int, q: int)
    requires
        fields_at(s, sep, p, q),
    ensures
        separator_positions(s, sep) == (p, q),
{
    let (a, b) = separator_positions(s, sep);
    assert(fields_at(s, sep, a, b));
    assert(s[p] == sep && s[q] == sep && s[a] == sep && s[b] == sep);
}

/// Three numbers read from `window`: whitespace trimmed off both ends, then
/// exactly three fields split at `sep`, each an unsigned numeral within its
/// maximum.
pub open spec fn three_numbers(window: Seq<u8>, sep: u8, max0: int, max1: int, max2: int) -> Option<
    (int, int, int),
> {
    let t = trim(window);
    if has_three_fields(t, sep) && reads_as(field(t, sep, 0), max0) && reads_as(
        field(t, sep, 1),
        max1,
    ) && reads_as(field(t, sep, 2), max2) {
        Some(
            (
                numeral_value(field(t, sep, 0)),
                numeral_value(field(t, sep, 1)),
                numeral_value(field(t, sep, 2)),
            ),
        )
    } else {
        None
    }
}

/// Reads three numbers from `window` as `three_numbers` describes.
pub fn parse_three_numbers(window: &Vec<u8>, sep: u8, max0: u32, max1: u32, max2: u32) -> (r:
    Option<(u32, u32, u32)>)
    requires
        max0 <= 0xFFFF,
        max1 <= 0xFFFF,
        max2 <= 0xFFFF,
    ensures
        r matches Some((a, b, c)) ==> three_numbers(
            window@,
            sep,
            max0 as int,
            max1 as int,
            max2 as int,
        ) == Some((a as int, b as int, c as int)),
        r is None <==> three_numbers(window@, sep, max0 as int, max1 as int, max2 as int) is None,
{
    let (lo, hi) = trim_bounds(window);
    let t = copy_range(window, lo, hi);
    match find_separators(&t, sep) {
        None => None,
        Some((p, q)) => {
            proof {
                lemma_separators_unique(t@, sep, p as int, q as int);
            }
            let a = parse_numeral(&t, 0, p, max0);
            let b = parse_numeral(&t, p + 1, q, max1);
            let c = parse_numeral(&t, q + 1, t.len(), max2);
            match (a, b, c) {
                (Some(a), Some(b), Some(c)) => Some((a, b, c)),
                _ => None,
            }
        },
    }
}

/// Decimal digits of `n`, most significant first, with no leading zeros.
pub open spec fn decimal(n: nat) -> Seq<u8>
    decreases n,
{
    if n < 10 {
        seq![(48 + n) as u8]
    } else {
        decimal(n / 10).push((48 + n % 10) as u8)
    }
}

/// `decimal(n)` preceded by zeros up to `width` digits.
pub open spec fn zero_padded(n: nat, width: nat) -> Seq<u8> {
    let d = decimal(n);
    if d.len() < width {
        Seq::new((width - d.len()) as nat, |i: int| 48u8) + d
    } else {
        d
    }
}

pub open spec fn pow10(k: nat) -> nat
    decreases k,
{
    if k == 0 {
        1
    } else {
        10 * pow10((k - 1) as nat)
    }
}

pub proof fn lemma_decimal_len_bound(n: nat, k: nat)
    requires
        k >= 1,
        n < pow10(k),
    ensures
        decimal(n).len() <= k,
    decreases k,
{
    if n >= 10 {
        reveal_with_fuel(pow10, 2);
        assert(k >= 2);
        let k1 = (k - 1) as nat;
        assert(n / 10 < pow10(k1)) by (nonlinear_arith)
            requires
                n < 10 * pow10(k1),
        ;
        lemma_decimal_len_bound(n / 10, k1);
    }
}

/// A 64-bit number has at most twenty decimal digits.
proof fn lemma_u64_decimal_len(n: u64)
    ensures
        decimal(n as nat).len() <= 20,
{
    reveal_with_fuel(pow10, 21);
    assert(pow10(20) == 100000000000000000000);
    lemma_decimal_len_bound(n as nat, 20);
}

/// Appends the decimal digits of `n`.
pub fn push_decimal(out: &mut Vec<u8>, n: u64)
    ensures
        final(out)@ == old(out)@ + decimal(n as nat),
    decreases n,
{
    if n >= 10 {
        push_decimal(out, n / 10);
    }
    out.push(48 + (n % 10) as u8);
    proof {
        assert(final(out)@ =~= old(out)@ + decimal(n as nat));
    }
}

/// Number of decimal digits of `n`.
pub fn decimal_len(n: u64) -> (r: usize)
    ensures
        r == decimal(n as nat).len(),
        1 <= r <= 20,
    decreases n,
{
    proof {
        lemma_u64_decimal_len(n);
    }
    if n < 10 {
        1
    } else {
        1 + decimal_len(n / 10)
    }
}

/// Appends `n` in decimal, padded with leading zeros to at least `width` digits.
pub fn push_zero_padded(out: &mut Vec<u8>, n: u64, width: usize)
    requires
        width <= 20,
    ensures
        final(out)@ == old(out)@ + zero_padded(n as nat, width as nat),
{
    let len = decimal_len(n);
    let ghost start = out@;
    if len < width {
        let mut k: usize = 0;
        while k < width - len
            invariant
                len < width,
                k <= width - len,
                out@ == start + Seq::new(k as nat, |i: int| 48u8),
            decreases width - len - k,
        {
            out.push(48);
            k = k + 1;
            proof {
                assert(out@ =~= start + Seq::new(k as nat, |i: int| 48u8));
            }
        }
    }
    let ghost mid = out@;
    push_decimal(out, n);
    proof {
        assert(out@ =~= start + zero_padded(n as nat, width as nat));
    }
}

/// Writes the decimal digits of `num` at the start of `buffer` and returns
/// how many were written; the rest of the buffer is left as it was.
pub fn num_to_str(num: u64, buffer: &mut [u8]) -> (len: usize)
    requires
        old(buffer)@.len() >= 20,
    ensures
        len == decimal(num as nat).len(),
        final(buffer)@.len() == old(buffer)@.len(),
        final(buffer)@.subrange(0, len as int) == decimal(num as nat),
        final(buffer)@.subrange(len as int, final(buffer)@.len() as int) == old(buffer)@.subrange(
            len as int,
            old(buffer)@.len() as int,
        ),
{
    let mut digits: Vec<u8> = Vec::new();
    push_decimal(&mut digits, num);
    proof {
        lemma_u64_decimal_len(num);
        assert(digits@ =~= decimal(num as nat));
    }
    let len = digits.len();
    let mut i: usize = 0;
    while i < len
        invariant
            len == digits@.len() <= 20,
            old(buffer)@.len() >= 20,
            digits@ == decimal(num as nat),
            i <= len,
            buffer@.len() == old(buffer)@.len(),
            forall|j: int| 0 <= j < i ==> #[trigger] buffer@[j] == digits@[j],
            forall|j: int| i <= j < buffer@.len() ==> #[trigger] buffer@[j] == old(buffer)@[j],
        decreases len - i,
    {
        buffer[i] = digits[i];
        i = i + 1;
    }
    proof {
        assert(buffer@.subrange(0, len as int) =~= decimal(num as nat));
        assert(buffer@.subrange(len as int, buffer@.len() as int) =~= old(buffer)@.subrange(
            len as int,
            old(buffer)@.len() as int,
        ));
    }
    len
}

} // verus!
