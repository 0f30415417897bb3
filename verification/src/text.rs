//! Text building blocks: decimal and hexadecimal rendering of integers
//! and character-level string helpers, each with the exact character
//! sequence it produces.

use vstd::prelude::*;

verus! {

/// The digit character for a value below sixteen (lower-case hex).
pub open spec fn digit_char(d: int) -> char {
    if d == 0 {
        '0'
    } else if d == 1 {
        '1'
    } else if d == 2 {
        '2'
    } else if d == 3 {
        '3'
    } else if d == 4 {
        '4'
    } else if d == 5 {
        '5'
    } else if d == 6 {
        '6'
    } else if d == 7 {
        '7'
    } else if d == 8 {
        '8'
    } else if d == 9 {
        '9'
    } else if d == 10 {
        'a'
    } else if d == 11 {
        'b'
    } else if d == 12 {
        'c'
    } else if d == 13 {
        'd'
    } else if d == 14 {
        'e'
    } else {
        'f'
    }
}

/// Decimal digits of `n`, most significant first, no leading zeros
/// (`0` renders as `"0"`).
pub open spec fn decimal(n: nat) -> Seq<char>
    decreases n,
{
    if n < 10 {
        seq![digit_char(n as int)]
    } else {
        decimal(n / 10).push(digit_char((n % 10) as int))
    }
}

/// Lower-case hexadecimal digits of `n`, most significant first, no
/// leading zeros (`0` renders as `"0"`).
pub open spec fn hex(n: nat) -> Seq<char>
    decreases n,
{
    if n < 16 {
        seq![hex_digit(n)]
    } else {
        hex(n / 16).push(hex_digit(n % 16))
    }
}

/// One lower-case hex digit.
pub open spec fn hex_digit(d: nat) -> char {
    digit_char(d as int)
}

/// `count` copies of the character `'0'`.
pub open spec fn zeros(count: int) -> Seq<char> {
    Seq::new(if count > 0 { count as nat } else { 0 }, |i: int| '0')
}

/// Lower-case hex of `n` left-padded with zeros to at least `width`
/// characters, as the `{:0width$x}` format does.
pub open spec fn hex_padded(n: nat, width: nat) -> Seq<char> {
    zeros(width - hex(n).len()) + hex(n)
}

/// `0x`-prefixed lower-case hex of `n`, as the `{:#x}` format does.
pub open spec fn hex_prefixed(n: nat) -> Seq<char> {
    seq!['0', 'x'] + hex(n)
}

/// Signed decimal rendering: a leading `-` for negative values.
pub open spec fn signed_decimal(v: int) -> Seq<char> {
    if v < 0 {
        seq!['-'] + decimal((-v) as nat)
    } else {
        decimal(v as nat)
    }
}

/// Append one character to a string.
///
/// Trusted: calls `String::push`, whose documentation says it appends
/// the given `char` to the end of the `String`.
#[verifier::external_body]
pub(crate) fn push_char(s: &mut String, c: char)
    ensures
        final(s)@ == old(s)@.push(c),
{
    s.push(c);
}

/// The digit character of `d` (`d < 16`).
pub fn digit(d: u64) -> (c: char)
    requires
        d < 16,
    ensures
        c == digit_char(d as int),
{
    if d == 0 {
        '0'
    } else if d == 1 {
        '1'
    } else if d == 2 {
        '2'
    } else if d == 3 {
        '3'
    } else if d == 4 {
        '4'
    } else if d == 5 {
        '5'
    } else if d == 6 {
        '6'
    } else if d == 7 {
        '7'
    } else if d == 8 {
        '8'
    } else if d == 9 {
        '9'
    } else if d == 10 {
        'a'
    } else if d == 11 {
        'b'
    } else if d == 12 {
        'c'
    } else if d == 13 {
        'd'
    } else if d == 14 {
        'e'
    } else {
        'f'
    }
}

/// Append the decimal digits of `n`.
pub fn push_decimal(out: &mut String, n: u64)
    ensures
        final(out)@ == old(out)@ + decimal(n as nat),
    decreases n,
{
    if n >= 10 {
        push_decimal(out, n / 10);
    }
    push_char(out, digit(n % 10));
    assert(decimal(n as nat) =~= if n < 10 {
        seq![digit_char(n as int)]
    } else {
        decimal((n / 10) as nat).push(digit_char((n % 10) as int))
    });
}

/// Append the lower-case hex digits of `n`.
pub fn push_hex(out: &mut String, n: u64)
    ensures
        final(out)@ == old(out)@ + hex(n as nat),
    decreases n,
{
    if n >= 16 {
        push_hex(out, n / 16);
    }
    push_char(out, digit(n % 16));
    assert(hex(n as nat) =~= if n < 16 {
        seq![hex_digit(n as nat)]
    } else {
        hex((n / 16) as nat).push(hex_digit((n % 16) as nat))
    });
}

/// Number of hex digits of `n`.
pub fn hex_len(n: u64) -> (len: usize)
    ensures
        len == hex(n as nat).len(),
        1 <= len <= 16,
    decreases n,
{
    proof {
        lemma_hex_len_bound(n as nat);
    }
    if n >= 16 {
        hex_len(n / 16) + 1
    } else {
        1
    }
}

/// Sixteen to the power `k`.
pub open spec fn pow16(k: nat) -> nat
    decreases k,
{
    if k == 0 {
        1
    } else {
        16 * pow16((k - 1) as nat)
    }
}

/// A value below `16^k` has at most `k` hex digits.
pub proof fn lemma_hex_len_pow(n: nat, k: nat)
    requires
        n < pow16(k),
    ensures
        hex(n).len() <= if k == 0 { 1 } else { k },
    decreases n,
{
    if n >= 16 {
        assert(k >= 1);
        let p = pow16((k - 1) as nat);
        assert(n < 16 * p);
        assert(n / 16 < p) by (nonlinear_arith)
            requires
                n < 16 * p,
        ;
        lemma_hex_len_pow(n / 16, (k - 1) as nat);
        if k == 1 {
            assert(p == 1);
        }
    }
}

/// Hex digit count is at least one, and at most sixteen for any value
/// that fits in 64 bits.
pub proof fn lemma_hex_len_bound(n: nat)
    ensures
        hex(n).len() >= 1,
        n < 0x1_0000_0000_0000_0000 ==> hex(n).len() <= 16,
    decreases n,
{
    if n >= 16 {
        lemma_hex_len_bound(n / 16);
    }
    reveal_with_fuel(pow16, 17);
    if n < 0x1_0000_0000_0000_0000 {
        lemma_hex_len_pow(n, 16);
    }
}

/// Append the lower-case hex of `n`, zero-padded to `width` characters.
pub fn push_hex_padded(out: &mut String, n: u64, width: usize)
    ensures
        final(out)@ == old(out)@ + hex_padded(n as nat, width as nat),
{
    let len = hex_len(n);
    let ghost start = out@;
    let mut i: usize = len;
    while i < width
        invariant
            len <= i <= if width > len { width } else { len },
            len == hex(n as nat).len(),
            out@ == start + zeros(i - len),
        decreases width - i,
    {
        push_char(out, '0');
        assert(zeros(i + 1 - len) =~= zeros(i - len).push('0'));
        i = i + 1;
    }
    assert(zeros(i - len) =~= zeros(width - hex(n as nat).len()));
    push_hex(out, n);
}

/// Append `0x` followed by the lower-case hex of `n`.
pub fn push_hex_prefixed(out: &mut String, n: u64)
    ensures
        final(out)@ == old(out)@ + hex_prefixed(n as nat),
{
    push_char(out, '0');
    push_char(out, 'x');
    push_hex(out, n);
    assert(old(out)@.push('0').push('x') + hex(n as nat) =~= old(out)@ + hex_prefixed(n as nat));
}

/// Append the signed decimal rendering of `v`.
pub fn push_signed_decimal(out: &mut String, v: i64)
    ensures
        final(out)@ == old(out)@ + signed_decimal(v as int),
{
    if v < 0 {
        push_char(out, '-');
        let magnitude: u64 = ((-(v + 1)) as u64) + 1;
        push_decimal(out, magnitude);
        assert(old(out)@.push('-') + decimal(magnitude as nat) =~= old(out)@ + (seq!['-']
            + decimal(magnitude as nat)));
    } else {
        push_decimal(out, v as u64);
    }
}

/// Character-wise equality of two strings.
pub fn str_eq(a: &str, b: &str) -> (r: bool)
    ensures
        r == (a@ == b@),
{
    let n = a.unicode_len();
    let m = b.unicode_len();
    if n != m {
        return false;
    }
    let mut i: usize = 0;
    while i < n
        invariant
            n == a@.len(),
            m == b@.len(),
            n == m,
            i <= n,
            forall|j: int| 0 <= j < i ==> a@[j] == b@[j],
        decreases n - i,
    {
        if a.get_char(i) != b.get_char(i) {
            return false;
        }
        i = i + 1;
    }
    assert(a@ =~= b@);
    true
}

/// Lexicographic order on character sequences, as `str` comparison
/// orders them: the first differing character decides, and a proper
/// prefix sorts first.
pub open spec fn seq_less(a: Seq<char>, b: Seq<char>) -> bool
    decreases a.len(),
{
    if a.len() == 0 {
        b.len() > 0
    } else if b.len() == 0 {
        false
    } else if a[0] != b[0] {
        (a[0] as u32) < (b[0] as u32)
    } else {
        seq_less(a.drop_first(), b.drop_first())
    }
}

/// No sequence sorts before itself.
pub proof fn lemma_seq_less_irreflexive(a: Seq<char>)
    ensures
        !seq_less(a, a),
    decreases a.len(),
{
    if a.len() > 0 {
        lemma_seq_less_irreflexive(a.drop_first());
    }
}

/// Sorting before is transitive.
pub proof fn lemma_seq_less_transitive(a: Seq<char>, b: Seq<char>, c: Seq<char>)
    requires
        seq_less(a, b),
        seq_less(b, c),
    ensures
        seq_less(a, c),
    decreases a.len(),
{
    if a.len() > 0 && b.len() > 0 && c.len() > 0 && a[0] == b[0] && b[0] == c[0] {
        lemma_seq_less_transitive(a.drop_first(), b.drop_first(), c.drop_first());
    }
}

/// Whether `a` sorts strictly before `b`.
pub fn str_less(a: &str, b: &str) -> (r: bool)
    ensures
        r == seq_less(a@, b@),
{
    let n = a.unicode_len();
    let m = b.unicode_len();
    let mut i: usize = 0;
    assert(a@.skip(0) =~= a@);
    assert(b@.skip(0) =~= b@);
    while i < n && i < m
        invariant
            n == a@.len(),
            m == b@.len(),
            i <= n,
            i <= m,
            seq_less(a@, b@) == seq_less(a@.skip(i as int), b@.skip(i as int)),
        decreases n - i,
    {
        let ca = a.get_char(i);
        let cb = b.get_char(i);
        assert(a@.skip(i as int)[0] == ca);
        assert(b@.skip(i as int)[0] == cb);
        if ca != cb {
            return (ca as u32) < (cb as u32);
        }
        assert(a@.skip(i as int).drop_first() =~= a@.skip(i + 1));
        assert(b@.skip(i as int).drop_first() =~= b@.skip(i + 1));
        i = i + 1;
    }
    i < m
}

/// Unicode `White_Space`, the set `char::is_whitespace` tests.
pub open spec fn is_ws(c: char) -> bool {
    let v = c as u32;
    ||| 0x09 <= v <= 0x0d
    ||| v == 0x20
    ||| v == 0x85
    ||| v == 0xa0
    ||| v == 0x1680
    ||| 0x2000 <= v <= 0x200a
    ||| v == 0x2028
    ||| v == 0x2029
    ||| v == 0x202f
    ||| v == 0x205f
    ||| v == 0x3000
}

/// Whether `c` is whitespace.
pub fn is_whitespace(c: char) -> (r: bool)
    ensures
        r == is_ws(c),
{
    let v = c as u32;
    (0x09 <= v && v <= 0x0d) || v == 0x20 || v == 0x85 || v == 0xa0 || v == 0x1680 || (0x2000 <= v
        && v <= 0x200a) || v == 0x2028 || v == 0x2029 || v == 0x202f || v == 0x205f || v == 0x3000
}

/// `s` without its leading whitespace.
pub open spec fn trim_start(s: Seq<char>) -> Seq<char>
    decreases s.len(),
{
    if s.len() > 0 && is_ws(s[0]) {
        trim_start(s.drop_first())
    } else {
        s
    }
}

/// `s` without its trailing whitespace.
pub open spec fn trim_end(s: Seq<char>) -> Seq<char>
    decreases s.len(),
{
    if s.len() > 0 && is_ws(s.last()) {
        trim_end(s.drop_last())
    } else {
        s
    }
}

/// `s` without leading and trailing whitespace, as `str::trim` gives.
pub open spec fn trim(s: Seq<char>) -> Seq<char> {
    trim_end(trim_start(s))
}

/// Trimming the first `i` characters keeps `trim_start` when they are
/// all whitespace.
proof fn lemma_trim_start_skip(s: Seq<char>, i: int)
    requires
        0 <= i <= s.len(),
        forall|k: int| 0 <= k < i ==> is_ws(#[trigger] s[k]),
    ensures
        trim_start(s) == trim_start(s.skip(i)),
    decreases i,
{
    if i > 0 {
        assert(s.drop_first().skip(i - 1) =~= s.skip(i));
        lemma_trim_start_skip(s.drop_first(), i - 1);
    } else {
        assert(s.skip(0) =~= s);
    }
}

/// Dropping trailing whitespace keeps `trim_end`.
proof fn lemma_trim_end_take(s: Seq<char>, j: int)
    requires
        0 <= j <= s.len(),
        forall|k: int| j <= k < s.len() ==> is_ws(#[trigger] s[k]),
    ensures
        trim_end(s) == trim_end(s.take(j)),
    decreases s.len() - j,
{
    if j < s.len() {
        assert(s.drop_last().take(j) =~= s.take(j));
        lemma_trim_end_take(s.drop_last(), j);
    } else {
        assert(s.take(j) =~= s);
    }
}

/// `s` without leading and trailing whitespace.
pub fn trim_whitespace(s: &str) -> (r: String)
    ensures
        r@ == trim(s@),
{
    let n = s.unicode_len();
    let mut i: usize = 0;
    while i < n && is_whitespace(s.get_char(i))
        invariant
            n == s@.len(),
            i <= n,
            forall|k: int| 0 <= k < i ==> is_ws(#[trigger] s@[k]),
        decreases n - i,
    {
        i = i + 1;
    }
    proof {
        lemma_trim_start_skip(s@, i as int);
        if i < n {
            assert(s@.skip(i as int)[0] == s@[i as int]);
        }
    }
    assert(trim_start(s@) == s@.skip(i as int));
    let mut j: usize = n;
    while j > i && is_whitespace(s.get_char(j - 1))
        invariant
            n == s@.len(),
            i <= j <= n,
            forall|k: int| j <= k < n ==> is_ws(#[trigger] s@[k]),
        decreases j,
    {
        j = j - 1;
    }
    let ghost t = s@.skip(i as int);
    proof {
        assert forall|k: int| (j - i) <= k < t.len() implies is_ws(#[trigger] t[k]) by {
            assert(t[k] == s@[k + i]);
        }
        lemma_trim_end_take(t, (j - i) as int);
        let u = t.take((j - i) as int);
        if j > i {
            assert(u.last() == s@[j - 1]);
        }
        assert(u =~= s@.subrange(i as int, j as int));
    }
    String::from_str(s.substring_char(i, j))
}

/// Append every character of `s`.
pub fn push_str(out: &mut String, s: &str)
    ensures
        final(out)@ == old(out)@ + s@,
{
    out.append(s);
}

/// The value of a string of lower-case hex digits (or decimal digits)
/// in base `base`, most significant first.
pub open spec fn digits_in_base(s: Seq<char>, base: int) -> int
    decreases s.len(),
{
    if s.len() == 0 {
        0
    } else {
        let c = s.last() as int;
        let d = if c <= '9' as int {
            c - '0' as int
        } else {
            c - 'a' as int + 10
        };
        digits_in_base(s.drop_last(), base) * base + d
    }
}

/// The digit characters: `0`-`9`, then `a`-`f` for ten to fifteen.
pub proof fn lemma_digit_chars()
    ensures
        digit_char(0) == '0',
        digit_char(1) == '1',
        digit_char(2) == '2',
        digit_char(3) == '3',
        digit_char(4) == '4',
        digit_char(5) == '5',
        digit_char(6) == '6',
        digit_char(7) == '7',
        digit_char(8) == '8',
        digit_char(9) == '9',
        digit_char(10) == 'a',
        digit_char(11) == 'b',
        digit_char(12) == 'c',
        digit_char(13) == 'd',
        digit_char(14) == 'e',
        digit_char(15) == 'f',
{
}

proof fn lemma_digit_code(d: int)
    requires
        0 <= d < 16,
    ensures
        d < 10 ==> digit_char(d) as int == '0' as int + d && digit_char(d) as int <= '9' as int,
        d >= 10 ==> digit_char(d) as int == 'a' as int + d - 10 && digit_char(d) as int > '9' as int,
{
}

/// Decimal rendering spells `n` in base ten with digits `0`-`9` and no
/// leading zero (other than `0` itself).
pub proof fn lemma_decimal_reads_back(n: nat)
    ensures
        decimal(n).len() >= 1,
        digits_in_base(decimal(n), 10) == n,
        forall|i: int| 0 <= i < decimal(n).len() ==> '0' <= #[trigger] decimal(n)[i] <= '9',
        n > 0 ==> decimal(n)[0] != '0',
    decreases n,
{
    lemma_digit_code((n % 10) as int);
    if n < 10 {
        assert(decimal(n).drop_last() =~= Seq::<char>::empty());
        assert(decimal(n).last() == digit_char(n as int));
        assert(digits_in_base(decimal(n), 10) == digits_in_base(Seq::<char>::empty(), 10) * 10 + n);
    }
    if n >= 10 {
        lemma_decimal_reads_back(n / 10);
        let s = decimal(n);
        assert(n == (n / 10) * 10 + n % 10);
        assert(s.last() == digit_char((n % 10) as int));
        assert(digits_in_base(s, 10) == digits_in_base(s.drop_last(), 10) * 10 + (n % 10));
        assert(s.drop_last() =~= decimal(n / 10));
        assert(s[0] == decimal(n / 10)[0]);
        assert forall|i: int| 0 <= i < s.len() implies '0' <= #[trigger] s[i] <= '9' by {
            if i < s.len() - 1 {
                assert(s[i] == decimal(n / 10)[i]);
            }
        }
    }
}

/// Hex rendering spells `n` in base sixteen with digits `0`-`9` and
/// `a`-`f` and no leading zero (other than `0` itself).
pub proof fn lemma_hex_reads_back(n: nat)
    ensures
        hex(n).len() >= 1,
        digits_in_base(hex(n), 16) == n,
        forall|i: int|
            0 <= i < hex(n).len() ==> ('0' <= #[trigger] hex(n)[i] <= '9' || 'a' <= hex(n)[i] <= 'f'),
        n > 0 ==> hex(n)[0] != '0',
    decreases n,
{
    lemma_digit_code((n % 16) as int);
    if n < 16 {
        assert(hex(n).drop_last() =~= Seq::<char>::empty());
        assert(hex(n).last() == hex_digit(n));
        assert(digits_in_base(hex(n), 16) == digits_in_base(Seq::<char>::empty(), 16) * 16 + n);
    }
    if n >= 16 {
        lemma_hex_reads_back(n / 16);
        let s = hex(n);
        assert(n == (n / 16) * 16 + n % 16);
        assert(s.last() == hex_digit(n % 16));
        assert(digits_in_base(s, 16) == digits_in_base(s.drop_last(), 16) * 16 + (n % 16));
        assert(s.drop_last() =~= hex(n / 16));
        assert(s[0] == hex(n / 16)[0]);
        assert forall|i: int|
            0 <= i < s.len() implies ('0' <= #[trigger] s[i] <= '9' || 'a' <= s[i] <= 'f') by {
            if i < s.len() - 1 {
                assert(s[i] == hex(n / 16)[i]);
            }
        }
    }
}

/// A signed decimal is a minus sign and the magnitude for a negative
/// value, and the plain decimal otherwise; padding a hex number puts
/// zeros in front up to the width; prefixing puts `0x` in front.
pub proof fn lemma_signed_and_padded(v: int, n: nat, width: nat)
    ensures
        v < 0 ==> signed_decimal(v) == seq!['-'] + decimal((-v) as nat),
        v >= 0 ==> signed_decimal(v) == decimal(v as nat),
        hex_padded(n, width).len() == if hex(n).len() < width {
            width as int
        } else {
            hex(n).len() as int
        },
        hex_padded(n, width).subrange(hex_padded(n, width).len() - hex(n).len(), hex_padded(n, width).len() as int) == hex(n),
        forall|i: int|
            0 <= i < hex_padded(n, width).len() - hex(n).len() ==> #[trigger] hex_padded(n, width)[i]
                == '0',
        hex_prefixed(n) == seq!['0', 'x'] + hex(n),
{
    lemma_hex_reads_back(n);
    let p = hex_padded(n, width);
    assert(p.subrange(p.len() - hex(n).len(), p.len() as int) =~= hex(n));
}

} // verus!
