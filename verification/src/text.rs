//! Text helpers that respect UTF-8 character boundaries.

use vstd::prelude::*;
use vstd::utf8::*;
use vstd::string::*;

verus! {

broadcast use vstd::utf8::encode_utf8_valid_utf8, vstd::utf8::is_char_boundary_start_end_of_seq;

/// The largest character boundary of `bytes` that is at most `k`
/// (0 is always a boundary).
pub open spec fn boundary_at_most(bytes: Seq<u8>, k: int) -> int
    decreases k,
{
    if k <= 0 {
        0
    } else if is_char_boundary(bytes, k) {
        k
    } else {
        boundary_at_most(bytes, k - 1)
    }
}

/// The number of bytes that a truncation of `bytes` to at most `max` bytes keeps.
pub open spec fn truncated_len(bytes: Seq<u8>, max: int) -> int {
    boundary_at_most(bytes, if bytes.len() < max { bytes.len() as int } else { max })
}

proof fn lemma_boundary_at_most(bytes: Seq<u8>, k: int)
    requires
        valid_utf8(bytes),
        k <= bytes.len(),
    ensures
        0 <= boundary_at_most(bytes, k),
        k >= 0 ==> boundary_at_most(bytes, k) <= k,
        is_char_boundary(bytes, boundary_at_most(bytes, k)),
        forall|e: int| boundary_at_most(bytes, k) < e <= k ==> !is_char_boundary(bytes, e),
    decreases k,
{
    if k <= 0 {
    } else if is_char_boundary(bytes, k) {
    } else {
        lemma_boundary_at_most(bytes, k - 1);
    }
}

/// Cuts `s` down to at most `max` bytes without splitting a character:
/// the result is the longest prefix of `s` that ends on a character boundary
/// and holds at most `max` bytes.
pub fn debug_truncate(s: &str, max: usize) -> (res: &str)
    requires
        s.spec_bytes().len() <= usize::MAX,
    ensures
        res.spec_bytes() == s.spec_bytes().subrange(0, truncated_len(s.spec_bytes(), max as int)),
        res.spec_bytes().len() <= max,
        res@.is_prefix_of(s@),
        is_char_boundary(s.spec_bytes(), res.spec_bytes().len() as int),
        s.spec_bytes().len() <= max ==> res@ == s@,
        forall|e: int|
            res.spec_bytes().len() < e <= max && e <= s.spec_bytes().len() ==> !is_char_boundary(
                s.spec_bytes(),
                e,
            ),
{
    let ghost bytes = s.spec_bytes();
    let len = s.len();
    let cap = if len < max { len } else { max };
    let mut end = cap;
    proof {
        lemma_boundary_at_most(bytes, cap as int);
    }
    while end > 0 && !s.is_char_boundary(end)
        invariant
            end <= cap,
            cap as int == (if bytes.len() < max { bytes.len() as int } else { max as int }),
            bytes == s.spec_bytes(),
            valid_utf8(bytes),
            boundary_at_most(bytes, end as int) == boundary_at_most(bytes, cap as int),
        decreases end,
    {
        end = end - 1;
    }
    proof {
        lemma_boundary_at_most(bytes, end as int);
    }
    let (head, _tail) = s.split_at(end);
    proof {
        lemma_truncation_is_char_prefix(s@, end as int);
        encode_utf8_decode_utf8(head@);
        if bytes.len() <= max {
            assert(is_char_boundary(bytes, bytes.len() as int));
            assert(bytes.subrange(0, bytes.len() as int) =~= bytes);
            encode_utf8_decode_utf8(s@);
            encode_utf8_decode_utf8(head@);
        }
    }
    head
}

/// Cutting the encoding of `chars` at a character boundary leaves the
/// encoding of a prefix of `chars`.
proof fn lemma_truncation_is_char_prefix(chars: Seq<char>, index: int)
    requires
        is_char_boundary(encode_utf8(chars), index),
    ensures
        decode_utf8(encode_utf8(chars).subrange(0, index)).is_prefix_of(chars),
{
    let bytes = encode_utf8(chars);
    encode_utf8_decode_utf8(chars);
    decode_utf8_split(bytes, index);
    let front = decode_utf8(bytes.subrange(0, index));
    let back = decode_utf8(bytes.subrange(index, bytes.len() as int));
    assert(chars =~= front + back);
    assert(front =~= chars.subrange(0, front.len() as int));
}


/// The ASCII digit for `d` (below 10).
pub open spec fn digit_char(d: nat) -> char {
    (48 + d) as char
}

/// The decimal representation of `n`, without sign or leading zeros.
pub open spec fn decimal(n: nat) -> Seq<char>
    decreases n,
{
    if n < 10 {
        seq![digit_char(n)]
    } else {
        decimal(n / 10).push(digit_char(n % 10))
    }
}

/// `digits` padded on the left with `'0'` to at least `width` characters.
pub open spec fn zero_padded(digits: Seq<char>, width: nat) -> Seq<char> {
    if digits.len() >= width {
        digits
    } else {
        Seq::new((width - digits.len()) as nat, |i: int| '0') + digits
    }
}

/// The first `n` characters of `s` (all of `s` when it is shorter).
pub open spec fn first_chars(s: Seq<char>, n: nat) -> Seq<char> {
    if s.len() <= n {
        s
    } else {
        s.take(n as int)
    }
}

/// `pat` occurs in `s` starting at character `i`.
pub open spec fn occurs_at(s: Seq<char>, pat: Seq<char>, i: int) -> bool {
    0 <= i && i + pat.len() <= s.len() && s.subrange(i, i + pat.len()) == pat
}

/// `i` is the first position at which `pat` occurs in `s`.
pub open spec fn first_occurrence(s: Seq<char>, pat: Seq<char>, i: int) -> bool {
    occurs_at(s, pat, i) && forall|j: int| 0 <= j < i ==> !occurs_at(s, pat, j)
}

/// The one-character string of a decimal digit.
fn digit_str(d: u8) -> (s: &'static str)
    requires
        d < 10,
    ensures
        s@ == seq![digit_char(d as nat)],
{
    proof {
        reveal_strlit("0");
        reveal_strlit("1");
        reveal_strlit("2");
        reveal_strlit("3");
        reveal_strlit("4");
        reveal_strlit("5");
        reveal_strlit("6");
        reveal_strlit("7");
        reveal_strlit("8");
        reveal_strlit("9");
    }
    if d == 0 {
        "0"
    } else if d == 1 {
        "1"
    } else if d == 2 {
        "2"
    } else if d == 3 {
        "3"
    } else if d == 4 {
        "4"
    } else if d == 5 {
        "5"
    } else if d == 6 {
        "6"
    } else if d == 7 {
        "7"
    } else if d == 8 {
        "8"
    } else {
        "9"
    }
}

/// Appends the decimal representation of `n` to `out`.
fn push_decimal(out: &mut String, n: u128)
    ensures
        final(out)@ == old(out)@ + decimal(n as nat),
    decreases n,
{
    if n >= 10 {
        push_decimal(out, n / 10);
    }
    let d = (n % 10) as u8;
    out.append(digit_str(d));
    proof {
        assert(old(out)@ + decimal(n as nat) =~= old(out)@ + decimal((n / 10) as nat) + seq![
            digit_char((n % 10) as nat),
        ] || n < 10);
    }
}

/// The decimal representation of `n`, as `to_string` writes it.
pub fn decimal_string(n: u128) -> (s: String)
    ensures
        s@ == decimal(n as nat),
{
    let mut s = String::new();
    push_decimal(&mut s, n);
    assert(s@ =~= decimal(n as nat));
    s
}

/// The decimal representation of `n` padded with zeros to at least `width`
/// characters, as `format!("{:0width$}")` writes it.
pub fn zero_padded_decimal(n: u128, width: usize) -> (s: String)
    ensures
        s@ == zero_padded(decimal(n as nat), width as nat),
{
    let digits = decimal_string(n);
    let len = digits.as_str().unicode_len();
    if len >= width {
        return digits;
    }
    let mut s = String::new();
    let mut i: usize = 0;
    while i < width - len
        invariant
            i <= width - len,
            len < width,
            len == digits@.len(),
            s@ == Seq::new(i as nat, |k: int| '0'),
        decreases width - len - i,
    {
        proof {
            reveal_strlit("0");
        }
        s.append("0");
        i = i + 1;
        assert(s@ =~= Seq::new(i as nat, |k: int| '0'));
    }
    s.append(digits.as_str());
    s
}

/// The first `n` characters of `s`.
pub fn first_chars_of(s: &str, n: usize) -> (r: String)
    ensures
        r@ == first_chars(s@, n as nat),
{
    let len = s.unicode_len();
    if len <= n {
        s.to_owned()
    } else {
        s.substring_char(0, n).to_owned()
    }
}

/// Whether `pat` occurs in `s` at character position `i`.
pub fn occurs_at_exec(s: &str, pat: &str, i: usize) -> (b: bool)
    requires
        i <= s@.len(),
    ensures
        b == occurs_at(s@, pat@, i as int),
{
    let slen = s.unicode_len();
    let plen = pat.unicode_len();
    if plen > slen - i {
        return false;
    }
    let mut k: usize = 0;
    while k < plen
        invariant
            slen == s@.len(),
            plen == pat@.len(),
            i + plen <= slen,
            k <= plen,
            forall|j: int| 0 <= j < k ==> s@[i + j] == pat@[j],
        decreases plen - k,
    {
        if s.get_char(i + k) != pat.get_char(k) {
            assert(s@.subrange(i as int, i + plen)[k as int] != pat@[k as int]);
            return false;
        }
        k = k + 1;
    }
    assert(s@.subrange(i as int, i + plen) =~= pat@);
    true
}

/// Whether `s` starts with `prefix`.
pub fn starts_with(s: &str, prefix: &str) -> (b: bool)
    ensures
        b == prefix@.is_prefix_of(s@),
{
    let r = occurs_at_exec(s, prefix, 0);
    proof {
        if prefix@.len() <= s@.len() {
            assert(r ==> s@.subrange(0, prefix@.len() as int) =~= prefix@);
            assert(prefix@.is_prefix_of(s@) ==> s@.subrange(0, prefix@.len() as int) =~= prefix@);
        }
    }
    r
}

/// The first character position at which `pat` occurs in `s`, if any.
pub fn find(s: &str, pat: &str) -> (r: Option<usize>)
    ensures
        r matches Some(i) ==> first_occurrence(s@, pat@, i as int),
        r is None ==> forall|j: int| !occurs_at(s@, pat@, j),
{
    let slen = s.unicode_len();
    let mut i: usize = 0;
    loop
        invariant
            slen == s@.len(),
            i <= slen,
            forall|j: int| 0 <= j < i ==> !occurs_at(s@, pat@, j),
        decreases slen - i,
    {
        if occurs_at_exec(s, pat, i) {
            return Some(i);
        }
        if i == slen {
            return None;
        }
        i = i + 1;
    }
}

/// Whether `c` occurs in `s`.
pub fn contains_char(s: &str, c: char) -> (b: bool)
    ensures
        b == s@.contains(c),
{
    let len = s.unicode_len();
    let mut i: usize = 0;
    while i < len
        invariant
            len == s@.len(),
            i <= len,
            forall|j: int| 0 <= j < i ==> s@[j] != c,
        decreases len - i,
    {
        if s.get_char(i) == c {
            return true;
        }
        i = i + 1;
    }
    false
}


/// ASCII text is cut at exactly `max` bytes (or kept whole when shorter):
/// every byte of it starts a character.
pub proof fn law_truncate_ascii_is_byte_cut(s: Seq<char>, max: nat)
    requires
        is_ascii_chars(s),
    ensures
        truncated_len(encode_utf8(s), max as int) == (if encode_utf8(s).len() < max {
            encode_utf8(s).len() as int
        } else {
            max as int
        }),
{
    let bytes = encode_utf8(s);
    let cap = if bytes.len() < max { bytes.len() as int } else { max as int };
    is_ascii_chars_encode_utf8(s);
    if cap > 0 {
        if cap < bytes.len() {
            is_char_boundary_iff_not_is_continuation_byte(bytes, cap);
            assert(bytes[cap] == s[cap] as u8);
            assert((s[cap] as u8) < 0x80);
        } else {
            is_char_boundary_start_end_of_seq(bytes);
        }
        assert(is_char_boundary(bytes, cap));
    }
}

/// Numbers below 1000 have at most three decimal digits.
pub proof fn lemma_decimal_len_below_1000(n: nat)
    requires
        n < 1000,
    ensures
        1 <= decimal(n).len() <= 3,
{
    reveal_with_fuel(decimal, 3);
}

proof fn lemma_boundary_at_most_monotone(bytes: Seq<u8>, k1: int, k2: int)
    requires
        k1 <= k2,
    ensures
        k1 >= 0 ==> boundary_at_most(bytes, k1) <= boundary_at_most(bytes, k2),
    decreases k2 - k1,
{
    if k1 == k2 {
    } else if k2 <= 0 {
    } else if is_char_boundary(bytes, k2) {
        lemma_boundary_at_most_le(bytes, k1);
    } else {
        lemma_boundary_at_most_monotone(bytes, k1, k2 - 1);
    }
}

proof fn lemma_boundary_at_most_le(bytes: Seq<u8>, k: int)
    ensures
        boundary_at_most(bytes, k) <= if k < 0 { 0 } else { k },
        boundary_at_most(bytes, k) >= 0,
    decreases k,
{
    if k > 0 && !is_char_boundary(bytes, k) {
        lemma_boundary_at_most_le(bytes, k - 1);
    }
}

/// Truncating to a larger budget keeps at least as much: the shorter result
/// is a prefix of the longer one.
pub proof fn law_truncate_monotone(bytes: Seq<u8>, m1: nat, m2: nat)
    requires
        m1 <= m2,
    ensures
        truncated_len(bytes, m1 as int) <= truncated_len(bytes, m2 as int),
        bytes.subrange(0, truncated_len(bytes, m1 as int)).is_prefix_of(
            bytes.subrange(0, truncated_len(bytes, m2 as int)),
        ),
{
    let c1 = if bytes.len() < m1 { bytes.len() as int } else { m1 as int };
    let c2 = if bytes.len() < m2 { bytes.len() as int } else { m2 as int };
    lemma_boundary_at_most_monotone(bytes, c1, c2);
    lemma_boundary_at_most_le(bytes, c2);
    lemma_boundary_at_most_le(bytes, c1);
    let t1 = truncated_len(bytes, m1 as int);
    let t2 = truncated_len(bytes, m2 as int);
    assert(bytes.subrange(0, t1) =~= bytes.subrange(0, t2).subrange(0, t1));
}

/// Truncating a truncation to the same budget, or the text to the length of
/// its truncation, changes nothing.
pub proof fn law_truncate_idempotent(chars: Seq<char>, max: nat)
    ensures
        ({
            let bytes = encode_utf8(chars);
            let t = truncated_len(bytes, max as int);
            &&& truncated_len(bytes.subrange(0, t), max as int) == t
            &&& truncated_len(bytes, t) == t
        }),
{
    let bytes = encode_utf8(chars);
    let cap = if bytes.len() < max { bytes.len() as int } else { max as int };
    lemma_boundary_at_most(bytes, cap);
    let t = truncated_len(bytes, max as int);
    let pre = bytes.subrange(0, t);
    valid_utf8_split(bytes, t);
    is_char_boundary_start_end_of_seq(pre);
    assert(pre.len() == t);
    assert(is_char_boundary(pre, t));
    assert(is_char_boundary(bytes, t));
}

/// Every character of a decimal representation is a digit.
pub proof fn lemma_decimal_digits(n: nat)
    ensures
        forall|i: int| 0 <= i < decimal(n).len() ==> '0' <= #[trigger] decimal(n)[i] <= '9',
    decreases n,
{
    if n >= 10 {
        lemma_decimal_digits(n / 10);
        let d = decimal(n / 10);
        assert forall|i: int| 0 <= i < decimal(n).len() implies '0' <= #[trigger] decimal(n)[i]
            <= '9' by {
            if i < d.len() {
                assert(decimal(n)[i] == d[i]);
            }
        }
    }
}

/// A number below 1000 padded with zeros to width 4 is exactly 4 characters,
/// all of them digits.
pub proof fn law_zero_padded_below_1000(n: nat)
    requires
        n < 1000,
    ensures
        zero_padded(decimal(n), 4).len() == 4,
        forall|i: int| 0 <= i < 4 ==> '0' <= #[trigger] zero_padded(decimal(n), 4)[i] <= '9',
{
    lemma_decimal_len_below_1000(n);
    lemma_decimal_digits(n);
    let d = decimal(n);
    let p = zero_padded(d, 4);
    let zeros = Seq::new((4 - d.len()) as nat, |k: int| '0');
    assert(p == zeros + d);
    assert forall|i: int| 0 <= i < 4 implies '0' <= #[trigger] p[i] <= '9' by {
        if i >= zeros.len() {
            assert(p[i] == d[i - zeros.len()]);
        }
    }
}

} // verus!
