//! Byte-string utilities shared by the signer and the models: decimal
//! rendering, percent-encoding, and conversions between `str` and byte
//! vectors.

use vstd::prelude::*;
use vstd::slice::slice_to_vec;
use vstd::string::StringSliceAdditionalSpecFns;

verus! {

/// Decimal digits of `n`, most significant first, as ASCII bytes.
pub open spec fn dec_digits(n: nat) -> Seq<u8>
    decreases n,
{
    if n < 10 {
        seq![(0x30 + n) as u8]
    } else {
        dec_digits(n / 10).push((0x30 + n % 10) as u8)
    }
}

/// Renders `n` in decimal, most significant digit first.
pub fn u64_to_dec(n: u64) -> (r: Vec<u8>)
    ensures
        r@ == dec_digits(n as nat),
    decreases n,
{
    if n < 10 {
        let mut v: Vec<u8> = Vec::new();
        v.push((0x30 + n) as u8);
        assert(v@ =~= dec_digits(n as nat));
        v
    } else {
        let mut v = u64_to_dec(n / 10);
        v.push((0x30 + (n % 10)) as u8);
        v
    }
}

/// Bytes that percent-encoding leaves as they are: ASCII alphanumerics and
/// `-`, `.`, `_`, `~`.
pub open spec fn is_unreserved(b: u8) -> bool {
    (0x30 <= b && b <= 0x39)  // '0'..='9'
    || (0x41 <= b && b <= 0x5A)  // 'A'..='Z'
    || (0x61 <= b && b <= 0x7A)  // 'a'..='z'
    || b == 0x2D  // '-'
    || b == 0x2E  // '.'
    || b == 0x5F  // '_'
    || b == 0x7E  // '~'
}

/// Upper-case hexadecimal digit for a value below 16.
pub open spec fn hex_upper(n: u8) -> u8 {
    if n < 10 {
        (0x30 + n) as u8
    } else {
        (0x37 + n) as u8  // 10 -> 'A'
    }
}

/// Percent-encoding of one byte: kept as is when unreserved, otherwise
/// `%` followed by two upper-case hexadecimal digits.
pub open spec fn pct_byte(b: u8) -> Seq<u8> {
    if is_unreserved(b) {
        seq![b]
    } else {
        seq![0x25u8, hex_upper(b / 16), hex_upper(b % 16)]
    }
}

/// Percent-encoding of a byte string.
pub open spec fn pct_encoded(s: Seq<u8>) -> Seq<u8>
    decreases s.len(),
{
    if s.len() == 0 {
        Seq::empty()
    } else {
        pct_byte(s[0]) + pct_encoded(s.drop_first())
    }
}

proof fn lemma_pct_encoded_push(s: Seq<u8>, b: u8)
    ensures
        pct_encoded(s.push(b)) == pct_encoded(s) + pct_byte(b),
    decreases s.len(),
{
    if s.len() == 0 {
        assert(s.push(b).drop_first() =~= Seq::<u8>::empty());
        assert(s.push(b)[0] == b);
        assert(pct_encoded(Seq::<u8>::empty()) == Seq::<u8>::empty());
        assert(pct_encoded(s.push(b)) == pct_byte(b) + Seq::<u8>::empty());
        assert(pct_byte(b) + Seq::<u8>::empty() =~= Seq::<u8>::empty() + pct_byte(b));
        assert(pct_encoded(s.push(b)) =~= pct_encoded(s) + pct_byte(b));
    } else {
        assert(s.push(b).drop_first() =~= s.drop_first().push(b));
        lemma_pct_encoded_push(s.drop_first(), b);
        assert(pct_encoded(s.push(b)) =~= pct_encoded(s) + pct_byte(b));
    }
}

/// Percent-encodes `s`: every byte is kept when unreserved, otherwise
/// written as `%` and two upper-case hexadecimal digits.
pub fn percent_encode(s: &[u8]) -> (r: Vec<u8>)
    ensures
        r@ == pct_encoded(s@),
{
    let mut out: Vec<u8> = Vec::new();
    let mut i: usize = 0;
    while i < s.len()
        invariant
            i <= s@.len(),
            out@ == pct_encoded(s@.take(i as int)),
        decreases s@.len() - i,
    {
        let b = s[i];
        let ghost prefix = s@.take(i as int);
        proof {
            lemma_pct_encoded_push(prefix, b);
            assert(s@.take(i + 1) =~= prefix.push(b));
        }
        if (0x30 <= b && b <= 0x39) || (0x41 <= b && b <= 0x5A) || (0x61 <= b && b <= 0x7A)
            || b == 0x2D || b == 0x2E || b == 0x5F || b == 0x7E {
            out.push(b);
        } else {
            out.push(0x25);
            let hi = b / 16;
            let lo = b % 16;
            out.push(if hi < 10 { (0x30 + hi) as u8 } else { (0x37 + hi) as u8 });
            out.push(if lo < 10 { (0x30 + lo) as u8 } else { (0x37 + lo) as u8 });
        }
        i = i + 1;
    }
    proof {
        assert(s@.take(s@.len() as int) =~= s@);
    }
    out
}

/// The bytes of `s`, as a vector.
pub fn str_bytes(s: &str) -> (r: Vec<u8>)
    ensures
        r@ == s.spec_bytes(),
{
    slice_to_vec(s.as_bytes())
}

/// An ASCII byte string read back as text.
pub open spec fn ascii_chars_of(s: Seq<u8>) -> Seq<char> {
    s.map(|_i: int, b: u8| b as char)
}

/// Relies on `String::from_utf8_lossy`: on ASCII input the result is the
/// input read as text, unchanged.
#[verifier::external_body]
pub fn ascii_to_string(b: &[u8]) -> (r: String)
    requires
        forall|i: int| 0 <= i < b@.len() ==> b@[i] < 128,
    ensures
        r@ == ascii_chars_of(b@),
    {
    String::from_utf8_lossy(b).into_owned()
}

/// First index of `b` in `s`, if any.
pub fn find_byte(s: &[u8], b: u8) -> (r: Option<usize>)
    ensures
        match r {
            Some(i) => i < s@.len() && s@[i as int] == b && forall|j: int|
                0 <= j < i ==> s@[j] != b,
            None => forall|j: int| 0 <= j < s@.len() ==> s@[j] != b,
        },
{
    let mut i: usize = 0;
    while i < s.len()
        invariant
            i <= s@.len(),
            forall|j: int| 0 <= j < i ==> s@[j] != b,
        decreases s@.len() - i,
    {
        if s[i] == b {
            return Some(i);
        }
        i = i + 1;
    }
    None
}

/// Whether `s` starts with `prefix`.
pub open spec fn spec_starts_with(s: Seq<u8>, prefix: Seq<u8>) -> bool {
    prefix.len() <= s.len() && s.take(prefix.len() as int) == prefix
}

/// Whether `s` starts with `prefix`.
pub fn starts_with(s: &[u8], prefix: &[u8]) -> (r: bool)
    ensures
        r == spec_starts_with(s@, prefix@),
{
    if prefix.len() > s.len() {
        assert(!spec_starts_with(s@, prefix@));
        return false;
    }
    let mut i: usize = 0;
    while i < prefix.len()
        invariant
            i <= prefix@.len(),
            prefix@.len() <= s@.len(),
            forall|j: int| 0 <= j < i ==> s@[j] == prefix@[j],
        decreases prefix@.len() - i,
    {
        if s[i] != prefix[i] {
            assert(s@.take(prefix@.len() as int)[i as int] != prefix@[i as int]);
            return false;
        }
        i = i + 1;
    }
    assert(s@.take(prefix@.len() as int) =~= prefix@);
    true
}

/// Strict lexicographic order on byte strings.
pub open spec fn lex_lt(a: Seq<u8>, b: Seq<u8>) -> bool
    decreases a.len(),
{
    if b.len() == 0 {
        false
    } else if a.len() == 0 {
        true
    } else if a[0] < b[0] {
        true
    } else if a[0] > b[0] {
        false
    } else {
        lex_lt(a.drop_first(), b.drop_first())
    }
}

/// Compares two byte strings in lexicographic order.
pub fn bytes_lt(a: &[u8], b: &[u8]) -> (r: bool)
    ensures
        r == lex_lt(a@, b@),
    decreases a@.len() + b@.len(),
{
    let mut i: usize = 0;
    proof {
        assert(a@.skip(0) =~= a@);
        assert(b@.skip(0) =~= b@);
    }
    loop
        invariant
            i <= a@.len(),
            i <= b@.len(),
            forall|j: int| 0 <= j < i ==> a@[j] == b@[j],
            lex_lt(a@, b@) == lex_lt(a@.skip(i as int), b@.skip(i as int)),
        decreases a@.len() - i,
    {
        let ghost ra = a@.skip(i as int);
        let ghost rb = b@.skip(i as int);
        if i >= b.len() {
            assert(rb.len() == 0);
            return false;
        }
        if i >= a.len() {
            assert(ra.len() == 0 && rb.len() > 0);
            return true;
        }
        assert(ra[0] == a@[i as int] && rb[0] == b@[i as int]);
        if a[i] < b[i] {
            return true;
        }
        if a[i] > b[i] {
            return false;
        }
        proof {
            assert(ra.drop_first() =~= a@.skip(i + 1));
            assert(rb.drop_first() =~= b@.skip(i + 1));
        }
        i = i + 1;
    }
}

/// Whether two byte strings are equal.
pub fn bytes_eq(a: &[u8], b: &[u8]) -> (r: bool)
    ensures
        r == (a@ == b@),
{
    if a.len() != b.len() {
        return false;
    }
    let mut i: usize = 0;
    while i < a.len()
        invariant
            i <= a@.len(),
            a@.len() == b@.len(),
            forall|j: int| 0 <= j < i ==> a@[j] == b@[j],
        decreases a@.len() - i,
    {
        if a[i] != b[i] {
            return false;
        }
        i = i + 1;
    }
    proof {
        assert(a@ =~= b@);
    }
    true
}


/// Whether every byte is ASCII.
pub open spec fn spec_all_ascii(s: Seq<u8>) -> bool {
    forall|i: int| 0 <= i < s.len() ==> s[i] < 128
}

/// Whether every byte of `b` is ASCII.
pub fn all_ascii(b: &[u8]) -> (r: bool)
    ensures
        r == spec_all_ascii(b@),
{
    let mut i: usize = 0;
    while i < b.len()
        invariant
            i <= b@.len(),
            forall|j: int| 0 <= j < i ==> b@[j] < 128,
        decreases b@.len() - i,
    {
        if b[i] >= 128 {
            return false;
        }
        i = i + 1;
    }
    true
}


/// Whether two pieces of text are equal.
pub fn str_eq(a: &str, b: &str) -> (r: bool)
    ensures
        r == (a@ == b@),
{
    let r = bytes_eq(a.as_bytes(), b.as_bytes());
    proof {
        vstd::utf8::encode_utf8_decode_utf8(a@);
        vstd::utf8::encode_utf8_decode_utf8(b@);
    }
    r
}


proof fn lemma_dec_digits_ascii(n: nat)
    ensures
        forall|i: int| 0 <= i < dec_digits(n).len() ==> 0x30 <= #[trigger] dec_digits(n)[i]
            <= 0x39,
    decreases n,
{
    if n < 10 {
        assert(dec_digits(n) =~= seq![(0x30 + n) as u8]);
    } else {
        lemma_dec_digits_ascii(n / 10);
        let prev = dec_digits(n / 10);
        assert(dec_digits(n) == prev.push((0x30 + n % 10) as u8));
        assert(forall|i: int| 0 <= i < prev.len() ==> dec_digits(n)[i] == prev[i]);
        assert(dec_digits(n)[prev.len() as int] == (0x30 + n % 10) as u8);
    }
}

/// Renders `n` in decimal as text.
pub fn dec_string(n: u64) -> (r: String)
    ensures
        r@ == ascii_chars_of(dec_digits(n as nat)),
{
    let v = u64_to_dec(n);
    proof {
        lemma_dec_digits_ascii(n as nat);
    }
    ascii_to_string(v.as_slice())
}


/// Lower-cases the ASCII letters of a byte string, leaving every other
/// byte as it is.
pub open spec fn ascii_lower_bytes(s: Seq<u8>) -> Seq<u8> {
    s.map(|_i: int, b: u8| lower_byte(b))
}

/// The lower-case form of one byte: ASCII letters move down by 32.
pub open spec fn lower_byte(b: u8) -> u8 {
    if 0x41 <= b && b <= 0x5A {
        (b + 0x20) as u8
    } else {
        b
    }
}

/// Lower-cases the ASCII letters of a byte string.
pub fn ascii_lower(s: Vec<u8>) -> (r: Vec<u8>)
    ensures
        r@ == ascii_lower_bytes(s@),
{
    let mut out: Vec<u8> = Vec::new();
    let mut i: usize = 0;
    proof {
        assert(out@ =~= ascii_lower_bytes(s@.take(0)));
    }
    while i < s.len()
        invariant
            i <= s@.len(),
            out@ == ascii_lower_bytes(s@.take(i as int)),
        decreases s@.len() - i,
    {
        let b = s[i];
        let ghost before = out@;
        if 0x41 <= b && b <= 0x5A {
            out.push((b + 0x20) as u8);
        } else {
            out.push(b);
        }
        proof {
            assert(out@ =~= before.push(lower_byte(s@[i as int])));
            assert(out@ =~= ascii_lower_bytes(s@.take(i + 1)));
        }
        i = i + 1;
    }
    proof {
        assert(s@.take(s@.len() as int) =~= s@);
    }
    out
}


/// Percent-encoded output is ASCII: every byte it emits is below 128.
pub proof fn lemma_pct_encoded_ascii(s: Seq<u8>)
    ensures
        spec_all_ascii(pct_encoded(s)),
    decreases s.len(),
{
    if s.len() > 0 {
        lemma_pct_encoded_ascii(s.drop_first());
        let head = pct_byte(s[0]);
        let rest = pct_encoded(s.drop_first());
        assert(spec_all_ascii(head));
        assert forall|i: int| 0 <= i < pct_encoded(s).len() implies pct_encoded(s)[i] < 128 by {
            if i < head.len() {
                assert(pct_encoded(s)[i] == head[i]);
            } else {
                assert(pct_encoded(s)[i] == rest[i - head.len()]);
            }
        }
    }
}

/// ASCII byte strings stay ASCII under concatenation.
pub proof fn lemma_ascii_concat(a: Seq<u8>, b: Seq<u8>)
    requires
        spec_all_ascii(a),
        spec_all_ascii(b),
    ensures
        spec_all_ascii(a + b),
{
    assert forall|i: int| 0 <= i < (a + b).len() implies (a + b)[i] < 128 by {
        if i < a.len() {
            assert((a + b)[i] == a[i]);
        } else {
            assert((a + b)[i] == b[i - a.len()]);
        }
    }
}

} // verus!
