//! Text encodings used in signed query strings: form percent-encoding of
//! values, decimal integers and lowercase hexadecimal digests.
use vstd::prelude::*;

verus! {

/// Bytes that form encoding leaves as they are: ASCII letters and digits
/// and `*`, `-`, `.`, `_`.
pub open spec fn is_unreserved(b: u8) -> bool {
    (48u8 <= b <= 57u8) || (65u8 <= b <= 90u8) || (97u8 <= b <= 122u8) || b == 42u8
        || b == 45u8 || b == 46u8 || b == 95u8
}

/// Uppercase hexadecimal digit of a value below 16.
pub open spec fn upper_hex_digit(d: u8) -> char {
    if d < 10 {
        ((48u8 + d) as u8) as char
    } else {
        ((65u8 + d - 10) as u8) as char
    }
}

/// Lowercase hexadecimal digit of a value below 16.
pub open spec fn lower_hex_digit(d: u8) -> char {
    if d < 10 {
        ((48u8 + d) as u8) as char
    } else {
        ((97u8 + d - 10) as u8) as char
    }
}

/// Form encoding of one byte: kept, `+` for a space, else `%XX`.
pub open spec fn form_encode_byte(b: u8) -> Seq<char> {
    if is_unreserved(b) {
        seq![b as char]
    } else if b == 32u8 {
        seq!['+']
    } else {
        seq!['%', upper_hex_digit(b / 16), upper_hex_digit(b % 16)]
    }
}

/// Form encoding of a byte sequence, byte by byte.
pub open spec fn form_encode_bytes(b: Seq<u8>) -> Seq<char>
    decreases b.len(),
{
    if b.len() == 0 {
        Seq::empty()
    } else {
        form_encode_bytes(b.drop_last()) + form_encode_byte(b.last())
    }
}

/// Form encoding of a text: its UTF-8 bytes, each encoded.
pub open spec fn form_encode(s: Seq<char>) -> Seq<char> {
    form_encode_bytes(vstd::utf8::encode_utf8(s))
}

/// Decimal digit of a value below 10.
pub open spec fn decimal_digit(d: nat) -> char {
    ((48 + d) as u8) as char
}

/// Decimal notation of a natural number, without leading zeros.
pub open spec fn decimal_nat(n: nat) -> Seq<char>
    decreases n,
{
    if n < 10 {
        seq![decimal_digit(n)]
    } else {
        decimal_nat(n / 10).push(decimal_digit(n % 10))
    }
}

/// Decimal notation of an integer, with a leading `-` when negative.
pub open spec fn decimal_int(n: int) -> Seq<char> {
    if n < 0 {
        seq!['-'] + decimal_nat((-n) as nat)
    } else {
        decimal_nat(n as nat)
    }
}

/// Lowercase hexadecimal notation of a byte sequence, two digits a byte.
pub open spec fn lower_hex(b: Seq<u8>) -> Seq<char>
    decreases b.len(),
{
    if b.len() == 0 {
        Seq::empty()
    } else {
        lower_hex(b.drop_last()) + seq![lower_hex_digit(b.last() / 16), lower_hex_digit(b.last() % 16)]
    }
}

/// Relies on std's `String::push`: appends the character at the end.
#[verifier::external_body]
pub(crate) fn push_char(s: &mut String, c: char)
    ensures
        final(s)@ == old(s)@.push(c),
{
    s.push(c)
}

fn upper_hex_char(d: u8) -> (c: char)
    requires
        d < 16,
    ensures
        c == upper_hex_digit(d),
{
    if d < 10 {
        (48u8 + d) as char
    } else {
        (65u8 + d - 10) as char
    }
}

fn lower_hex_char(d: u8) -> (c: char)
    requires
        d < 16,
    ensures
        c == lower_hex_digit(d),
{
    if d < 10 {
        (48u8 + d) as char
    } else {
        (97u8 + d - 10) as char
    }
}

fn is_unreserved_byte(b: u8) -> (r: bool)
    ensures
        r == is_unreserved(b),
{
    (48u8 <= b && b <= 57u8) || (65u8 <= b && b <= 90u8) || (97u8 <= b && b <= 122u8) || b == 42u8
        || b == 45u8 || b == 46u8 || b == 95u8
}

/// Appends the form encoding of `value` to `out`.
pub fn push_form_encoded(out: &mut String, value: &str)
    ensures
        final(out)@ == old(out)@ + form_encode(value@),
{
    let bytes = value.as_bytes();
    let n = bytes.len();
    let ghost start = out@;
    let mut i: usize = 0;
    while i < n
        invariant
            n == bytes@.len(),
            bytes@ == vstd::utf8::encode_utf8(value@),
            i <= n,
            out@ == start + form_encode_bytes(bytes@.subrange(0, i as int)),
        decreases n - i,
    {
        let b = bytes[i];
        proof {
            assert(bytes@.subrange(0, i + 1).drop_last() == bytes@.subrange(0, i as int));
        }
        if is_unreserved_byte(b) {
            push_char(out, b as char);
        } else if b == 32u8 {
            push_char(out, '+');
        } else {
            push_char(out, '%');
            push_char(out, upper_hex_char(b / 16));
            push_char(out, upper_hex_char(b % 16));
        }
        i = i + 1;
    }
    proof {
        assert(bytes@.subrange(0, n as int) == bytes@);
    }
}

/// Form encoding of `value` as a new string.
pub fn form_encoded(value: &str) -> (r: String)
    ensures
        r@ == form_encode(value@),
{
    let mut out = String::new();
    push_form_encoded(&mut out, value);
    out
}

/// Appends the decimal notation of `n` to `out`.
pub fn push_decimal_u64(out: &mut String, n: u64)
    ensures
        final(out)@ == old(out)@ + decimal_nat(n as nat),
    decreases n,
{
    if n >= 10 {
        push_decimal_u64(out, n / 10);
    }
    let d = (n % 10) as u8;
    push_char(out, (48u8 + d) as char);
}

/// Appends the decimal notation of `n` to `out`, with a `-` when negative.
pub fn push_decimal_i64(out: &mut String, n: i64)
    ensures
        final(out)@ == old(out)@ + decimal_int(n as int),
{
    if n < 0 {
        push_char(out, '-');
        let m: u64 = ((-(n + 1)) as u64) + 1;
        push_decimal_u64(out, m);
    } else {
        push_decimal_u64(out, n as u64);
    }
}

/// Lowercase hexadecimal notation of `bytes`.
pub fn to_lower_hex(bytes: &[u8]) -> (r: String)
    ensures
        r@ == lower_hex(bytes@),
{
    let mut out = String::new();
    let n = bytes.len();
    let mut i: usize = 0;
    while i < n
        invariant
            n == bytes@.len(),
            i <= n,
            out@ == lower_hex(bytes@.subrange(0, i as int)),
        decreases n - i,
    {
        let b = bytes[i];
        proof {
            assert(bytes@.subrange(0, i + 1).drop_last() == bytes@.subrange(0, i as int));
        }
        push_char(&mut out, lower_hex_char(b / 16));
        push_char(&mut out, lower_hex_char(b % 16));
        i = i + 1;
    }
    proof {
        assert(bytes@.subrange(0, n as int) == bytes@);
    }
    out
}

/// Whether a text is free of the parameter separator `&`.
pub open spec fn amp_free(s: Seq<char>) -> bool {
    forall|i: int| 0 <= i < s.len() ==> s[i] != '&'
}

proof fn lemma_form_encode_bytes_append(a: Seq<u8>, b: Seq<u8>)
    ensures
        form_encode_bytes(a + b) == form_encode_bytes(a) + form_encode_bytes(b),
    decreases b.len(),
{
    if b.len() == 0 {
        assert(a + b =~= a);
        assert(form_encode_bytes(a) + form_encode_bytes(b) =~= form_encode_bytes(a));
    } else {
        assert((a + b).drop_last() =~= a + b.drop_last());
        lemma_form_encode_bytes_append(a, b.drop_last());
        assert(form_encode_bytes(a + b) =~= form_encode_bytes(a) + form_encode_bytes(b));
    }
}

proof fn lemma_form_encode_bytes_first(a: Seq<u8>)
    requires
        a.len() > 0,
    ensures
        form_encode_bytes(a) == form_encode_byte(a[0]) + form_encode_bytes(a.drop_first()),
{
    let h = seq![a[0]];
    assert(h + a.drop_first() =~= a);
    lemma_form_encode_bytes_append(h, a.drop_first());
    assert(h.drop_last() =~= Seq::<u8>::empty());
    assert(form_encode_bytes(h.drop_last()) == Seq::<char>::empty());
    assert(h.last() == a[0]);
    assert(form_encode_bytes(h) == form_encode_bytes(h.drop_last()) + form_encode_byte(h.last()));
    assert(form_encode_bytes(h) =~= form_encode_byte(a[0]));
}

proof fn lemma_upper_hex_digit_injective(x: u8, y: u8)
    requires
        x < 16,
        y < 16,
        upper_hex_digit(x) == upper_hex_digit(y),
    ensures
        x == y,
{
}

/// The code of one byte is told apart from any other at the front of a text.
proof fn lemma_form_encode_byte_prefix(x: u8, y: u8, r1: Seq<char>, r2: Seq<char>)
    requires
        form_encode_byte(x) + r1 == form_encode_byte(y) + r2,
    ensures
        x == y,
        r1 == r2,
{
    let s = form_encode_byte(x) + r1;
    assert(s[0] == form_encode_byte(x)[0]);
    assert(s[0] == form_encode_byte(y)[0]);
    if form_encode_byte(x)[0] == '%' {
        assert(!is_unreserved(x) && x != 32);
        assert(!is_unreserved(y) && y != 32);
        assert(s[1] == upper_hex_digit(x / 16) && s[1] == upper_hex_digit(y / 16));
        assert(s[2] == upper_hex_digit(x % 16) && s[2] == upper_hex_digit(y % 16));
        lemma_upper_hex_digit_injective(x / 16, y / 16);
        lemma_upper_hex_digit_injective(x % 16, y % 16);
    }
    assert(x == y);
    assert(r1 =~= s.subrange(form_encode_byte(x).len() as int, s.len() as int));
    assert(r2 =~= s.subrange(form_encode_byte(y).len() as int, s.len() as int));
}

proof fn lemma_form_encode_bytes_injective(a: Seq<u8>, b: Seq<u8>)
    requires
        form_encode_bytes(a) == form_encode_bytes(b),
    ensures
        a == b,
    decreases a.len(),
{
    if a.len() == 0 {
        assert(form_encode_bytes(a).len() == 0);
        if b.len() > 0 {
            lemma_form_encode_bytes_first(b);
            assert(form_encode_byte(b[0]).len() >= 1);
            assert(false);
        }
        assert(a =~= b);
    } else {
        lemma_form_encode_bytes_first(a);
        if b.len() == 0 {
            assert(form_encode_bytes(b).len() == 0);
        } else {
            lemma_form_encode_bytes_first(b);
            lemma_form_encode_byte_prefix(
                a[0],
                b[0],
                form_encode_bytes(a.drop_first()),
                form_encode_bytes(b.drop_first()),
            );
            lemma_form_encode_bytes_injective(a.drop_first(), b.drop_first());
            assert(a =~= seq![a[0]] + a.drop_first());
            assert(b =~= seq![b[0]] + b.drop_first());
        }
    }
}

/// Different texts have different form encodings.
pub proof fn lemma_form_encode_injective(a: Seq<char>, b: Seq<char>)
    requires
        form_encode(a) == form_encode(b),
    ensures
        a == b,
{
    lemma_form_encode_bytes_injective(vstd::utf8::encode_utf8(a), vstd::utf8::encode_utf8(b));
    vstd::utf8::encode_utf8_decode_utf8(a);
    vstd::utf8::encode_utf8_decode_utf8(b);
}

proof fn lemma_form_encode_bytes_amp_free(a: Seq<u8>)
    ensures
        amp_free(form_encode_bytes(a)),
    decreases a.len(),
{
    if a.len() > 0 {
        lemma_form_encode_bytes_amp_free(a.drop_last());
        let x = a.last();
        assert(amp_free(form_encode_byte(x)));
    }
}

/// A form encoding holds no `&`.
pub proof fn lemma_form_encode_amp_free(s: Seq<char>)
    ensures
        amp_free(form_encode(s)),
{
    lemma_form_encode_bytes_amp_free(vstd::utf8::encode_utf8(s));
}

proof fn lemma_decimal_nat_shape(n: nat)
    ensures
        decimal_nat(n).len() >= 1,
        amp_free(decimal_nat(n)),
        decimal_nat(n)[0] != '-',
    decreases n,
{
    if n >= 10 {
        lemma_decimal_nat_shape(n / 10);
    }
}

/// A decimal notation holds no `&`.
pub proof fn lemma_decimal_int_amp_free(n: int)
    ensures
        amp_free(decimal_int(n)),
{
    if n < 0 {
        lemma_decimal_nat_shape((-n) as nat);
    } else {
        lemma_decimal_nat_shape(n as nat);
    }
}

proof fn lemma_decimal_nat_injective(n: nat, m: nat)
    requires
        decimal_nat(n) == decimal_nat(m),
    ensures
        n == m,
    decreases n,
{
    let s = decimal_nat(n);
    if n < 10 && m < 10 {
        assert(s[0] == decimal_digit(n) && s[0] == decimal_digit(m));
    } else if n < 10 {
        lemma_decimal_nat_shape(m / 10);
    } else if m < 10 {
        lemma_decimal_nat_shape(n / 10);
    } else {
        assert(s.last() == decimal_digit(n % 10) && s.last() == decimal_digit(m % 10));
        assert(decimal_nat(n / 10) == s.drop_last());
        assert(decimal_nat(m / 10) == s.drop_last());
        lemma_decimal_nat_injective(n / 10, m / 10);
    }
}

/// Different integers have different decimal notations.
pub proof fn lemma_decimal_int_injective(n: int, m: int)
    requires
        decimal_int(n) == decimal_int(m),
    ensures
        n == m,
{
    let s = decimal_int(n);
    if n < 0 && m < 0 {
        assert(decimal_nat((-n) as nat) =~= s.drop_first());
        assert(decimal_nat((-m) as nat) =~= s.drop_first());
        lemma_decimal_nat_injective((-n) as nat, (-m) as nat);
    } else if n < 0 {
        lemma_decimal_nat_shape(m as nat);
        assert(s[0] == '-');
    } else if m < 0 {
        lemma_decimal_nat_shape(n as nat);
        assert(s[0] == '-');
    } else {
        lemma_decimal_nat_injective(n as nat, m as nat);
    }
}

/// Whether a character is a lowercase hexadecimal digit.
pub open spec fn is_lower_hex_char(c: char) -> bool {
    ('0' <= c <= '9') || ('a' <= c <= 'f')
}

/// Lowercase hex notation has two digits a byte, each `0`-`9` or `a`-`f`.
pub proof fn lemma_lower_hex_shape(b: Seq<u8>)
    ensures
        lower_hex(b).len() == 2 * b.len(),
        forall|i: int| 0 <= i < lower_hex(b).len() ==> is_lower_hex_char(#[trigger] lower_hex(b)[i]),
    decreases b.len(),
{
    if b.len() > 0 {
        lemma_lower_hex_shape(b.drop_last());
        let prev = lower_hex(b.drop_last());
        let tail = seq![lower_hex_digit(b.last() / 16), lower_hex_digit(b.last() % 16)];
        assert(is_lower_hex_char(tail[0]) && is_lower_hex_char(tail[1]));
        assert forall|i: int| 0 <= i < lower_hex(b).len() implies is_lower_hex_char(
            #[trigger] lower_hex(b)[i],
        ) by {
            if i < prev.len() {
                assert(lower_hex(b)[i] == prev[i]);
            } else {
                assert(lower_hex(b)[i] == tail[i - prev.len()]);
            }
        }
    }
}

} // verus!
