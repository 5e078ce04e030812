//! Compact JSON text: the byte-level building blocks shared by the canonical
//! encoding and the wire encoding, with the facts that make them unambiguous.

use vstd::prelude::*;

verus! {

/// The double quote that opens and closes a string.
pub const QUOTE: u8 = 0x22;

/// The backslash that starts an escape.
pub const BACKSLASH: u8 = 0x5c;

/// The comma between items and fields.
pub const COMMA: u8 = 0x2c;

/// The sign of a negative number.
pub const MINUS: u8 = 0x2d;

/// The bracket that opens an array.
pub const LBRACKET: u8 = 0x5b;

/// The bracket that closes an array.
pub const RBRACKET: u8 = 0x5d;

/// The brace that closes an object.
pub const RBRACE: u8 = 0x7d;

/// Lower-case hexadecimal digit of a value below sixteen.
pub open spec fn hex_digit(d: u8) -> u8 {
    if d < 10 {
        (0x30 + d) as u8
    } else {
        (0x57 + d) as u8
    }
}

/// The text that stands for one byte inside a JSON string: quote and
/// backslash are escaped with a backslash, the five control bytes with short
/// names get them, every other control byte becomes `\u00XY`, and all other
/// bytes stand for themselves.
pub open spec fn escape_byte(b: u8) -> Seq<u8> {
    if b == QUOTE {
        seq![BACKSLASH, QUOTE]
    } else if b == BACKSLASH {
        seq![BACKSLASH, BACKSLASH]
    } else if b == 0x08 {
        seq![BACKSLASH, 0x62u8]
    } else if b == 0x0c {
        seq![BACKSLASH, 0x66u8]
    } else if b == 0x0a {
        seq![BACKSLASH, 0x6eu8]
    } else if b == 0x0d {
        seq![BACKSLASH, 0x72u8]
    } else if b == 0x09 {
        seq![BACKSLASH, 0x74u8]
    } else if b < 0x20 {
        seq![BACKSLASH, 0x75u8, 0x30u8, 0x30u8, hex_digit(b / 16), hex_digit(b % 16)]
    } else {
        seq![b]
    }
}

/// Escaped text of the bytes of `s` from position `i` on.
pub open spec fn escape_from(s: Seq<u8>, i: int) -> Seq<u8>
    decreases s.len() - i,
{
    if 0 <= i < s.len() {
        escape_byte(s[i]) + escape_from(s, i + 1)
    } else {
        Seq::empty()
    }
}

/// A JSON string literal holding the bytes `s`.
pub open spec fn json_string(s: Seq<u8>) -> Seq<u8> {
    seq![QUOTE] + escape_from(s, 0) + seq![QUOTE]
}

/// Decimal digits of a natural number, most significant first, without
/// leading zeros.
pub open spec fn decimal_nat(n: nat) -> Seq<u8>
    decreases n,
{
    if n < 10 {
        seq![(0x30 + n) as u8]
    } else {
        decimal_nat(n / 10).push((0x30 + n % 10) as u8)
    }
}

/// Decimal text of an integer: a minus sign for negative values, then the
/// digits of the magnitude.
pub open spec fn decimal_int(v: int) -> Seq<u8> {
    if v < 0 {
        seq![MINUS] + decimal_nat((-v) as nat)
    } else {
        decimal_nat(v as nat)
    }
}

/// What is left to write of a JSON array of strings once the items before
/// position `i` are written: each remaining item, preceded by a comma unless
/// it is the first, and the closing bracket.
pub open spec fn array_tail(items: Seq<Seq<u8>>, i: int) -> Seq<u8>
    decreases items.len() - i,
{
    if 0 <= i < items.len() {
        (if i == 0 { Seq::<u8>::empty() } else { seq![COMMA] })
            + json_string(items[i]) + array_tail(items, i + 1)
    } else {
        seq![RBRACKET]
    }
}

/// A JSON array of strings.
pub open spec fn json_string_array(items: Seq<Seq<u8>>) -> Seq<u8> {
    seq![LBRACKET] + array_tail(items, 0)
}

/// Appends a copy of `src` to `out`.
pub fn append_bytes(out: &mut Vec<u8>, src: &[u8])
    ensures
        final(out)@ == old(out)@ + src@,
{
    let mut i: usize = 0;
    while i < src.len()
        invariant
            i <= src@.len(),
            out@ == old(out)@ + src@.take(i as int),
        decreases src@.len() - i,
    {
        out.push(src[i]);
        i += 1;
        assert(src@.take(i as int) =~= src@.take(i - 1).push(src@[i - 1]));
        assert(out@ =~= old(out)@ + src@.take(i as int));
    }
    assert(src@.take(i as int) =~= src@);
}

/// Appends the escaped text of one byte.
pub fn push_escaped_byte(out: &mut Vec<u8>, b: u8)
    ensures
        final(out)@ == old(out)@ + escape_byte(b),
{
    if b == QUOTE || b == BACKSLASH {
        out.push(BACKSLASH);
        out.push(b);
    } else if b == 0x08 {
        out.push(BACKSLASH);
        out.push(0x62u8);
    } else if b == 0x0c {
        out.push(BACKSLASH);
        out.push(0x66u8);
    } else if b == 0x0a {
        out.push(BACKSLASH);
        out.push(0x6eu8);
    } else if b == 0x0d {
        out.push(BACKSLASH);
        out.push(0x72u8);
    } else if b == 0x09 {
        out.push(BACKSLASH);
        out.push(0x74u8);
    } else if b < 0x20 {
        let hi: u8 = b / 16;
        let lo: u8 = b % 16;
        out.push(BACKSLASH);
        out.push(0x75u8);
        out.push(0x30u8);
        out.push(0x30u8);
        out.push(0x30u8 + hi);
        out.push(if lo < 10 { 0x30u8 + lo } else { 0x57u8 + lo });
    } else {
        out.push(b);
    }
    assert(out@ =~= old(out)@ + escape_byte(b));
}

/// Appends a JSON string literal holding the bytes `s`.
pub fn push_json_string(out: &mut Vec<u8>, s: &[u8])
    ensures
        final(out)@ == old(out)@ + json_string(s@),
{
    out.push(QUOTE);
    let mut i: usize = 0;
    while i < s.len()
        invariant
            i <= s@.len(),
            out@ + escape_from(s@, i as int) == old(out)@ + seq![QUOTE] + escape_from(s@, 0),
        decreases s@.len() - i,
    {
        let ghost before = out@;
        push_escaped_byte(out, s[i]);
        assert(before + escape_from(s@, i as int) =~= out@ + escape_from(s@, i + 1));
        i += 1;
    }
    assert(escape_from(s@, i as int) =~= Seq::<u8>::empty());
    out.push(QUOTE);
    assert(out@ =~= old(out)@ + json_string(s@));
}

/// Appends the decimal digits of `n`.
pub fn push_decimal_u64(out: &mut Vec<u8>, n: u64)
    ensures
        final(out)@ == old(out)@ + decimal_nat(n as nat),
    decreases n,
{
    if n >= 10 {
        push_decimal_u64(out, n / 10);
    }
    out.push(0x30u8 + (n % 10) as u8);
    assert(out@ =~= old(out)@ + decimal_nat(n as nat));
}

/// Appends the decimal text of `v`.
pub fn push_decimal_i64(out: &mut Vec<u8>, v: i64)
    ensures
        final(out)@ == old(out)@ + decimal_int(v as int),
{
    if v < 0 {
        out.push(MINUS);
        let magnitude: u64 = (-(v + 1)) as u64 + 1;
        push_decimal_u64(out, magnitude);
        assert(out@ =~= old(out)@ + decimal_int(v as int));
    } else {
        push_decimal_u64(out, v as u64);
    }
}

/// The first byte of an escaped byte is never a quote.
pub proof fn lemma_escape_byte_head(b: u8)
    ensures
        escape_byte(b).len() >= 1,
        escape_byte(b)[0] != QUOTE,
{
}

/// Escaped bytes form a prefix code: from the text of an escaped byte
/// followed by anything, the byte and what follows can be read back.
pub proof fn lemma_escape_byte_prefix_free(a: u8, b: u8, x: Seq<u8>, y: Seq<u8>)
    requires
        escape_byte(a) + x == escape_byte(b) + y,
    ensures
        a == b,
        x == y,
{
    let l = escape_byte(a) + x;
    let r = escape_byte(b) + y;
    let ea = escape_byte(a);
    let eb = escape_byte(b);
    assert(l[0] == ea[0]);
    assert(r[0] == eb[0]);
    if ea.len() >= 2 {
        assert(l[1] == ea[1]);
    }
    if eb.len() >= 2 {
        assert(r[1] == eb[1]);
    }
    if ea.len() == 6 && eb.len() == 6 {
        assert(l[4] == ea[4]);
        assert(r[4] == eb[4]);
        assert(l[5] == ea[5]);
        assert(r[5] == eb[5]);
    }
    assert(a == b);
    assert(x =~= l.subrange(ea.len() as int, l.len() as int));
    assert(y =~= r.subrange(eb.len() as int, r.len() as int));
}

/// The escaped text of a string, closed by a quote, is self-delimiting.
pub proof fn lemma_escape_prefix_free(
    a: Seq<u8>,
    i: int,
    b: Seq<u8>,
    j: int,
    x: Seq<u8>,
    y: Seq<u8>,
)
    requires
        0 <= i <= a.len(),
        0 <= j <= b.len(),
        escape_from(a, i) + seq![QUOTE] + x == escape_from(b, j) + seq![QUOTE] + y,
    ensures
        a.skip(i) == b.skip(j),
        x == y,
    decreases a.len() - i,
{
    let l = escape_from(a, i) + seq![QUOTE] + x;
    let r = escape_from(b, j) + seq![QUOTE] + y;
    if i == a.len() {
        assert(l[0] == QUOTE);
        if j < b.len() {
            lemma_escape_byte_head(b[j]);
            assert(r[0] == escape_byte(b[j])[0]);
            assert(false);
        }
        assert(x =~= l.subrange(1, l.len() as int));
        assert(y =~= r.subrange(1, r.len() as int));
        assert(a.skip(i) =~= b.skip(j));
    } else if j == b.len() {
        lemma_escape_byte_head(a[i]);
        assert(l[0] == escape_byte(a[i])[0]);
        assert(r[0] == QUOTE);
        assert(false);
    } else {
        let xa = escape_from(a, i + 1) + seq![QUOTE] + x;
        let yb = escape_from(b, j + 1) + seq![QUOTE] + y;
        assert(l =~= escape_byte(a[i]) + xa);
        assert(r =~= escape_byte(b[j]) + yb);
        lemma_escape_byte_prefix_free(a[i], b[j], xa, yb);
        lemma_escape_prefix_free(a, i + 1, b, j + 1, x, y);
        assert(a.skip(i) =~= seq![a[i]] + a.skip(i + 1));
        assert(b.skip(j) =~= seq![b[j]] + b.skip(j + 1));
    }
}

/// A JSON string literal is self-delimiting: whatever follows it, the bytes
/// it holds and what follows can be read back.
pub proof fn lemma_json_string_prefix_free(a: Seq<u8>, b: Seq<u8>, x: Seq<u8>, y: Seq<u8>)
    requires
        json_string(a) + x == json_string(b) + y,
    ensures
        a == b,
        x == y,
{
    let l = json_string(a) + x;
    let r = json_string(b) + y;
    let la = escape_from(a, 0) + seq![QUOTE] + x;
    let rb = escape_from(b, 0) + seq![QUOTE] + y;
    assert(l =~= seq![QUOTE] + la);
    assert(r =~= seq![QUOTE] + rb);
    assert(la =~= l.subrange(1, l.len() as int));
    assert(rb =~= r.subrange(1, r.len() as int));
    lemma_escape_prefix_free(a, 0, b, 0, x, y);
    assert(a =~= a.skip(0));
    assert(b =~= b.skip(0));
}

/// A JSON string literal starts with a quote.
pub proof fn lemma_json_string_head(a: Seq<u8>)
    ensures
        json_string(a).len() >= 2,
        json_string(a)[0] == QUOTE,
{
}

/// A JSON array of strings is self-delimiting.
pub proof fn lemma_array_tail_prefix_free(
    a: Seq<Seq<u8>>,
    i: int,
    b: Seq<Seq<u8>>,
    j: int,
    x: Seq<u8>,
    y: Seq<u8>,
)
    requires
        0 <= i <= a.len(),
        0 <= j <= b.len(),
        (i == 0) == (j == 0),
        array_tail(a, i) + x == array_tail(b, j) + y,
    ensures
        a.skip(i) == b.skip(j),
        x == y,
    decreases a.len() - i,
{
    let l = array_tail(a, i) + x;
    let r = array_tail(b, j) + y;
    if i == a.len() {
        assert(l[0] == RBRACKET);
        if j < b.len() {
            lemma_json_string_head(b[j]);
            if j == 0 {
                assert(r[0] == json_string(b[j])[0]);
            } else {
                assert(r[0] == COMMA);
            }
            assert(false);
        }
        assert(x =~= l.subrange(1, l.len() as int));
        assert(y =~= r.subrange(1, r.len() as int));
        assert(a.skip(i) =~= b.skip(j));
    } else if j == b.len() {
        lemma_json_string_head(a[i]);
        if i == 0 {
            assert(l[0] == json_string(a[i])[0]);
        } else {
            assert(l[0] == COMMA);
        }
        assert(r[0] == RBRACKET);
        assert(false);
    } else {
        let xa = array_tail(a, i + 1) + x;
        let yb = array_tail(b, j + 1) + y;
        let sa = json_string(a[i]) + xa;
        let sb = json_string(b[j]) + yb;
        if i == 0 {
            assert(l =~= sa);
            assert(r =~= sb);
        } else {
            assert(l =~= seq![COMMA] + sa);
            assert(r =~= seq![COMMA] + sb);
            assert(sa =~= l.subrange(1, l.len() as int));
            assert(sb =~= r.subrange(1, r.len() as int));
        }
        lemma_json_string_prefix_free(a[i], b[j], xa, yb);
        lemma_array_tail_prefix_free(a, i + 1, b, j + 1, x, y);
        assert(a.skip(i) =~= seq![a[i]] + a.skip(i + 1));
        assert(b.skip(j) =~= seq![b[j]] + b.skip(j + 1));
    }
}

/// A JSON array of strings is self-delimiting: whatever follows it, its
/// items and what follows can be read back.
pub proof fn lemma_json_string_array_prefix_free(
    a: Seq<Seq<u8>>,
    b: Seq<Seq<u8>>,
    x: Seq<u8>,
    y: Seq<u8>,
)
    requires
        json_string_array(a) + x == json_string_array(b) + y,
    ensures
        a == b,
        x == y,
{
    let l = json_string_array(a) + x;
    let r = json_string_array(b) + y;
    let la = array_tail(a, 0) + x;
    let rb = array_tail(b, 0) + y;
    assert(l =~= seq![LBRACKET] + la);
    assert(r =~= seq![LBRACKET] + rb);
    assert(la =~= l.subrange(1, l.len() as int));
    assert(rb =~= r.subrange(1, r.len() as int));
    lemma_array_tail_prefix_free(a, 0, b, 0, x, y);
    assert(a =~= a.skip(0));
    assert(b =~= b.skip(0));
}

/// Whether a byte is a decimal digit.
pub open spec fn is_digit(b: u8) -> bool {
    0x30 <= b <= 0x39
}

/// The number that a sequence of decimal digits stands for.
pub open spec fn digits_value(s: Seq<u8>) -> nat
    decreases s.len(),
{
    if s.len() == 0 {
        0
    } else {
        digits_value(s.drop_last()) * 10 + (s.last() - 0x30) as nat
    }
}

/// The decimal text of a natural number is a non-empty run of digits that
/// stands for that number.
pub proof fn lemma_decimal_nat(n: nat)
    ensures
        decimal_nat(n).len() >= 1,
        forall|k: int| 0 <= k < decimal_nat(n).len() ==> is_digit(#[trigger] decimal_nat(n)[k]),
        digits_value(decimal_nat(n)) == n,
    decreases n,
{
    if n < 10 {
        let s = decimal_nat(n);
        assert(s.drop_last() =~= Seq::<u8>::empty());
        assert(digits_value(s.drop_last()) == 0);
    } else {
        lemma_decimal_nat(n / 10);
        let s = decimal_nat(n);
        assert(s.drop_last() =~= decimal_nat(n / 10));
    }
}

/// Two integers with the same decimal text are the same integer.
pub proof fn lemma_decimal_int_injective(a: int, b: int)
    requires
        decimal_int(a) == decimal_int(b),
    ensures
        a == b,
{
    if a < 0 {
        lemma_decimal_nat((-a) as nat);
    } else {
        lemma_decimal_nat(a as nat);
    }
    if b < 0 {
        lemma_decimal_nat((-b) as nat);
    } else {
        lemma_decimal_nat(b as nat);
    }
    let da = decimal_int(a);
    let db = decimal_int(b);
    if a < 0 {
        assert(da[0] == MINUS);
        if b >= 0 {
            assert(is_digit(decimal_nat(b as nat)[0]));
            assert(false);
        }
        assert(decimal_nat((-a) as nat) =~= da.subrange(1, da.len() as int));
        assert(decimal_nat((-b) as nat) =~= db.subrange(1, db.len() as int));
    } else {
        if b < 0 {
            assert(db[0] == MINUS);
            assert(is_digit(decimal_nat(a as nat)[0]));
            assert(false);
        }
    }
}

/// No byte of the decimal text of an integer is a comma.
pub proof fn lemma_decimal_int_no_comma(a: int)
    ensures
        decimal_int(a).len() >= 1,
        forall|k: int| 0 <= k < decimal_int(a).len() ==> #[trigger] decimal_int(a)[k] != COMMA,
{
    if a < 0 {
        lemma_decimal_nat((-a) as nat);
        let d = decimal_nat((-a) as nat);
        assert forall|k: int| 0 <= k < decimal_int(a).len() implies #[trigger] decimal_int(a)[k]
            != COMMA by {
            if k > 0 {
                assert(decimal_int(a)[k] == d[k - 1]);
                assert(is_digit(d[k - 1]));
            }
        }
    } else {
        lemma_decimal_nat(a as nat);
        assert forall|k: int| 0 <= k < decimal_int(a).len() implies #[trigger] decimal_int(a)[k]
            != COMMA by {
            assert(is_digit(decimal_nat(a as nat)[k]));
        }
    }
}

/// The decimal text of an integer, closed by a comma, is self-delimiting.
pub proof fn lemma_decimal_int_prefix_free(a: int, b: int, x: Seq<u8>, y: Seq<u8>)
    requires
        decimal_int(a) + seq![COMMA] + x == decimal_int(b) + seq![COMMA] + y,
    ensures
        a == b,
        x == y,
{
    let da = decimal_int(a);
    let db = decimal_int(b);
    let l = da + seq![COMMA] + x;
    let r = db + seq![COMMA] + y;
    lemma_decimal_int_no_comma(a);
    lemma_decimal_int_no_comma(b);
    let na = da.len() as int;
    let nb = db.len() as int;
    assert(l[na] == COMMA);
    assert(r[nb] == COMMA);
    if na < nb {
        assert(r[na] == db[na]);
        assert(false);
    }
    if nb < na {
        assert(l[nb] == da[nb]);
        assert(false);
    }
    assert(da =~= l.subrange(0, na));
    assert(db =~= r.subrange(0, nb));
    lemma_decimal_int_injective(a, b);
    assert(x =~= l.subrange(na + 1, l.len() as int));
    assert(y =~= r.subrange(nb + 1, r.len() as int));
}

} // verus!
