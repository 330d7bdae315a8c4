//! Character-level building blocks of the emitted text: decimal and
//! hexadecimal numerals, byte lists and separator-joined sequences.

use vstd::prelude::*;

verus! {

/// The character of the decimal digit `d`, for `0 <= d < 10`.
pub open spec fn decimal_digit(d: int) -> char {
    ('0' as int + d) as char
}

/// The lower-case character of the hexadecimal digit `d`, for `0 <= d < 16`.
pub open spec fn hex_lower_digit(d: int) -> char {
    if d < 10 {
        ('0' as int + d) as char
    } else {
        ('a' as int + (d - 10)) as char
    }
}

/// The upper-case character of the hexadecimal digit `d`, for `0 <= d < 16`.
pub open spec fn hex_upper_digit(d: int) -> char {
    if d < 10 {
        ('0' as int + d) as char
    } else {
        ('A' as int + (d - 10)) as char
    }
}

/// The decimal numeral of `n`, most significant digit first, without
/// leading zeros.
pub open spec fn decimal_text(n: nat) -> Seq<char>
    decreases n,
{
    if n < 10 {
        seq![decimal_digit(n as int)]
    } else {
        decimal_text(n / 10).push(decimal_digit((n % 10) as int))
    }
}

/// The decimal numeral of `i`, with a leading `-` when `i` is negative.
pub open spec fn signed_decimal_text(i: int) -> Seq<char> {
    if i < 0 {
        seq!['-'] + decimal_text((-i) as nat)
    } else {
        decimal_text(i as nat)
    }
}

/// The `width` least significant hexadecimal digits of `n`, lower case,
/// most significant first.
pub open spec fn hex_text(n: nat, width: nat) -> Seq<char>
    decreases width,
{
    if width == 0 {
        Seq::empty()
    } else {
        hex_text(n / 16, (width - 1) as nat).push(hex_lower_digit((n % 16) as int))
    }
}

/// One byte as the token `0xHH`, with upper-case digits.
pub open spec fn byte_text(b: u8) -> Seq<char> {
    seq!['0', 'x', hex_upper_digit(b as int / 16), hex_upper_digit(b as int % 16)]
}

/// The decimal digit `d` as a string of one character.
fn decimal_digit_str(d: u64) -> (s: &'static str)
    requires
        d < 10,
    ensures
        s@ == seq![decimal_digit(d as int)],
{
    proof {
        reveal_strlit("0123456789");
    }
    "0123456789".substring_ascii(d as usize, d as usize + 1)
}

/// The hexadecimal digit `d` as a string of one lower-case character.
fn hex_lower_digit_str(d: u64) -> (s: &'static str)
    requires
        d < 16,
    ensures
        s@ == seq![hex_lower_digit(d as int)],
{
    proof {
        reveal_strlit("0123456789abcdef");
    }
    "0123456789abcdef".substring_ascii(d as usize, d as usize + 1)
}

/// The hexadecimal digit `d` as a string of one upper-case character.
fn hex_upper_digit_str(d: u8) -> (s: &'static str)
    requires
        d < 16,
    ensures
        s@ == seq![hex_upper_digit(d as int)],
{
    proof {
        reveal_strlit("0123456789ABCDEF");
    }
    "0123456789ABCDEF".substring_ascii(d as usize, d as usize + 1)
}

/// Appends the decimal numeral of `n` to `out`.
pub fn push_decimal(out: &mut String, n: u64)
    ensures
        final(out)@ == old(out)@ + decimal_text(n as nat),
    decreases n,
{
    if n >= 10 {
        push_decimal(out, n / 10);
    }
    out.append(decimal_digit_str(n % 10));
}

/// The distance of `i` from zero.
pub open spec fn magnitude_of(i: int) -> nat {
    if i < 0 {
        (-i) as nat
    } else {
        i as nat
    }
}

/// The distance of `i` from zero, which fits 64 bits also for the least
/// value.
pub fn magnitude(i: i64) -> (m: u64)
    ensures
        m == magnitude_of(i as int),
{
    if i < 0 {
        (-(i + 1)) as u64 + 1
    } else {
        i as u64
    }
}

/// Appends the decimal numeral of `i` to `out`, with a leading `-` when
/// `i` is negative.
pub fn push_signed_decimal(out: &mut String, i: i64)
    ensures
        final(out)@ == old(out)@ + signed_decimal_text(i as int),
{
    if i < 0 {
        proof {
            reveal_strlit("-");
        }
        out.append("-");
        push_decimal(out, magnitude(i));
    } else {
        push_decimal(out, i as u64);
    }
}

/// Appends the `width` least significant hexadecimal digits of `n` to
/// `out`, lower case, most significant first.
pub fn push_hex(out: &mut String, n: u64, width: u8)
    ensures
        final(out)@ == old(out)@ + hex_text(n as nat, width as nat),
    decreases width,
{
    if width > 0 {
        push_hex(out, n / 16, width - 1);
        out.append(hex_lower_digit_str(n % 16));
    }
}

/// Appends the token `0xHH` of the byte `b` to `out`.
pub fn push_byte(out: &mut String, b: u8)
    ensures
        final(out)@ == old(out)@ + byte_text(b),
{
    proof {
        reveal_strlit("0x");
    }
    out.append("0x");
    out.append(hex_upper_digit_str(b / 16));
    out.append(hex_upper_digit_str(b % 16));
}

/// The parts in order, with `sep` between each two neighbours and none
/// after the last.
pub open spec fn join(parts: Seq<Seq<char>>, sep: Seq<char>) -> Seq<char>
    decreases parts.len(),
{
    if parts.len() == 0 {
        Seq::empty()
    } else if parts.len() == 1 {
        parts[0]
    } else {
        join(parts.drop_last(), sep) + sep + parts.last()
    }
}

/// Joining one more part adds a separator exactly when parts came before.
pub proof fn lemma_join_push(parts: Seq<Seq<char>>, part: Seq<char>, sep: Seq<char>)
    ensures
        join(parts.push(part), sep) == if parts.len() == 0 {
            part
        } else {
            join(parts, sep) + sep + part
        },
{
    assert(parts.push(part).drop_last() =~= parts);
}

/// The tokens of the bytes, one `0xHH` each.
pub open spec fn byte_tokens(bytes: Seq<u8>) -> Seq<Seq<char>> {
    bytes.map_values(|b: u8| byte_text(b))
}

/// A byte sequence as its `0xHH` tokens joined by a comma and a space, in
/// input order.
pub open spec fn byte_list_text(bytes: Seq<u8>) -> Seq<char> {
    join(byte_tokens(bytes), ", "@)
}

/// Appends the comma-joined `0xHH` tokens of `bytes` to `out`.
pub fn push_byte_list(out: &mut String, bytes: &[u8])
    ensures
        final(out)@ == old(out)@ + byte_list_text(bytes@),
{
    let mut i: usize = 0;
    while i < bytes.len()
        invariant
            i <= bytes.len(),
            out@ == old(out)@ + byte_list_text(bytes@.take(i as int)),
        decreases bytes.len() - i,
    {
        if i > 0 {
            out.append(", ");
        }
        push_byte(out, bytes[i]);
        proof {
            let before = byte_tokens(bytes@.take(i as int));
            assert(byte_tokens(bytes@.take(i + 1)) =~= before.push(byte_text(bytes[i as int])));
            lemma_join_push(before, byte_text(bytes[i as int]), ", "@);
        }
        i += 1;
    }
    assert(bytes@.take(i as int) =~= bytes@);
}

/// What is left of `n` above its `width` least significant hexadecimal
/// digits.
pub open spec fn above_hex_digits(n: nat, width: nat) -> nat
    decreases width,
{
    if width == 0 {
        n
    } else {
        above_hex_digits(n / 16, (width - 1) as nat)
    }
}

/// A fixed-width hexadecimal numeral has exactly `width` characters.
pub proof fn lemma_hex_text_len(n: nat, width: nat)
    ensures
        hex_text(n, width).len() == width,
    decreases width,
{
    if width > 0 {
        lemma_hex_text_len(n / 16, (width - 1) as nat);
    }
}

/// Two numbers with the same `width`-digit hexadecimal numeral, and the
/// same part above those digits, are the same number.
pub proof fn lemma_hex_text_injective(a: nat, b: nat, width: nat)
    requires
        hex_text(a, width) == hex_text(b, width),
        above_hex_digits(a, width) == above_hex_digits(b, width),
    ensures
        a == b,
    decreases width,
{
    if width > 0 {
        let rest = (width - 1) as nat;
        let high_a = hex_text(a / 16, rest);
        let high_b = hex_text(b / 16, rest);
        let low_a = hex_lower_digit((a % 16) as int);
        let low_b = hex_lower_digit((b % 16) as int);
        assert(high_a.push(low_a).last() == low_a);
        assert(high_b.push(low_b).last() == low_b);
        assert(high_a.push(low_a).drop_last() =~= high_a);
        assert(high_b.push(low_b).drop_last() =~= high_b);
        lemma_hex_text_injective(a / 16, b / 16, rest);
    }
}

/// Sixteen hexadecimal digits tell any two 64-bit values apart.
pub proof fn lemma_hex16_injective(a: u64, b: u64)
    requires
        hex_text(a as nat, 16) == hex_text(b as nat, 16),
    ensures
        a == b,
{
    reveal_with_fuel(above_hex_digits, 17);
    lemma_hex_text_injective(a as nat, b as nat, 16);
}

/// Two bytes with the same token are the same byte.
pub proof fn lemma_byte_text_injective(a: u8, b: u8)
    requires
        byte_text(a) == byte_text(b),
    ensures
        a == b,
{
}

/// A list of `n > 0` bytes takes four characters a token and two a
/// separator; the empty list renders as nothing.
pub proof fn lemma_byte_list_len(bytes: Seq<u8>)
    ensures
        byte_list_text(bytes).len() == if bytes.len() == 0 {
            0
        } else {
            6 * bytes.len() - 2
        },
    decreases bytes.len(),
{
    reveal_strlit(", ");
    if bytes.len() > 1 {
        assert(byte_tokens(bytes).drop_last() =~= byte_tokens(bytes.drop_last()));
        lemma_byte_list_len(bytes.drop_last());
    }
}

/// Rendering a byte sequence loses nothing: two sequences with the same
/// text are the same sequence.
pub proof fn lemma_byte_list_injective(a: Seq<u8>, b: Seq<u8>)
    requires
        byte_list_text(a) == byte_list_text(b),
    ensures
        a == b,
    decreases a.len(),
{
    lemma_byte_list_len(a);
    lemma_byte_list_len(b);
    if a.len() == 1 {
        lemma_byte_text_injective(a[0], b[0]);
    } else if a.len() > 1 {
        let text = byte_list_text(a);
        let n = text.len() as int;
        let front_a = byte_list_text(a.drop_last());
        let front_b = byte_list_text(b.drop_last());
        assert(byte_tokens(a).drop_last() =~= byte_tokens(a.drop_last()));
        assert(byte_tokens(b).drop_last() =~= byte_tokens(b.drop_last()));
        lemma_byte_list_len(a.drop_last());
        lemma_byte_list_len(b.drop_last());
        assert(text.subrange(n - 4, n) =~= byte_text(a.last()));
        assert(text.subrange(n - 4, n) =~= byte_text(b.last()));
        assert(text.subrange(0, n - 6) =~= front_a);
        assert(text.subrange(0, n - 6) =~= front_b);
        lemma_byte_text_injective(a.last(), b.last());
        lemma_byte_list_injective(a.drop_last(), b.drop_last());
        assert(a =~= a.drop_last().push(a.last()));
        assert(b =~= b.drop_last().push(b.last()));
    }
}

} // verus!
