//! Base64 with the standard alphabet and padding.
use vstd::prelude::*;

verus! {

/// The character that stands for a value below 64.
pub open spec fn symbol(value: int) -> char {
    if value < 26 {
        (('A' as u8) + value) as char
    } else if value < 52 {
        (('a' as u8) + (value - 26)) as char
    } else if value < 62 {
        (('0' as u8) + (value - 52)) as char
    } else if value == 62 {
        '+'
    } else {
        '/'
    }
}

/// The Base64 text of `data`: four characters for each three bytes, each
/// character six bits, the last group filled up with `=`.
pub open spec fn base64(data: Seq<u8>) -> Seq<char>
    decreases data.len(),
{
    if data.len() == 0 {
        Seq::empty()
    } else if data.len() == 1 {
        let a = data[0] as int;
        seq![symbol(a / 4), symbol(a % 4 * 16), '=', '=']
    } else if data.len() == 2 {
        let (a, b) = (data[0] as int, data[1] as int);
        seq![symbol(a / 4), symbol(a % 4 * 16 + b / 16), symbol(b % 16 * 4), '=']
    } else {
        let (a, b, c) = (data[0] as int, data[1] as int, data[2] as int);
        seq![
            symbol(a / 4),
            symbol(a % 4 * 16 + b / 16),
            symbol(b % 16 * 4 + c / 64),
            symbol(c % 64),
        ] + base64(data.skip(3))
    }
}

fn encode_symbol(value: u8) -> (c: char)
    requires
        value < 64,
    ensures
        c == symbol(value as int),
{
    if value < 26 {
        ('A' as u8 + value) as char
    } else if value < 52 {
        ('a' as u8 + (value - 26)) as char
    } else if value < 62 {
        ('0' as u8 + (value - 52)) as char
    } else if value == 62 {
        '+'
    } else {
        '/'
    }
}

/// The Base64 text of `data`.
pub fn encode_block(data: &[u8]) -> (text: String)
    ensures
        text@ == base64(data@),
{
    let mut text = String::new();
    let mut i: usize = 0;
    proof {
        assert(data@.skip(0) == data@);
    }
    while data.len() - i >= 3
        invariant
            i <= data@.len(),
            text@ + base64(data@.skip(i as int)) == base64(data@),
        decreases data@.len() - i,
    {
        let (a, b, c) = (data[i], data[i + 1], data[i + 2]);
        proof {
            assert(data@.skip(i as int).skip(3) == data@.skip(i + 3));
        }
        let ghost before = text@;
        text.push(encode_symbol(a / 4));
        text.push(encode_symbol(a % 4 * 16 + b / 16));
        text.push(encode_symbol(b % 16 * 4 + c / 64));
        text.push(encode_symbol(c % 64));
        proof {
            let rest = base64(data@.skip(i + 3));
            assert(text@ + rest == before + base64(data@.skip(i as int)));
        }
        i = i + 3;
    }
    let ghost before = text@;
    if data.len() - i == 2 {
        let (a, b) = (data[i], data[i + 1]);
        text.push(encode_symbol(a / 4));
        text.push(encode_symbol(a % 4 * 16 + b / 16));
        text.push(encode_symbol(b % 16 * 4));
        text.push('=');
    } else if data.len() - i == 1 {
        let a = data[i];
        text.push(encode_symbol(a / 4));
        text.push(encode_symbol(a % 4 * 16));
        text.push('=');
        text.push('=');
    }
    proof {
        assert(text@ == before + base64(data@.skip(i as int)));
    }
    text
}

/// The Base64 text of n bytes has four characters for each group of three
/// bytes that is begun.
pub proof fn base64_length(data: Seq<u8>)
    ensures
        base64(data).len() == (data.len() + 2) / 3 * 4,
    decreases data.len(),
{
    if data.len() > 2 {
        base64_length(data.skip(3));
    }
}

/// The value below 64 that a symbol stands for.
spec fn symbol_value(c: char) -> int {
    if c == '+' {
        62
    } else if c == '/' {
        63
    } else if c <= '9' {
        c as int - '0' as int + 52
    } else if c <= 'Z' {
        c as int - 'A' as int
    } else {
        c as int - 'a' as int + 26
    }
}

proof fn symbol_stands_for_value(value: int)
    requires
        0 <= value < 64,
    ensures
        symbol_value(symbol(value)) == value,
        symbol(value) != '=',
{
}

/// The three bytes that four six-bit values hold.
proof fn group_holds_bytes(a: int, b: int, c: int)
    requires
        0 <= a < 256,
        0 <= b < 256,
        0 <= c < 256,
    ensures
        a == (a / 4) * 4 + (a % 4 * 16 + b / 16) / 16,
        b == (a % 4 * 16 + b / 16) % 16 * 16 + (b % 16 * 4 + c / 64) / 4,
        c == (b % 16 * 4 + c / 64) % 4 * 64 + c % 64,
        0 <= a / 4 < 64,
        0 <= a % 4 * 16 + b / 16 < 64,
        0 <= b % 16 * 4 + c / 64 < 64,
{
}

/// The first `min(3, data.len())` bytes of `data` and what its first four
/// characters say of them.
proof fn first_group(data: Seq<u8>)
    requires
        data.len() > 0,
    ensures
        ({
            let s = base64(data);
            let (p, q) = (symbol_value(s[0]), symbol_value(s[1]));
            &&& s.len() >= 4
            &&& data[0] == p * 4 + q / 16
            &&& (s[2] == '=') == (data.len() == 1)
            &&& (s[3] == '=') == (data.len() <= 2)
            &&& data.len() >= 2 ==> data[1] == q % 16 * 16 + symbol_value(s[2]) / 4
            &&& data.len() >= 3 ==> {
                &&& data[2] == symbol_value(s[2]) % 4 * 64 + symbol_value(s[3])
                &&& s.skip(4) == base64(data.skip(3))
            }
        }),
{
    let a = data[0] as int;
    let b = if data.len() >= 2 { data[1] as int } else { 0 };
    let c = if data.len() >= 3 { data[2] as int } else { 0 };
    group_holds_bytes(a, b, c);
    symbol_stands_for_value(a / 4);
    symbol_stands_for_value(a % 4 * 16 + b / 16);
    symbol_stands_for_value(b % 16 * 4 + c / 64);
    symbol_stands_for_value(c % 64);
    if data.len() >= 3 {
        assert(base64(data).skip(4) == base64(data.skip(3)));
    }
}

/// The encoding loses nothing: different bytes have different Base64 texts.
pub proof fn base64_is_injective(a: Seq<u8>, b: Seq<u8>)
    requires
        base64(a) == base64(b),
    ensures
        a == b,
    decreases a.len(),
{
    base64_length(a);
    base64_length(b);
    if a.len() > 0 {
        first_group(a);
        first_group(b);
        if a.len() > 2 {
            base64_is_injective(a.skip(3), b.skip(3));
            assert(a == seq![a[0], a[1], a[2]] + a.skip(3));
            assert(b == seq![b[0], b[1], b[2]] + b.skip(3));
        } else {
            assert(a == b);
        }
    }
}

/// The six bits that a character of the standard alphabet stands for, or -1 for a
/// character that is not of the alphabet.
pub open spec fn six_bits(c: char) -> int {
    if 'A' <= c <= 'Z' {
        c as int - 'A' as int
    } else if 'a' <= c <= 'z' {
        c as int - 'a' as int + 26
    } else if '0' <= c <= '9' {
        c as int - '0' as int + 52
    } else if c == '+' {
        62
    } else if c == '/' {
        63
    } else {
        -1
    }
}

/// The byte at this place, or zero behind the end.
pub open spec fn byte_at(data: Seq<u8>, i: int) -> int {
    if 0 <= i < data.len() {
        data[i] as int
    } else {
        0
    }
}

/// The 24 bits of the three bytes of this group, with zeros behind the end.
pub open spec fn group_bits(data: Seq<u8>, group: int) -> int {
    byte_at(data, 3 * group) * 65536 + byte_at(data, 3 * group + 1) * 256 + byte_at(
        data,
        3 * group + 2,
    )
}

/// Whether four characters show the 24 bits of this group, six bits each, with `=`
/// in the place of the last two as far as they would show nothing of the data.
pub open spec fn shows_group(text: Seq<char>, data: Seq<u8>, group: int) -> bool {
    let bits = group_bits(data, group);
    &&& six_bits(text[4 * group]) == bits / 262144
    &&& six_bits(text[4 * group + 1]) == bits / 4096 % 64
    &&& if 3 * group + 1 < data.len() {
        six_bits(text[4 * group + 2]) == bits / 64 % 64
    } else {
        text[4 * group + 2] == '='
    }
    &&& if 3 * group + 2 < data.len() {
        six_bits(text[4 * group + 3]) == bits % 64
    } else {
        text[4 * group + 3] == '='
    }
}

/// Whether the text shows all bits of all the bytes and nothing else.
pub open spec fn shows_all_bits(text: Seq<char>, data: Seq<u8>) -> bool {
    &&& text.len() == (data.len() + 2) / 3 * 4
    &&& forall|group: int|
        0 <= group < (data.len() + 2) / 3 ==> #[trigger] shows_group(text, data, group)
}

proof fn symbol_shows_six_bits(value: int)
    requires
        0 <= value < 64,
    ensures
        six_bits(symbol(value)) == value,
{
}

proof fn bits_of_group(a: int, b: int, c: int)
    requires
        0 <= a < 256,
        0 <= b < 256,
        0 <= c < 256,
    ensures
        ({
            let bits = a * 65536 + b * 256 + c;
            &&& bits / 262144 == a / 4
            &&& bits / 4096 % 64 == a % 4 * 16 + b / 16
            &&& bits / 64 % 64 == b % 16 * 4 + c / 64
            &&& bits % 64 == c % 64
        }),
{
    let bits = a * 65536 + b * 256 + c;
    let (p, q) = (a / 4, a % 4 * 16 + b / 16);
    let (r, s) = (b % 16 * 4 + c / 64, c % 64);
    assert(0 <= q < 64 && 0 <= r < 64 && 0 <= s < 64);
    assert(bits == 262144 * p + 4096 * q + 64 * r + s);
    four_digits_of_bits(bits, p, q, r, s);
}

proof fn four_digits_of_bits(bits: int, p: int, q: int, r: int, s: int)
    requires
        0 <= q < 64,
        0 <= r < 64,
        0 <= s < 64,
        bits == 262144 * p + 4096 * q + 64 * r + s,
    ensures
        bits / 262144 == p,
        bits / 4096 % 64 == q,
        bits / 64 % 64 == r,
        bits % 64 == s,
{
    let high = 4096 * p + 64 * q + r;
    assert(bits == 64 * high + s);
    assert(bits / 64 == high && bits % 64 == s);
    let higher = 64 * p + q;
    assert(high == 64 * higher + r);
    assert(bits / 4096 == higher);
    assert(high % 64 == r);
    assert(higher % 64 == q);
}

proof fn base64_shows_first_group(data: Seq<u8>)
    requires
        data.len() > 0,
    ensures
        shows_group(base64(data), data, 0),
{
    let (a, b, c) = (byte_at(data, 0), byte_at(data, 1), byte_at(data, 2));
    group_holds_bytes(a, b, c);
    bits_of_group(a, b, c);
    symbol_shows_six_bits(a / 4);
    symbol_shows_six_bits(a % 4 * 16 + b / 16);
    symbol_shows_six_bits(b % 16 * 4 + c / 64);
    symbol_shows_six_bits(c % 64);
    let text = base64(data);
    assert(text[0] == symbol(a / 4));
    assert(text[1] == symbol(a % 4 * 16 + b / 16));
    assert(data.len() > 1 ==> text[2] == symbol(b % 16 * 4 + c / 64));
    assert(data.len() > 2 ==> text[3] == symbol(c % 64));
}

proof fn base64_shows_group(data: Seq<u8>, group: int)
    requires
        0 <= group < (data.len() + 2) / 3,
    ensures
        shows_group(base64(data), data, group),
    decreases group,
{
    if group == 0 {
        base64_shows_first_group(data);
    } else {
        let rest = data.skip(3);
        base64_shows_group(rest, group - 1);
        base64_length(rest);
        let text = base64(data);
        assert(group_bits(rest, group - 1) == group_bits(data, group)) by {
            assert(byte_at(rest, 3 * (group - 1)) == byte_at(data, 3 * group));
            assert(byte_at(rest, 3 * (group - 1) + 1) == byte_at(data, 3 * group + 1));
            assert(byte_at(rest, 3 * (group - 1) + 2) == byte_at(data, 3 * group + 2));
        }
        assert(forall|i: int| 4 <= i < text.len() ==> text[i] == base64(rest)[i - 4]);
        assert(text.len() == base64(rest).len() + 4);
        assert(base64(rest)[4 * (group - 1)] == text[4 * group]);
        assert(base64(rest)[4 * (group - 1) + 1] == text[4 * group + 1]);
        assert(base64(rest)[4 * (group - 1) + 2] == text[4 * group + 2]);
        assert(base64(rest)[4 * (group - 1) + 3] == text[4 * group + 3]);
    }
}

pub(crate) proof fn base64_shows_all_bits(data: Seq<u8>)
    ensures
        shows_all_bits(base64(data), data),
{
    base64_length(data);
    assert forall|group: int| 0 <= group < (data.len() + 2) / 3 implies #[trigger] shows_group(
        base64(data),
        data,
        group,
    ) by {
        base64_shows_group(data, group);
    }
}

/// Read six bits at a time, an encoded block gives back every byte that was encoded,
/// in its place, whatever their number.
pub proof fn encoded_block_shows_its_bytes(data: &[u8], text: String)
    requires
        call_ensures(encode_block, (data,), text),
    ensures
        shows_all_bits(text@, data@),
{
    base64_shows_all_bits(data@);
}

/// Two blocks have the same text only where they are the same.
pub proof fn encoded_blocks_are_told_apart(a: &[u8], b: &[u8], first: String, second: String)
    requires
        call_ensures(encode_block, (a,), first),
        call_ensures(encode_block, (b,), second),
    ensures
        first@ == second@ <==> a@ == b@,
{
    if first@ == second@ {
        base64_is_injective(a@, b@);
    }
}

} // verus!
