//! Standard base64 (RFC 4648 alphabet, `=` padding, no line breaks).
use vstd::prelude::*;
use base64::Engine;

verus! {

/// The symbol for a six-bit value: `A-Z`, `a-z`, `0-9`, `+`, `/`.
pub open spec fn b64_symbol(v: int) -> char {
    if v < 26 {
        (65 + v) as u32 as char
    } else if v < 52 {
        (97 + v - 26) as u32 as char
    } else if v < 62 {
        (48 + v - 52) as u32 as char
    } else if v == 62 {
        '+'
    } else {
        '/'
    }
}

/// The six-bit value of a symbol (meaningful for the 64 symbols only).
pub open spec fn b64_value(c: char) -> int {
    let u = c as u32 as int;
    if 65 <= u < 91 {
        u - 65
    } else if 97 <= u < 123 {
        u - 97 + 26
    } else if 48 <= u < 58 {
        u - 48 + 52
    } else if c == '+' {
        62
    } else {
        63
    }
}

/// Four symbols for three bytes.
pub open spec fn encode_group(x: int, y: int, z: int) -> Seq<char> {
    seq![
        b64_symbol(x / 4),
        b64_symbol((x % 4) * 16 + y / 16),
        b64_symbol((y % 16) * 4 + z / 64),
        b64_symbol(z % 64),
    ]
}

/// Base64 text of a byte sequence, three bytes to four symbols, the last
/// group padded with `=`.
pub open spec fn b64_encode(b: Seq<u8>) -> Seq<char>
    decreases b.len(),
{
    if b.len() == 0 {
        seq![]
    } else if b.len() == 1 {
        encode_group(b[0] as int, 0, 0).subrange(0, 2) + seq!['=', '=']
    } else if b.len() == 2 {
        encode_group(b[0] as int, b[1] as int, 0).subrange(0, 3) + seq!['=']
    } else {
        encode_group(b[0] as int, b[1] as int, b[2] as int) + b64_encode(b.subrange(3, b.len() as int))
    }
}

/// The bytes of one group of four symbols; `=` in the third or fourth place
/// ends the group early.
pub open spec fn decode_group(a: char, b: char, c: char, d: char) -> Seq<u8> {
    let x = (b64_value(a) * 4 + b64_value(b) / 16) as u8;
    let y = ((b64_value(b) % 16) * 16 + b64_value(c) / 4) as u8;
    let z = ((b64_value(c) % 4) * 64 + b64_value(d)) as u8;
    if c == '=' {
        seq![x]
    } else if d == '=' {
        seq![x, y]
    } else {
        seq![x, y, z]
    }
}

/// The bytes that base64 text stands for, read four symbols at a time.
pub open spec fn b64_decode(s: Seq<char>) -> Seq<u8>
    decreases s.len(),
{
    if s.len() < 4 {
        seq![]
    } else {
        decode_group(s[0], s[1], s[2], s[3]) + b64_decode(s.subrange(4, s.len() as int))
    }
}

proof fn lemma_symbol_value(v: int)
    requires
        0 <= v < 64,
    ensures
        b64_value(b64_symbol(v)) == v,
        b64_symbol(v) != '=',
{
    if v < 26 {
        let u = (65 + v) as u32;
        assert((u as char) as u32 == u);
    } else if v < 52 {
        let u = (97 + v - 26) as u32;
        assert((u as char) as u32 == u);
    } else if v < 62 {
        let u = (48 + v - 52) as u32;
        assert((u as char) as u32 == u);
    }
}

proof fn lemma_group_round_trip(x: int, y: int, z: int)
    requires
        0 <= x < 256,
        0 <= y < 256,
        0 <= z < 256,
    ensures
        ({
            let g = encode_group(x, y, z);
            &&& b64_value(g[0]) == x / 4
            &&& b64_value(g[1]) == (x % 4) * 16 + y / 16
            &&& b64_value(g[2]) == (y % 16) * 4 + z / 64
            &&& b64_value(g[3]) == z % 64
            &&& g[2] != '='
            &&& g[3] != '='
        }),
        (x / 4) * 4 + ((x % 4) * 16 + y / 16) / 16 == x,
        (((x % 4) * 16 + y / 16) % 16) * 16 + ((y % 16) * 4 + z / 64) / 4 == y,
        (((y % 16) * 4 + z / 64) % 4) * 64 + z % 64 == z,
{
    lemma_symbol_value(x / 4);
    lemma_symbol_value((x % 4) * 16 + y / 16);
    lemma_symbol_value((y % 16) * 4 + z / 64);
    lemma_symbol_value(z % 64);
    assert((x / 4) * 4 + ((x % 4) * 16 + y / 16) / 16 == x) by (nonlinear_arith)
        requires 0 <= x < 256, 0 <= y < 256;
    assert((((x % 4) * 16 + y / 16) % 16) * 16 + ((y % 16) * 4 + z / 64) / 4 == y) by (nonlinear_arith)
        requires 0 <= x < 256, 0 <= y < 256, 0 <= z < 256;
    assert((((y % 16) * 4 + z / 64) % 4) * 64 + z % 64 == z) by (nonlinear_arith)
        requires 0 <= y < 256, 0 <= z < 256;
}

/// Decoding the base64 text of any byte sequence gives that sequence back.
pub proof fn lemma_base64_round_trip(b: Seq<u8>)
    ensures
        b64_decode(b64_encode(b)) == b,
    decreases b.len(),
{
    if b.len() == 0 {
        assert(b64_decode(b64_encode(b)) =~= b);
    } else if b.len() == 1 {
        let x = b[0] as int;
        lemma_group_round_trip(x, 0, 0);
        let g = encode_group(x, 0, 0);
        let s = b64_encode(b);
        assert(s =~= seq![g[0], g[1], '=', '=']);
        assert(s.subrange(4, s.len() as int) =~= seq![]);
        assert(b64_decode(s.subrange(4, s.len() as int)) =~= seq![]);
        assert(decode_group(s[0], s[1], s[2], s[3]) =~= b);
        assert(b64_decode(s) =~= b);
    } else if b.len() == 2 {
        let (x, y) = (b[0] as int, b[1] as int);
        lemma_group_round_trip(x, y, 0);
        let g = encode_group(x, y, 0);
        let s = b64_encode(b);
        assert(s =~= seq![g[0], g[1], g[2], '=']);
        assert(s.subrange(4, s.len() as int) =~= seq![]);
        assert(b64_decode(s.subrange(4, s.len() as int)) =~= seq![]);
        assert(decode_group(s[0], s[1], s[2], s[3]) =~= b);
        assert(b64_decode(s) =~= b);
    } else {
        let (x, y, z) = (b[0] as int, b[1] as int, b[2] as int);
        lemma_group_round_trip(x, y, z);
        let rest = b.subrange(3, b.len() as int);
        lemma_base64_round_trip(rest);
        let s = b64_encode(b);
        assert(s.subrange(4, s.len() as int) =~= b64_encode(rest));
        assert(b64_decode(s) =~= b);
    }
}

/// Whether the base64 text of `n` bytes has a length that fits in `usize`.
pub open spec fn encodable_len(n: int) -> bool {
    (n + 2) / 3 * 4 <= usize::MAX
}

/// Relies on base64's `engine::general_purpose::STANDARD.encode`: standard
/// alphabet, `=` padding, no line breaks; it panics only where the output
/// length overflows `usize`.
#[verifier::external_body]
fn encode_standard(bytes: &Vec<u8>) -> (r: String)
    requires
        encodable_len(bytes@.len() as int),
    ensures
        r@ == b64_encode(bytes@),
{
    base64::engine::general_purpose::STANDARD.encode(bytes)
}

/// The standard, padded base64 text of `bytes`.
pub fn encode_base64(bytes: &Vec<u8>) -> (r: String)
    requires
        encodable_len(bytes@.len() as int),
    ensures
        r@ == b64_encode(bytes@),
{
    encode_standard(bytes)
}

} // verus!
