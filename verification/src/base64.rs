//! The standard Base64 encoding, with padding.

use vstd::prelude::*;

verus! {

/// The character of the standard alphabet for a six-bit value: `A` to `Z`,
/// `a` to `z`, `0` to `9`, `+` and `/`.
pub open spec fn symbol(value: int) -> u8 {
    if value < 26 {
        (65 + value) as u8
    } else if value < 52 {
        (97 + value - 26) as u8
    } else if value < 62 {
        (48 + value - 52) as u8
    } else if value == 62 {
        43
    } else {
        47
    }
}

/// The four characters for three bytes.
pub open spec fn encode_three(b0: u8, b1: u8, b2: u8) -> Seq<u8> {
    seq![
        symbol(b0 as int / 4),
        symbol(b0 as int % 4 * 16 + b1 as int / 16),
        symbol(b1 as int % 16 * 4 + b2 as int / 64),
        symbol(b2 as int % 64),
    ]
}

/// The four characters for two last bytes: three symbols and one `=`.
pub open spec fn encode_two(b0: u8, b1: u8) -> Seq<u8> {
    seq![
        symbol(b0 as int / 4),
        symbol(b0 as int % 4 * 16 + b1 as int / 16),
        symbol(b1 as int % 16 * 4),
        61u8,
    ]
}

/// The four characters for one last byte: two symbols and `==`.
pub open spec fn encode_one(b0: u8) -> Seq<u8> {
    seq![symbol(b0 as int / 4), symbol(b0 as int % 4 * 16), 61u8, 61u8]
}

/// The Base64 text of `data`: four characters for each three bytes, the last
/// group padded with `=`.
pub open spec fn base64_spec(data: Seq<u8>) -> Seq<u8>
    decreases data.len(),
{
    if data.len() == 0 {
        Seq::empty()
    } else if data.len() == 1 {
        encode_one(data[0])
    } else if data.len() == 2 {
        encode_two(data[0], data[1])
    } else {
        encode_three(data[0], data[1], data[2]) + base64_spec(data.skip(3))
    }
}

fn symbol_of(value: u8) -> (c: u8)
    requires
        value < 64,
    ensures
        c == symbol(value as int),
{
    if value < 26 {
        65 + value
    } else if value < 52 {
        97 + (value - 26)
    } else if value < 62 {
        48 + (value - 52)
    } else if value == 62 {
        43
    } else {
        47
    }
}

/// Encodes `data` in Base64.
pub fn encode(data: &[u8]) -> (text: Vec<u8>)
    ensures
        text@ == base64_spec(data@),
{
    let mut text: Vec<u8> = Vec::new();
    let mut i: usize = 0;
    assert(data@.skip(0) =~= data@);
    while data.len() - i >= 3
        invariant
            i <= data.len(),
            text@ + base64_spec(data@.skip(i as int)) == base64_spec(data@),
        decreases data.len() - i,
    {
        let b0: u8 = data[i];
        let b1: u8 = data[i + 1];
        let b2: u8 = data[i + 2];
        let ghost before = text@;
        text.push(symbol_of(b0 / 4));
        text.push(symbol_of(b0 % 4 * 16 + b1 / 16));
        text.push(symbol_of(b1 % 16 * 4 + b2 / 64));
        text.push(symbol_of(b2 % 64));
        proof {
            let rest = data@.skip(i as int);
            assert(rest.skip(3) =~= data@.skip(i + 3));
            assert(text@ =~= before + encode_three(b0, b1, b2));
            assert(text@ + base64_spec(data@.skip(i + 3)) =~= before + base64_spec(rest));
        }
        i += 3;
    }
    let ghost rest = data@.skip(i as int);
    let ghost before = text@;
    if data.len() - i == 1 {
        let b0: u8 = data[i];
        text.push(symbol_of(b0 / 4));
        text.push(symbol_of(b0 % 4 * 16));
        text.push(61);
        text.push(61);
        assert(text@ =~= before + encode_one(b0));
    } else if data.len() - i == 2 {
        let b0: u8 = data[i];
        let b1: u8 = data[i + 1];
        text.push(symbol_of(b0 / 4));
        text.push(symbol_of(b0 % 4 * 16 + b1 / 16));
        text.push(symbol_of(b1 % 16 * 4));
        text.push(61);
        assert(text@ =~= before + encode_two(b0, b1));
    } else {
        assert(text@ =~= before + base64_spec(rest));
    }
    text
}

/// The text of `n` bytes has four characters for each three bytes or part
/// of three.
pub proof fn encoded_length(data: Seq<u8>)
    ensures
        base64_spec(data).len() == 4 * ((data.len() + 2) / 3),
    decreases data.len(),
{
    if data.len() >= 3 {
        encoded_length(data.skip(3));
    }
}

} // verus!
