//! The SHA-1 digest of a byte sequence.

use vstd::prelude::*;
use crate::bytes::copy_range;

verus! {

/// The five words of the running hash.
#[derive(Clone, Copy, Debug, PartialEq, Eq, Structural)]
pub struct HashState {
    pub a: u32,
    pub b: u32,
    pub c: u32,
    pub d: u32,
    pub e: u32,
}

/// The hash before any block.
pub open spec fn initial_state() -> HashState {
    HashState { a: 0x67452301, b: 0xefcdab89, c: 0x98badcfe, d: 0x10325476, e: 0xc3d2e1f0 }
}

/// `x` rotated left by `n` bits, for `n` from 1 to 31.
pub open spec fn rotl(x: u32, n: u32) -> u32 {
    (x << n) | (x >> ((32 - n) as u32))
}

/// The number that four bytes spell, most significant first.
pub open spec fn be32(b0: u8, b1: u8, b2: u8, b3: u8) -> u32 {
    (b0 as int * 0x100_0000 + b1 as int * 0x1_0000 + b2 as int * 0x100 + b3 as int) as u32
}

/// The four bytes of a word, most significant first.
pub open spec fn word_bytes(x: u32) -> Seq<u8> {
    seq![
        (x as int / 0x100_0000) as u8,
        (x as int / 0x1_0000 % 0x100) as u8,
        (x as int / 0x100 % 0x100) as u8,
        (x as int % 0x100) as u8,
    ]
}

/// The number of zero bytes between the mark and the length in the padding
/// of a message of `len` bytes.
pub open spec fn zero_fill(len: nat) -> nat {
    ((119 - len % 64) % 64) as nat
}

/// The length field of the padding: the message's length in bits, modulo
/// 2^64, as eight bytes, most significant first.
pub open spec fn length_bytes(len: nat) -> Seq<u8> {
    let bits: int = (len as int % 0x2000_0000_0000_0000) * 8;
    seq![
        (bits / 0x100_0000_0000_0000) as u8,
        (bits / 0x1_0000_0000_0000 % 0x100) as u8,
        (bits / 0x100_0000_0000 % 0x100) as u8,
        (bits / 0x1_0000_0000 % 0x100) as u8,
        (bits / 0x100_0000 % 0x100) as u8,
        (bits / 0x1_0000 % 0x100) as u8,
        (bits / 0x100 % 0x100) as u8,
        (bits % 0x100) as u8,
    ]
}

/// The message with its padding: the mark `0x80`, zero bytes up to eight
/// short of a multiple of 64, and the length field.
pub open spec fn padded(message: Seq<u8>) -> Seq<u8> {
    message + seq![0x80u8] + zeros(zero_fill(message.len())) + length_bytes(message.len())
}

/// `n` zero bytes.
pub open spec fn zeros(n: nat) -> Seq<u8> {
    Seq::new(n, |i: int| 0u8)
}

/// The sixteen words of the block of `data` that starts at byte `start`.
pub open spec fn block_words(data: Seq<u8>, start: int) -> Seq<u32> {
    Seq::new(
        16,
        |j: int|
            be32(
                data[start + 4 * j],
                data[start + 4 * j + 1],
                data[start + 4 * j + 2],
                data[start + 4 * j + 3],
            ),
    )
}

/// Word `t` of the message schedule of a block.
pub open spec fn schedule(words: Seq<u32>, t: nat) -> u32
    decreases t,
{
    if t < 16 {
        words[t as int]
    } else {
        rotl(
            schedule(words, (t - 3) as nat) ^ schedule(words, (t - 8) as nat) ^ schedule(
                words,
                (t - 14) as nat,
            ) ^ schedule(words, (t - 16) as nat),
            1,
        )
    }
}

/// The mixing function of round `t`.
pub open spec fn mix(t: nat, b: u32, c: u32, d: u32) -> u32 {
    if t < 20 {
        (b & c) | (!b & d)
    } else if t < 40 {
        b ^ c ^ d
    } else if t < 60 {
        (b & c) | (b & d) | (c & d)
    } else {
        b ^ c ^ d
    }
}

/// The constant of round `t`.
pub open spec fn round_constant(t: nat) -> u32 {
    if t < 20 {
        0x5a827999
    } else if t < 40 {
        0x6ed9eba1
    } else if t < 60 {
        0x8f1bbcdc
    } else {
        0xca62c1d6
    }
}

/// One round: the state after round `t` with schedule word `w`.
pub open spec fn round(s: HashState, t: nat, w: u32) -> HashState {
    HashState {
        a: rotl(s.a, 5).wrapping_add(mix(t, s.b, s.c, s.d)).wrapping_add(s.e).wrapping_add(
            round_constant(t),
        ).wrapping_add(w),
        b: s.a,
        c: rotl(s.b, 30),
        d: s.c,
        e: s.d,
    }
}

/// The state after the first `t` rounds of a block.
pub open spec fn rounds(s: HashState, words: Seq<u32>, t: nat) -> HashState
    decreases t,
{
    if t == 0 {
        s
    } else {
        round(rounds(s, words, (t - 1) as nat), (t - 1) as nat, schedule(words, (t - 1) as nat))
    }
}

/// The hash after one more block.
pub open spec fn compress(h: HashState, words: Seq<u32>) -> HashState {
    let s = rounds(h, words, 80);
    HashState {
        a: h.a.wrapping_add(s.a),
        b: h.b.wrapping_add(s.b),
        c: h.c.wrapping_add(s.c),
        d: h.d.wrapping_add(s.d),
        e: h.e.wrapping_add(s.e),
    }
}

/// The hash after the first `blocks` blocks of `data`.
pub open spec fn absorb(data: Seq<u8>, blocks: nat) -> HashState
    decreases blocks,
{
    if blocks == 0 {
        initial_state()
    } else {
        compress(absorb(data, (blocks - 1) as nat), block_words(data, 64 * (blocks - 1)))
    }
}

/// The twenty bytes of a hash.
pub open spec fn state_bytes(h: HashState) -> Seq<u8> {
    word_bytes(h.a) + word_bytes(h.b) + word_bytes(h.c) + word_bytes(h.d) + word_bytes(h.e)
}

/// The SHA-1 digest of a message: the hash after all blocks of the padded
/// message.
pub open spec fn sha1_spec(message: Seq<u8>) -> Seq<u8> {
    state_bytes(absorb(padded(message), padded(message).len() / 64))
}

fn rotate_left(x: u32, n: u32) -> (r: u32)
    requires
        0 < n < 32,
    ensures
        r == rotl(x, n),
{
    (x << n) | (x >> (32 - n))
}

fn read_word(data: &[u8], at: usize) -> (w: u32)
    requires
        at + 4 <= data.len(),
    ensures
        w == be32(data@[at as int], data@[at + 1], data@[at + 2], data@[at + 3]),
{
    (data[at] as u32) * 0x100_0000 + (data[at + 1] as u32) * 0x1_0000 + (data[at + 2] as u32)
        * 0x100 + (data[at + 3] as u32)
}

fn push_word(out: &mut Vec<u8>, x: u32)
    ensures
        final(out)@ == old(out)@ + word_bytes(x),
{
    out.push((x / 0x100_0000) as u8);
    out.push((x / 0x1_0000 % 0x100) as u8);
    out.push((x / 0x100 % 0x100) as u8);
    out.push((x % 0x100) as u8);
    assert(out@ =~= old(out)@ + word_bytes(x));
}

fn one_round(s: HashState, t: usize, w: u32) -> (r: HashState)
    requires
        t < 80,
    ensures
        r == round(s, t as nat, w),
{
    let f: u32 = if t < 20 {
        (s.b & s.c) | (!s.b & s.d)
    } else if t < 40 {
        s.b ^ s.c ^ s.d
    } else if t < 60 {
        (s.b & s.c) | (s.b & s.d) | (s.c & s.d)
    } else {
        s.b ^ s.c ^ s.d
    };
    let k: u32 = if t < 20 {
        0x5a827999
    } else if t < 40 {
        0x6ed9eba1
    } else if t < 60 {
        0x8f1bbcdc
    } else {
        0xca62c1d6
    };
    HashState {
        a: rotate_left(s.a, 5).wrapping_add(f).wrapping_add(s.e).wrapping_add(k).wrapping_add(w),
        b: s.a,
        c: rotate_left(s.b, 30),
        d: s.c,
        e: s.d,
    }
}

/// Folds the 64-byte block of `data` that starts at `start` into `h`.
fn compress_block(h: HashState, data: &[u8], start: usize) -> (r: HashState)
    requires
        start + 64 <= data.len(),
    ensures
        r == compress(h, block_words(data@, start as int)),
{
    let ghost words = block_words(data@, start as int);
    let mut w: Vec<u32> = Vec::new();
    let mut t: usize = 0;
    while t < 16
        invariant
            t <= 16,
            start + 64 <= data.len(),
            words == block_words(data@, start as int),
            w@.len() == t,
            forall|j: int| 0 <= j < t ==> w@[j] == schedule(words, j as nat),
        decreases 16 - t,
    {
        let x: u32 = read_word(data, start + 4 * t);
        assert(x == words[t as int]);
        w.push(x);
        t += 1;
    }
    while t < 80
        invariant
            16 <= t <= 80,
            w@.len() == t,
            forall|j: int| 0 <= j < t ==> w@[j] == schedule(words, j as nat),
        decreases 80 - t,
    {
        let x: u32 = rotate_left(w[t - 3] ^ w[t - 8] ^ w[t - 14] ^ w[t - 16], 1);
        assert(x == schedule(words, t as nat));
        w.push(x);
        t += 1;
    }
    let mut s = h;
    let mut i: usize = 0;
    while i < 80
        invariant
            i <= 80,
            w@.len() == 80,
            forall|j: int| 0 <= j < 80 ==> w@[j] == schedule(words, j as nat),
            s == rounds(h, words, i as nat),
        decreases 80 - i,
    {
        s = one_round(s, i, w[i]);
        i += 1;
    }
    HashState {
        a: h.a.wrapping_add(s.a),
        b: h.b.wrapping_add(s.b),
        c: h.c.wrapping_add(s.c),
        d: h.d.wrapping_add(s.d),
        e: h.e.wrapping_add(s.e),
    }
}

/// Two blocks that hold the same bytes hold the same words.
proof fn same_block(a: Seq<u8>, a_start: int, b: Seq<u8>, b_start: int)
    requires
        0 <= a_start,
        a_start + 64 <= a.len(),
        0 <= b_start,
        b_start + 64 <= b.len(),
        a.subrange(a_start, a_start + 64) == b.subrange(b_start, b_start + 64),
    ensures
        block_words(a, a_start) == block_words(b, b_start),
{
    let x = a.subrange(a_start, a_start + 64);
    let y = b.subrange(b_start, b_start + 64);
    assert forall|j: int| 0 <= j < 16 implies block_words(a, a_start)[j] == block_words(
        b,
        b_start,
    )[j] by {
        assert(x[4 * j] == a[a_start + 4 * j] && y[4 * j] == b[b_start + 4 * j]);
        assert(x[4 * j + 1] == a[a_start + 4 * j + 1] && y[4 * j + 1] == b[b_start + 4 * j + 1]);
        assert(x[4 * j + 2] == a[a_start + 4 * j + 2] && y[4 * j + 2] == b[b_start + 4 * j + 2]);
        assert(x[4 * j + 3] == a[a_start + 4 * j + 3] && y[4 * j + 3] == b[b_start + 4 * j + 3]);
    }
    assert(block_words(a, a_start) =~= block_words(b, b_start));
}

/// What is left of `a + b` from `from` on is what is left of `a`, then `b`.
proof fn rest_of_concat(a: Seq<u8>, b: Seq<u8>, from: int)
    requires
        0 <= from <= a.len(),
    ensures
        (a + b).subrange(from, (a + b).len() as int) == a.subrange(from, a.len() as int) + b,
{
    assert((a + b).subrange(from, (a + b).len() as int) =~= a.subrange(from, a.len() as int) + b);
}

fn push_zeros(out: &mut Vec<u8>, count: usize)
    ensures
        final(out)@ == old(out)@ + zeros(count as nat),
{
    let mut z: usize = 0;
    while z < count
        invariant
            z <= count,
            out@ =~= old(out)@ + zeros(z as nat),
        decreases count - z,
    {
        out.push(0);
        z += 1;
    }
}

fn push_length(out: &mut Vec<u8>, len: usize)
    ensures
        final(out)@ == old(out)@ + length_bytes(len as nat),
{
    let bits: u64 = ((len as u64) % 0x2000_0000_0000_0000) * 8;
    out.push((bits / 0x100_0000_0000_0000) as u8);
    out.push((bits / 0x1_0000_0000_0000 % 0x100) as u8);
    out.push((bits / 0x100_0000_0000 % 0x100) as u8);
    out.push((bits / 0x1_0000_0000 % 0x100) as u8);
    out.push((bits / 0x100_0000 % 0x100) as u8);
    out.push((bits / 0x1_0000 % 0x100) as u8);
    out.push((bits / 0x100 % 0x100) as u8);
    out.push((bits % 0x100) as u8);
    assert(out@ =~= old(out)@ + length_bytes(len as nat));
}

/// The last one or two blocks of the padded message: what is left of the
/// message after its full blocks, and the padding.
fn last_blocks(message: &[u8]) -> (tail: Vec<u8>)
    ensures
        tail@ == padded(message@).subrange(
            64 * (message@.len() as int / 64),
            padded(message@).len() as int,
        ),
        tail@.len() == 64 || tail@.len() == 128,
        padded(message@).len() == 64 * (message@.len() / 64) + tail@.len(),
{
    let len: usize = message.len();
    let rest: usize = len % 64;
    let from: usize = len - rest;
    let fill: usize = if rest < 56 {
        55 - rest
    } else {
        119 - rest
    };
    assert(fill == zero_fill(len as nat));
    assert(from == 64 * (len as int / 64));
    let mut tail = copy_range(message, from, len);
    tail.push(0x80);
    push_zeros(&mut tail, fill);
    push_length(&mut tail, len);
    proof {
        let m = message@;
        let mark = seq![0x80u8];
        let fill_bytes = zeros(fill as nat);
        let length = length_bytes(len as nat);
        assert(tail@ =~= m.subrange(from as int, len as int) + mark + fill_bytes + length);
        assert(tail@.len() == rest + 1 + fill + 8);
        rest_of_concat(m + mark + fill_bytes, length, from as int);
        rest_of_concat(m + mark, fill_bytes, from as int);
        rest_of_concat(m, mark, from as int);
    }
    tail
}

/// Computes the SHA-1 digest of `message`: twenty bytes.
pub fn sha1(message: &[u8]) -> (digest: Vec<u8>)
    ensures
        digest@ == sha1_spec(message@),
        digest@.len() == 20,
{
    let ghost p = padded(message@);
    let full: usize = message.len() / 64;
    let mut h = HashState {
        a: 0x67452301,
        b: 0xefcdab89,
        c: 0x98badcfe,
        d: 0x10325476,
        e: 0xc3d2e1f0,
    };
    let mut i: usize = 0;
    while i < full
        invariant
            i <= full,
            full == message.len() / 64,
            p == padded(message@),
            h == absorb(p, i as nat),
        decreases full - i,
    {
        proof {
            assert(message@.subrange(64 * i, 64 * i + 64) =~= p.subrange(64 * i, 64 * i + 64));
            same_block(message@, 64 * i, p, 64 * i);
        }
        h = compress_block(h, message, 64 * i);
        i += 1;
    }
    let tail = last_blocks(message);
    proof {
        assert(tail@.subrange(0, 64) =~= p.subrange(64 * full, 64 * full + 64));
        same_block(tail@, 0, p, 64 * full);
    }
    h = compress_block(h, tail.as_slice(), 0);
    assert(h == absorb(p, (full + 1) as nat));
    if tail.len() == 128 {
        proof {
            assert(tail@.subrange(64, 128) =~= p.subrange(64 * full + 64, 64 * full + 128));
            same_block(tail@, 64, p, 64 * full + 64);
        }
        h = compress_block(h, tail.as_slice(), 64);
        assert(h == absorb(p, (full + 2) as nat));
    }
    assert(h == absorb(p, p.len() / 64));
    let mut digest: Vec<u8> = Vec::new();
    push_word(&mut digest, h.a);
    push_word(&mut digest, h.b);
    push_word(&mut digest, h.c);
    push_word(&mut digest, h.d);
    push_word(&mut digest, h.e);
    assert(digest@ =~= state_bytes(h));
    digest
}

/// A digest is twenty bytes long.
pub proof fn digest_length(message: Seq<u8>)
    ensures
        sha1_spec(message).len() == 20,
{
}

} // verus!
