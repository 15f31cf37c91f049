//! Searching byte sequences and reading big-endian fields.

use vstd::prelude::*;

verus! {

/// `pattern` stands in `data` at offset `at`.
pub open spec fn occurs_at(data: Seq<u8>, pattern: Seq<u8>, at: int) -> bool {
    &&& 0 <= at
    &&& at + pattern.len() <= data.len()
    &&& forall|k: int| 0 <= k < pattern.len() ==> data[at + k] == #[trigger] pattern[k]
}

/// `data` begins with `pattern`.
pub open spec fn has_prefix(data: Seq<u8>, pattern: Seq<u8>) -> bool {
    occurs_at(data, pattern, 0)
}

/// `pattern` stands somewhere in `data`.
pub open spec fn contains_bytes(data: Seq<u8>, pattern: Seq<u8>) -> bool {
    exists|at: int| occurs_at(data, pattern, at)
}

/// The value of two bytes read as a big-endian 16-bit number.
pub open spec fn be16(high: u8, low: u8) -> u16 {
    (high as int * 256 + low as int) as u16
}

/// The high byte of a 16-bit number.
pub open spec fn high_byte(value: u16) -> u8 {
    (value as int / 256) as u8
}

/// The low byte of a 16-bit number.
pub open spec fn low_byte(value: u16) -> u8 {
    (value as int % 256) as u8
}

/// Tells whether `pattern` stands in `data` at offset `at`.
pub fn matches_at(data: &[u8], pattern: &[u8], at: usize) -> (hit: bool)
    ensures
        hit == occurs_at(data@, pattern@, at as int),
{
    if pattern.len() > data.len() || at > data.len() - pattern.len() {
        return false;
    }
    let mut k: usize = 0;
    while k < pattern.len()
        invariant
            k <= pattern.len(),
            at + pattern.len() <= data.len(),
            forall|j: int| 0 <= j < k ==> data@[at + j] == #[trigger] pattern@[j],
        decreases pattern.len() - k,
    {
        if data[at + k] != pattern[k] {
            return false;
        }
        k += 1;
    }
    true
}

/// Tells whether `data` begins with `pattern`.
pub fn starts_with(data: &[u8], pattern: &[u8]) -> (hit: bool)
    ensures
        hit == has_prefix(data@, pattern@),
{
    matches_at(data, pattern, 0)
}

/// The offset of the first place where `pattern` stands in `data`.
pub fn find_bytes(data: &[u8], pattern: &[u8]) -> (found: Option<usize>)
    ensures
        match found {
            Some(at) => occurs_at(data@, pattern@, at as int) && forall|j: int|
                0 <= j < at ==> !occurs_at(data@, pattern@, j),
            None => !contains_bytes(data@, pattern@),
        },
{
    if pattern.len() > data.len() {
        return None;
    }
    let last: usize = data.len() - pattern.len();
    let mut at: usize = 0;
    while at <= last
        invariant
            last == data.len() - pattern.len(),
            at <= last + 1,
            forall|j: int| 0 <= j < at ==> !occurs_at(data@, pattern@, j),
        decreases last + 1 - at,
    {
        if matches_at(data, pattern, at) {
            return Some(at);
        }
        at += 1;
    }
    None
}

/// Tells whether `pattern` stands somewhere in `data`.
pub fn contains(data: &[u8], pattern: &[u8]) -> (hit: bool)
    ensures
        hit == contains_bytes(data@, pattern@),
{
    find_bytes(data, pattern).is_some()
}

/// Copies `bytes[from..to]` into a vector of its own.
pub fn copy_range(bytes: &[u8], from: usize, to: usize) -> (part: Vec<u8>)
    requires
        from <= to <= bytes.len(),
    ensures
        part@ == bytes@.subrange(from as int, to as int),
{
    let mut part: Vec<u8> = Vec::new();
    let mut i: usize = from;
    while i < to
        invariant
            from <= i <= to <= bytes.len(),
            part@ == bytes@.subrange(from as int, i as int),
        decreases to - i,
    {
        part.push(bytes[i]);
        assert(part@ =~= bytes@.subrange(from as int, i + 1));
        i += 1;
    }
    part
}

/// Appends `bytes` to `out`.
pub fn append_bytes(out: &mut Vec<u8>, bytes: &[u8])
    ensures
        final(out)@ == old(out)@ + bytes@,
{
    let mut i: usize = 0;
    while i < bytes.len()
        invariant
            i <= bytes.len(),
            out@ == old(out)@ + bytes@.take(i as int),
        decreases bytes.len() - i,
    {
        out.push(bytes[i]);
        assert(out@ =~= old(out)@ + bytes@.take(i + 1));
        i += 1;
    }
    assert(bytes@.take(bytes.len() as int) =~= bytes@);
}

/// Reads two bytes as a big-endian 16-bit number.
pub fn read_be16(high: u8, low: u8) -> (value: u16)
    ensures
        value == be16(high, low),
{
    (high as u16) * 256 + (low as u16)
}

/// Splits a 16-bit number into its big-endian bytes.
pub fn write_be16(value: u16) -> (pair: (u8, u8))
    ensures
        pair.0 == high_byte(value),
        pair.1 == low_byte(value),
        be16(pair.0, pair.1) == value,
{
    ((value / 256) as u8, (value % 256) as u8)
}

/// Reading back the two bytes of a number gives the number.
pub proof fn be16_of_bytes(value: u16)
    ensures
        be16(high_byte(value), low_byte(value)) == value,
{
}

/// Splitting the number that two bytes spell gives the two bytes.
pub proof fn bytes_of_be16(high: u8, low: u8)
    ensures
        high_byte(be16(high, low)) == high,
        low_byte(be16(high, low)) == low,
{
}

} // verus!
