use rusty_proxy::base64::encode;
use rusty_proxy::handshake::accept_key;
use rusty_proxy::sha1::sha1;

fn hex(bytes: &[u8]) -> String {
    let mut text = String::new();
    for b in bytes {
        text.push_str(&format!("{:02x}", b));
    }
    text
}

#[test]
fn sha1_of_empty_message() {
    assert_eq!(hex(&sha1(b"")), "da39a3ee5e6b4b0d3255bfef95601890afd80709");
}

#[test]
fn sha1_of_abc() {
    assert_eq!(hex(&sha1(b"abc")), "a9993e364706816aba3e25717850c26c9cd0d89d");
}

#[test]
fn sha1_of_two_block_message() {
    let message = b"abcdbcdecdefdefgefghfghighijhijkijkljklmklmnlmnomnopnopq";
    assert_eq!(hex(&sha1(message)), "84983e441c3bd26ebaae4aa1f95129e5e54670f1");
}

#[test]
fn sha1_of_a_million_letters() {
    let message = vec![b'a'; 1_000_000];
    assert_eq!(hex(&sha1(&message)), "34aa973cd4c4daa4f61eeb2bdbad27316534016f");
}

#[test]
fn sha1_at_the_padding_boundaries() {
    assert_eq!(hex(&sha1(&vec![b'a'; 55])), "c1c8bbdc22796e28c0e15163d20899b65621d65a");
    assert_eq!(hex(&sha1(&vec![b'a'; 56])), "c2db330f6083854c99d4b5bfb6e8f29f201be699");
    assert_eq!(hex(&sha1(&vec![b'a'; 64])), "0098ba824b5c16427bd7a1122a5a442a25ec644d");
}

#[test]
fn base64_of_short_texts() {
    assert_eq!(encode(b""), b"".to_vec());
    assert_eq!(encode(b"f"), b"Zg==".to_vec());
    assert_eq!(encode(b"fo"), b"Zm8=".to_vec());
    assert_eq!(encode(b"foo"), b"Zm9v".to_vec());
    assert_eq!(encode(b"foob"), b"Zm9vYg==".to_vec());
    assert_eq!(encode(b"fooba"), b"Zm9vYmE=".to_vec());
    assert_eq!(encode(b"foobar"), b"Zm9vYmFy".to_vec());
}

#[test]
fn base64_uses_the_whole_alphabet() {
    assert_eq!(encode(&[0xfb, 0xff, 0xbf]), b"+/+/".to_vec());
    assert_eq!(encode(&[0x00, 0x10, 0x83]), b"ABCD".to_vec());
    assert_eq!(encode(&[0x69, 0xb7, 0x1d]), b"abcd".to_vec());
    assert_eq!(encode(&[0xd3, 0x5d, 0xb7]), b"0123".to_vec());
}

#[test]
fn accept_key_of_the_standard_vector() {
    let accept = accept_key(b"dGhlIHNhbXBsZSBub25jZQ==");
    assert_eq!(accept, b"s3pPLMBiTxaQ9kYGzzhZRbK+xOo=".to_vec());
}

#[test]
fn accept_key_is_the_same_each_time() {
    let first = accept_key(b"x3JJHMbDL1EzLkh9GBhXDw==");
    let second = accept_key(b"x3JJHMbDL1EzLkh9GBhXDw==");
    assert_eq!(first, second);
    assert_eq!(first, b"HSmrc0sMlYUkAGmm5OPpG2HaGWk=".to_vec());
    assert_eq!(first.len(), 28);
}
