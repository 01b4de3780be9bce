use md5sum::block::{md5_blocks, md5_chunked, md5_init};
use md5sum::digest::md5;
use md5sum::hex::digest_string;
use md5sum::pad::pad;

#[test]
fn rfc1321() {
    let test_cases = [
        ("", "d41d8cd98f00b204e9800998ecf8427e"),
        ("a", "0cc175b9c0f1b6a831c399e269772661"),
        ("abc", "900150983cd24fb0d6963f7d28e17f72"),
        ("message digest", "f96b697d7cb7938d525a2f31aaf161d0"),
        (
            "abcdefghijklmnopqrstuvwxyz",
            "c3fcd3d76192e4007dfb496cca67e13b",
        ),
        (
            "ABCDEFGHIJKLMNOPQRSTUVWXYZabcdefghijklmnopqrstuvwxyz0123456789",
            "d174ab98d277d9f5a5611c2c9f419d9f",
        ),
        (
            "12345678901234567890123456789012345678901234567890123456789012345678901234567890",
            "57edf4a22be3c955ac49da2e2107b67a",
        ),
    ];
    for (l, r) in test_cases.iter() {
        assert_eq!(md5(l.as_bytes()), r.to_string());
    }
}

#[test]
fn digest_is_32_lowercase_hex_chars() {
    let inputs: [&[u8]; 4] = [b"", b"a", b"hello world", &[0u8; 200]];
    for input in inputs.iter() {
        let d = md5(input);
        assert_eq!(d.len(), 32);
        assert!(d
            .chars()
            .all(|c| c.is_ascii_digit() || ('a'..='f').contains(&c)));
    }
}

#[test]
fn padding_boundary_lengths() {
    // lengths straddling the single-block / double-block padding decision
    let cases = [
        (55usize, "ef1772b6dff9a122358552954ad0df65"),
        (56, "3b0c8ac703f828b04c6c197006d17218"),
        (63, "b06521f39153d618550606be297466d5"),
        (64, "014842d480b571495a4a0363793f7367"),
        (119, "8a7bd0732ed6a28ce75f6dabc90e1613"),
        (120, "5f61c0ccad4cac44c75ff505e1f1e537"),
        (127, "020406e1d05cdc2aa287641f7ae2cc39"),
        (128, "e510683b3f5ffe4093d021808bc6ff70"),
    ];
    for (n, expected) in cases.iter() {
        let input = vec![b'a'; *n];
        assert_eq!(md5(&input), expected.to_string());
    }
}

#[test]
fn padded_length_follows_block_decision() {
    // up to 55 residual bytes: one final block; 56 to 63: two
    assert_eq!(pad(&[]).len(), 64);
    assert_eq!(pad(&vec![7u8; 55]).len(), 64);
    assert_eq!(pad(&vec![7u8; 56]).len(), 128);
    assert_eq!(pad(&vec![7u8; 63]).len(), 128);
    assert_eq!(pad(&vec![7u8; 64]).len(), 128);
    assert_eq!(pad(&vec![7u8; 119]).len(), 128);
    assert_eq!(pad(&vec![7u8; 120]).len(), 192);
    let p = pad(b"abc");
    assert_eq!(&p[..3], b"abc");
    assert_eq!(p[3], 0x80);
    assert!(p[4..56].iter().all(|&b| b == 0));
    // bit length of "abc": 24, little-endian
    assert_eq!(&p[56..64], &[24, 0, 0, 0, 0, 0, 0, 0]);
}

#[test]
fn deterministic_over_repeated_calls() {
    for input in [&b""[..], b"abc", b"determinism check"] {
        let first = md5(input);
        let second = md5(input);
        assert_eq!(first, second);
    }
}

#[test]
fn chunk_delivery_does_not_change_digest() {
    let data: Vec<u8> = (0u8..192).collect();

    // the same bytes assembled in one piece and in many small pieces
    let mut pieces: Vec<u8> = Vec::new();
    for chunk in data.chunks(7) {
        pieces.extend_from_slice(chunk);
    }
    assert_eq!(md5(&data), md5(&pieces));
    assert_eq!(md5(&data), "48599090c2176432f4fa671af1ccb6c2".to_string());

    // block absorption split at different boundaries
    let all_at_once = md5_blocks(md5_init(), &data);
    let one_then_two = md5_blocks(md5_blocks(md5_init(), &data[..64]), &data[64..]);
    let two_then_one = md5_blocks(md5_blocks(md5_init(), &data[..128]), &data[128..]);
    assert_eq!(all_at_once, one_then_two);
    assert_eq!(all_at_once, two_then_one);
}

#[test]
fn single_block_compression_matches_digest() {
    // the empty message pads to exactly one block; absorbing it by hand
    // must reproduce the digest of the empty message
    let p = pad(&[]);
    assert_eq!(p.len(), 64);
    let mut block = [0u8; 64];
    block.copy_from_slice(&p);
    let st = md5_chunked(md5_init(), &block);
    assert_eq!(digest_string(&st), "d41d8cd98f00b204e9800998ecf8427e".to_string());
}

#[test]
fn initial_state_renders_little_endian() {
    // the fixed initial accumulators, printed byte-reversed per word
    let st = md5_init();
    assert_eq!(
        digest_string(&st),
        "0123456789abcdeffedcba9876543210".to_string()
    );
}
