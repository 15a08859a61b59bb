use cabi::buffer::{block_len, into_block, HEADER_LEN};
use cabi::message::c_string;

#[test]
fn header_is_eight_bytes() {
    assert_eq!(HEADER_LEN, 8);
}

#[test]
fn block_is_length_then_payload() {
    let block = into_block(b"abc\0".to_vec());
    assert_eq!(block, vec![4u8, 0, 0, 0, 0, 0, 0, 0, 97, 98, 99, 0]);
}

#[test]
fn block_of_nothing_is_a_header_of_zero() {
    assert_eq!(into_block(Vec::new()), vec![0u8; 8]);
}

#[test]
fn length_is_recorded_little_endian() {
    let block = into_block(vec![7u8; 0x1_02]);
    assert_eq!(&block[..8], &[0x02u8, 0x01, 0, 0, 0, 0, 0, 0]);
    assert_eq!(block.len(), 8 + 0x1_02);
    assert!(block[8..].iter().all(|b| *b == 7));
}

#[test]
fn header_gives_back_the_length_of_the_block() {
    for payload in [Vec::new(), vec![0u8], b"no such arch\0".to_vec(), vec![0xffu8; 1000]] {
        let block = into_block(payload.clone());
        assert_eq!(block_len(&block[..HEADER_LEN]), Some(block.len()));
        assert_eq!(&block[HEADER_LEN..], &payload[..]);
    }
}

#[test]
fn block_len_reads_the_header() {
    assert_eq!(block_len(&[0u8, 0, 0, 0, 0, 0, 0, 0]), Some(8));
    assert_eq!(block_len(&[1u8, 0, 0, 0, 0, 0, 0, 0]), Some(9));
    assert_eq!(block_len(&[0u8, 1, 0, 0, 0, 0, 0, 0]), Some(8 + 256));
}

#[test]
fn block_len_refuses_what_is_no_header() {
    assert_eq!(block_len(&[]), None);
    assert_eq!(block_len(&[4u8, 0, 0, 0, 0, 0, 0]), None);
    assert_eq!(block_len(&[4u8, 0, 0, 0, 0, 0, 0, 0, 0]), None);
}

#[test]
fn block_len_refuses_a_length_that_does_not_fit() {
    assert_eq!(block_len(&[0xffu8; 8]), None);
    assert_eq!(block_len(&[0xf8u8, 0xff, 0xff, 0xff, 0xff, 0xff, 0xff, 0xff]), None);
}

#[test]
fn message_with_inner_nul_keeps_its_whole_length() {
    let message = c_string("a\u{0}b");
    let block = into_block(message);
    assert_eq!(block_len(&block[..HEADER_LEN]), Some(8 + 4));
}

#[test]
fn two_blocks_do_not_share_anything() {
    let first = into_block(c_string("/usr/src/one"));
    let second = into_block(c_string("/usr/src/two"));
    drop(first);
    assert_eq!(&second[HEADER_LEN..], b"/usr/src/two\0");
    assert_eq!(block_len(&second[..HEADER_LEN]), Some(second.len()));
}
