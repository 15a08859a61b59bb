//! The block behind a buffer. A caller holds only the address of a buffer's
//! first byte, yet the buffer must be released with exactly the length it
//! was allocated with. So every buffer is allocated as a block that carries
//! its own length in front of the bytes that the caller sees.

use vstd::prelude::*;
use vstd::bytes::{
    lemma_auto_spec_u64_to_from_le_bytes, spec_u64_from_le_bytes, spec_u64_to_le_bytes,
    u64_from_le_bytes, u64_to_le_bytes,
};

verus! {

/// The number of bytes in front of a buffer that record its length.
pub const HEADER_LEN: usize = 8;

/// The block allocated for `payload`: the number of its bytes as eight
/// little-endian bytes, then the bytes themselves.
pub open spec fn block_of(payload: Seq<u8>) -> Seq<u8> {
    spec_u64_to_le_bytes(payload.len() as u64) + payload
}

/// The length of the whole block that begins with `header`: the header and as
/// many bytes as it records. There is none where `header` is not a whole
/// header or the sum is no length on this machine.
pub open spec fn block_len_of(header: Seq<u8>) -> Option<usize> {
    if header.len() == HEADER_LEN && HEADER_LEN + spec_u64_from_le_bytes(header) <= usize::MAX {
        Some((HEADER_LEN + spec_u64_from_le_bytes(header)) as usize)
    } else {
        None
    }
}

/// Lays `payload` out as the block to allocate. The caller is given the
/// address `HEADER_LEN` bytes into it.
pub fn into_block(payload: Vec<u8>) -> (block: Vec<u8>)
    ensures
        block@ == block_of(payload@),
{
    let mut payload = payload;
    let mut block = u64_to_le_bytes(payload.len() as u64);
    block.append(&mut payload);
    block
}

/// Reads from the bytes in front of a buffer how long its block is.
pub fn block_len(header: &[u8]) -> (len: Option<usize>)
    ensures
        len == block_len_of(header@),
{
    if header.len() != HEADER_LEN {
        return None;
    }
    let recorded: u64 = u64_from_le_bytes(header);
    if recorded > (usize::MAX - HEADER_LEN) as u64 {
        None
    } else {
        Some(HEADER_LEN + recorded as usize)
    }
}

/// A block is released with the length it was allocated with: its header
/// gives back the length of the whole block, and behind the header the
/// payload stands unchanged.
pub proof fn block_remembers_its_length(payload: Seq<u8>)
    requires
        HEADER_LEN + payload.len() <= usize::MAX,
    ensures
        block_of(payload).len() == HEADER_LEN + payload.len(),
        block_len_of(block_of(payload).take(HEADER_LEN as int)) == Some(
            block_of(payload).len() as usize,
        ),
        block_of(payload).skip(HEADER_LEN as int) == payload,
{
    lemma_auto_spec_u64_to_from_le_bytes();
    let header = spec_u64_to_le_bytes(payload.len() as u64);
    assert(block_of(payload).take(HEADER_LEN as int) =~= header);
    assert(block_of(payload).skip(HEADER_LEN as int) =~= payload);
}

} // verus!
