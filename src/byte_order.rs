//! Conversion between 32-bit words and their bytes in the target's own byte
//! order, as the memory bus stores them.
use byteorder::ByteOrder;
use vstd::prelude::*;

verus! {

/// The four bytes that `NativeEndian::write_u32` stores for a word. The byte
/// order is the target's own, fixed for a build.
pub uninterp spec fn native_bytes_of(w: u32) -> Seq<u8>;

/// Relies on byteorder's `NativeEndian::write_u32`, which stores the word's
/// bytes (`to_le_bytes` or `to_be_bytes`, after the target) into the first four
/// bytes of the buffer.
#[verifier::external_body]
pub fn native_bytes(w: u32) -> (r: [u8; 4])
    ensures
        r@ == native_bytes_of(w),
{
    let mut buf = [0u8; 4];
    byteorder::NativeEndian::write_u32(&mut buf, w);
    buf
}

/// Relies on byteorder's `NativeEndian::read_u32`, which reads the first four
/// bytes with `from_le_bytes` or `from_be_bytes`, the inverse of the order that
/// `write_u32` uses on the same target: writing the word back gives the bytes.
#[verifier::external_body]
pub fn native_word(b: &[u8]) -> (r: u32)
    requires
        b@.len() >= 4,
    ensures
        native_bytes_of(r) == b@.subrange(0, 4),
{
    byteorder::NativeEndian::read_u32(b)
}

} // verus!
