use vstd::prelude::*;
use byteorder::{ByteOrder, NativeEndian};

verus! {

// ---------------------------------------------------------------------------
// The receiver's wake-up counter
//
// The network threads wake the notifier thread through an event counter
// that is written and read as eight bytes in the machine's byte order.
// ---------------------------------------------------------------------------

/// The number of bytes of the counter.
pub const COUNTER_LEN: usize = 8;

/// The number whose bytes, least significant first, are `b`.
pub open spec fn le_number(b: Seq<u8>) -> nat
    decreases b.len(),
{
    if b.len() == 0 {
        0
    } else {
        (b[0] as nat) + 256 * le_number(b.drop_first())
    }
}

/// The number whose bytes, most significant first, are `b`.
pub open spec fn be_number(b: Seq<u8>) -> nat
    decreases b.len(),
{
    if b.len() == 0 {
        0
    } else {
        be_number(b.drop_last()) * 256 + (b.last() as nat)
    }
}

/// Whether `n` is what the first eight bytes of `b` say in one of the two byte
/// orders a machine can have.
pub open spec fn encodes_u64(b: Seq<u8>, n: u64) -> bool {
    b.len() >= 8 && (le_number(b.subrange(0, 8)) == n || be_number(b.subrange(0, 8)) == n)
}

/// `NativeEndian::read_u64`: the first eight bytes of `buf` in the machine's
/// byte order. The order is that of the target, little- or big-endian; which
/// one is left open here.
#[verifier::external_body]
fn native_read_u64(buf: &[u8]) -> (n: u64)
    requires
        buf@.len() >= 8,
    ensures
        encodes_u64(buf@, n),
{
    NativeEndian::read_u64(buf)
}

/// `NativeEndian::write_u64`: `n` written over the first eight bytes of
/// `buf` in the machine's byte order; the other bytes stay. Which order it is
/// is left open here.
#[verifier::external_body]
fn native_write_u64(buf: &mut Vec<u8>, n: u64)
    requires
        old(buf)@.len() >= 8,
    ensures
        final(buf)@.len() == old(buf)@.len(),
        final(buf)@.subrange(8, final(buf)@.len() as int) == old(buf)@.subrange(
            8,
            old(buf)@.len() as int,
        ),
        encodes_u64(final(buf)@, n),
{
    NativeEndian::write_u64(buf.as_mut_slice(), n)
}

/// The eight bytes that add one to the wake-up counter.
pub fn wake_bytes() -> (b: Vec<u8>)
    ensures
        b@.len() == COUNTER_LEN,
        encodes_u64(b@, 1),
{
    let mut b: Vec<u8> = vec![0u8, 0u8, 0u8, 0u8, 0u8, 0u8, 0u8, 0u8];
    native_write_u64(&mut b, 1);
    b
}

/// The count of wake-ups read from the counter's eight bytes.
pub fn wake_count(buf: &[u8]) -> (n: u64)
    requires
        buf@.len() == COUNTER_LEN,
    ensures
        encodes_u64(buf@, n),
{
    native_read_u64(buf)
}

} // verus!
