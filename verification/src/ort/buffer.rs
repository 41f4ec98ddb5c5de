//! The buffer in which a field name travels to the host: the name's bytes and a
//! terminating zero, held inline while they are few.

use smallvec::SmallVec;
use vstd::prelude::*;

verus! {

/// A byte buffer of the `smallvec` crate, with room for 32 bytes before it moves to the
/// heap.
#[verifier::external_body]
#[derive(Debug)]
pub struct NameBuffer {
    inner: SmallVec<[u8; 32]>,
}

/// The bytes that a buffer holds, first to last.
pub uninterp spec fn name_bytes(buffer: NameBuffer) -> Seq<u8>;

impl View for NameBuffer {
    type V = Seq<u8>;

    open spec fn view(&self) -> Seq<u8> {
        name_bytes(*self)
    }
}

/// The longest content to which one more byte can be added: the buffer grows to the
/// next power of two, which has to stay within `isize::MAX` bytes.
pub open spec fn max_growable_len() -> int {
    isize::MAX / 2
}

/// `SmallVec::from`, on a slice: a buffer that holds the slice's bytes in their order.
/// The slice must be short enough for the buffer to allocate.
#[verifier::external_body]
fn name_from_bytes(bytes: &[u8]) -> (buffer: NameBuffer)
    requires
        bytes@.len() <= max_growable_len(),
    ensures
        name_bytes(buffer) == bytes@,
{
    NameBuffer { inner: SmallVec::from(bytes) }
}

/// `SmallVec::push`: the byte is added after those that the buffer holds. The buffer
/// must be short enough to grow.
#[verifier::external_body]
fn name_push(buffer: &mut NameBuffer, byte: u8)
    requires
        name_bytes(*old(buffer)).len() < max_growable_len(),
    ensures
        name_bytes(*final(buffer)) == name_bytes(*old(buffer)).push(byte),
{
    buffer.inner.push(byte)
}

/// `SmallVec::as_slice`: the bytes that the buffer holds, as a slice.
#[verifier::external_body]
fn name_slice(buffer: &NameBuffer) -> (bytes: &[u8])
    ensures
        bytes@ == name_bytes(*buffer),
{
    buffer.inner.as_slice()
}

/// The bytes of `name` in UTF-8, followed by one zero byte.
pub open spec fn c_name_bytes(name: Seq<char>) -> Seq<u8> {
    vstd::utf8::encode_utf8(name).push(0u8)
}

/// Whether a name is short enough to be put into a buffer.
pub open spec fn fits_name_buffer(name: Seq<char>) -> bool {
    vstd::utf8::encode_utf8(name).len() < max_growable_len()
}

impl NameBuffer {
    /// Whether `name` is short enough to be put into a buffer.
    pub fn fits(name: &str) -> (fits: bool)
        ensures
            fits == fits_name_buffer(name@),
    {
        name.as_bytes().len() < (isize::MAX / 2) as usize
    }

    /// The name as the host reads it: its bytes, then a zero.
    pub fn c_name(name: &str) -> (buffer: NameBuffer)
        requires
            fits_name_buffer(name@),
        ensures
            buffer@ == c_name_bytes(name@),
    {
        let mut buffer = name_from_bytes(name.as_bytes());
        name_push(&mut buffer, 0);
        buffer
    }

    pub fn as_slice(&self) -> (bytes: &[u8])
        ensures
            bytes@ == self@,
    {
        name_slice(self)
    }
}

} // verus!
