//! The byte stream that a connection speaks over.
use vstd::prelude::*;

use crate::errors::IoFailure;

verus! {

/// A bidirectional, blocking byte stream, such as a TCP socket.
pub trait Transport {
    /// Reads what the stream has into the start of `buf`, and returns how many bytes it
    /// placed there. As with `std::io::Read::read`, `buf` keeps its length and the count
    /// never exceeds it.
    fn read(&mut self, buf: &mut Vec<u8>) -> (r: Result<usize, IoFailure>)
        ensures
            final(buf)@.len() == old(buf)@.len(),
            r is Ok ==> r->Ok_0 <= old(buf)@.len(),
    ;

    /// Writes all of `data`.
    fn write_all(&mut self, data: &[u8]) -> Result<(), IoFailure>;
}

/// The size of the scratch area that one read fills.
pub const SCRATCH_LEN: usize = 4096;

/// The first `n` bytes of `buffer`: what a read that reported `n` bytes placed there.
pub fn keep_read(buffer: Vec<u8>, n: usize) -> (r: Vec<u8>)
    ensures
        n <= buffer@.len() ==> r@ == buffer@.subrange(0, n as int),
        n > buffer@.len() ==> r@ == buffer@,
{
    let mut buffer = buffer;
    buffer.truncate(n);
    buffer
}

/// Reads one reply: the bytes that a single read of the stream hands over, which never
/// exceed the scratch area.
pub fn receive<T: Transport>(stream: &mut T) -> (r: Result<Vec<u8>, IoFailure>)
    ensures
        r is Ok ==> r->Ok_0@.len() <= SCRATCH_LEN,
{
    let mut buffer: Vec<u8> = vec![0u8; SCRATCH_LEN];
    match stream.read(&mut buffer) {
        Ok(n) => Ok(keep_read(buffer, n)),
        Err(e) => Err(e),
    }
}

} // verus!
