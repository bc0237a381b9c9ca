use vstd::prelude::*;

verus! {

/// An all-zero buffer of the given length: the payload of an outbound
/// datagram, or the equal-size acknowledgement the receiver echoes back.
/// The bytes carry no header, checksum or sequence number; timing and
/// sizing are the only signal on the wire.
pub fn zero_buffer(len: usize) -> (r: Vec<u8>)
    ensures
        r@.len() == len,
        forall|i: int| 0 <= i < r@.len() ==> r@[i] == 0u8,
{
    let mut buf: Vec<u8> = Vec::new();
    let mut i: usize = 0;
    while i < len
        invariant
            i <= len,
            buf@.len() == i,
            forall|j: int| 0 <= j < i ==> buf@[j] == 0u8,
        decreases len - i,
    {
        buf.push(0u8);
        i = i + 1;
    }
    buf
}

} // verus!
