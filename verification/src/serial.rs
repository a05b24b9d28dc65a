//! What the serial sink transmits. The UART itself — a blocking one-byte
//! sink and a non-blocking source behind MMIO registers — belongs to the
//! machine-facing shell; this module fixes the byte sequence a message
//! becomes on the wire.

use vstd::prelude::*;
use vstd::string::StrSliceExecFns;

verus! {

/// The bytes the sink transmits for `msg`: each character truncated to its
/// low byte, in order.
pub fn write(msg: &str) -> (bytes: Vec<u8>)
    ensures
        bytes@.len() == msg@.len(),
        forall|i: int| 0 <= i < msg@.len() ==> bytes@[i] == msg@[i] as u8,
{
    let n = msg.unicode_len();
    let mut bytes: Vec<u8> = Vec::new();
    let mut i: usize = 0;
    while i < n
        invariant
            i <= n,
            n == msg@.len(),
            bytes@.len() == i,
            forall|j: int| 0 <= j < i ==> bytes@[j] == msg@[j] as u8,
        decreases n - i,
    {
        let c = msg.get_char(i);
        bytes.push(c as u8);
        i += 1;
    }
    bytes
}

} // verus!
