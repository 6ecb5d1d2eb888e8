//! Byte buffers for the wire forms the library writes.

use vstd::prelude::*;

verus! {

/// Appends `bytes` to `buffer`.
pub fn put(buffer: &mut Vec<u8>, bytes: Vec<u8>)
    ensures
        final(buffer)@ == old(buffer)@ + bytes@,
{
    let ghost before = buffer@;
    let mut i: usize = 0;
    while i < bytes.len()
        invariant
            i <= bytes.len(),
            buffer@ == before + bytes@.subrange(0, i as int),
        decreases bytes.len() - i,
    {
        buffer.push(bytes[i]);
        i = i + 1;
        proof {
            assert(buffer@ =~= before + bytes@.subrange(0, i as int));
        }
    }
    proof {
        assert(bytes@.subrange(0, i as int) =~= bytes@);
    }
}

} // verus!
