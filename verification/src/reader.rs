//! The frame that one read from the opened port comes to.

use vstd::prelude::*;

verus! {

/// The frame of `len` bytes that holds `delivered` from its start and zero
/// after it. Of more than `len` bytes the first `len` make the frame.
pub open spec fn frame_of(delivered: Seq<u8>, len: nat) -> Seq<u8> {
    Seq::new(len, |i: int| if i < delivered.len() { delivered[i] } else { 0u8 })
}

/// Makes the frame of `N` bytes from what the one read of a frame returned.
///
/// `Ok(bytes)` holds the bytes that the read delivered. However few they
/// are, the frame is made: they stand at its start and the rest of it is
/// zero. A read that failed, by timeout or otherwise, fails the frame with
/// the same error, unchanged.
pub fn read<const N: usize, E>(delivery: Result<&[u8], E>) -> (frame: Result<[u8; N], E>)
    ensures
        delivery matches Ok(bytes) ==> frame matches Ok(block)
            && block@ == frame_of(bytes@, N as nat),
        delivery matches Err(error) ==> frame == Err::<[u8; N], E>(error),
        // A short delivery is no failure: the frame is whole, and zero where
        // nothing was delivered.
        delivery matches Ok(bytes) ==> frame matches Ok(block) && block@.len() == N
            && (forall|i: int| 0 <= i < N && i < bytes@.len() ==> block@[i] == bytes@[i])
            && (forall|i: int| bytes@.len() <= i < N ==> block@[i] == 0u8),
{
    match delivery {
        Ok(bytes) => {
            let mut block = [0u8; N];
            let count = if bytes.len() < N {
                bytes.len()
            } else {
                N
            };
            let mut i: usize = 0;
            while i < count
                invariant
                    i <= count <= N,
                    count <= bytes@.len(),
                    forall|k: int| 0 <= k < i ==> block@[k] == bytes@[k],
                    forall|k: int| i <= k < N ==> block@[k] == 0u8,
                decreases count - i,
            {
                block[i] = bytes[i];
                i += 1;
            }
            Ok(block)
        },
        Err(error) => Err(error),
    }
}

} // verus!
