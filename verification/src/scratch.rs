//! The workspace that one hashing call is given.
//!
//! The hashing primitive wants a block of memory that is all zero when it first
//! sees it, and that no other call touches. A [`ScratchBuffer`] is such a
//! block: it can only be made zero-filled, and the only way to write to it is
//! to take its bytes out, which ends the buffer. A buffer that has been used
//! can thus never be handed to a second call.

use vstd::prelude::*;

verus! {

/// `len` zero bytes.
pub open spec fn zeroed(len: nat) -> Seq<u8> {
    Seq::new(len, |i: int| 0u8)
}

/// A zero-filled block of memory of a fixed size, not yet used by any call.
pub struct ScratchBuffer {
    bytes: Vec<u8>,
}

impl View for ScratchBuffer {
    type V = Seq<u8>;

    closed spec fn view(&self) -> Seq<u8> {
        self.bytes@
    }
}

impl ScratchBuffer {
    #[verifier::type_invariant]
    spec fn zero_filled(&self) -> bool {
        self.bytes@ == zeroed(self.bytes@.len())
    }

    /// Allocates a fresh block of `size` zero bytes.
    pub fn acquire(size: usize) -> (scratch: ScratchBuffer)
        ensures
            scratch@ == zeroed(size as nat),
    {
        let bytes: Vec<u8> = vec![0u8; size];
        assert(bytes@ =~= zeroed(size as nat));
        ScratchBuffer { bytes }
    }

    /// The number of bytes in the block.
    pub fn len(&self) -> (len: usize)
        ensures
            len == self@.len(),
    {
        self.bytes.len()
    }

    /// Ends the buffer and hands out its memory, still all zero, for the one
    /// call that will write to it.
    pub fn into_bytes(self) -> (bytes: Vec<u8>)
        ensures
            bytes@ == self@,
            bytes@ == zeroed(self@.len()),
    {
        proof {
            use_type_invariant(&self);
        }
        self.bytes
    }
}

} // verus!
