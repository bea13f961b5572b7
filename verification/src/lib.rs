//! A fixed-length, zero-initialized byte buffer with mandatory bounds
//! checking on every access.
//!
//! [`SafeMemoryBuffer`] owns a contiguous byte region whose length is fixed
//! at construction. Single-byte reads and writes are mediated by a
//! half-open-interval bounds check (`offset < length`); an out-of-range
//! access is rejected with a typed [`BufferError::OutOfBounds`] error and
//! never clamped, wrapped or allowed to touch memory. A [`wipe`] operation
//! overwrites the whole region with zero so that sensitive content need not
//! stay resident before the buffer is reused or released.
//!
//! [`wipe`]: SafeMemoryBuffer::wipe

use vstd::prelude::*;

verus! {

/// The only error this library reports: an access offset that is not
/// strictly below the buffer's length.
#[derive(Clone, Copy, Debug, PartialEq, Eq, Structural)]
pub enum BufferError {
    OutOfBounds,
}

/// Holds exactly when every byte of `s` is zero.
pub open spec fn all_zero(s: Seq<u8>) -> bool {
    forall|i: int| 0 <= i < s.len() ==> s[i] == 0
}

/// A fixed-size contiguous byte region. The length never changes after
/// construction, every access is bounds-checked, and a fresh buffer is
/// entirely zero-filled.
pub struct SafeMemoryBuffer {
    data: Vec<u8>,
}

impl View for SafeMemoryBuffer {
    type V = Seq<u8>;

    closed spec fn view(&self) -> Seq<u8> {
        self.data@
    }
}

impl SafeMemoryBuffer {
    /// Constructs a buffer of exactly `size` bytes, every byte zero.
    /// A `size` of zero is legal and yields a buffer on which every
    /// access fails.
    pub fn new(size: usize) -> (buf: Self)
        ensures
            buf@.len() == size,
            all_zero(buf@),
    {
        let mut data: Vec<u8> = Vec::new();
        while data.len() < size
            invariant
                data@.len() <= size,
                all_zero(data@),
            decreases size - data.len(),
        {
            data.push(0);
        }
        SafeMemoryBuffer { data }
    }

    /// Stores `value` at `offset` when `offset` is in bounds; otherwise
    /// fails with `OutOfBounds` and leaves every byte unchanged.
    pub fn write(&mut self, offset: usize, value: u8) -> (r: Result<(), BufferError>)
        ensures
            offset < old(self)@.len() ==> r == Ok::<(), BufferError>(())
                && final(self)@ == old(self)@.update(offset as int, value),
            offset >= old(self)@.len() ==> r == Err::<(), BufferError>(BufferError::OutOfBounds)
                && final(self)@ == old(self)@,
    {
        if offset >= self.data.len() {
            return Err(BufferError::OutOfBounds);
        }
        self.data.set(offset, value);
        Ok(())
    }

    /// Returns the byte stored at `offset` when `offset` is in bounds;
    /// otherwise fails with `OutOfBounds`. No side effect either way.
    pub fn read(&self, offset: usize) -> (r: Result<u8, BufferError>)
        ensures
            offset < self@.len() ==> r == Ok::<u8, BufferError>(self@[offset as int]),
            offset >= self@.len() ==> r == Err::<u8, BufferError>(BufferError::OutOfBounds),
    {
        if offset >= self.data.len() {
            return Err(BufferError::OutOfBounds);
        }
        Ok(self.data[offset])
    }

    /// Overwrites every byte with zero. Always succeeds: it performs only
    /// in-bounds accesses by construction, and the length is unchanged.
    pub fn wipe(&mut self)
        ensures
            final(self)@.len() == old(self)@.len(),
            all_zero(final(self)@),
    {
        let mut i: usize = 0;
        while i < self.data.len()
            invariant
                i <= self.data@.len(),
                self.data@.len() == old(self)@.len(),
                forall|j: int| 0 <= j < i ==> self.data@[j] == 0,
            decreases self.data.len() - i,
        {
            self.data.set(i, 0);
            i += 1;
        }
    }
}

/// Law: after a write of `value` at an in-bounds `offset`, the byte at
/// `offset` reads back as `value`, every other byte is unchanged, and the
/// length is unchanged. Stated over the sequence update that `write`'s
/// contract promises and the indexing that `read`'s contract promises.
pub proof fn lemma_write_read_round_trip(s: Seq<u8>, offset: int, value: u8)
    requires
        0 <= offset < s.len(),
    ensures
        s.update(offset, value)[offset] == value,
        forall|j: int| 0 <= j < s.len() && j != offset ==> s.update(offset, value)[j] == s[j],
        s.update(offset, value).len() == s.len(),
{
}

/// Law: two all-zero byte regions of the same length are equal. Since
/// `wipe` always yields an all-zero region of the buffer's length, wiping
/// any number of times leaves the same contents as wiping once, and a wipe
/// of an already-zero buffer changes nothing observable.
pub proof fn lemma_wipe_idempotent(s1: Seq<u8>, s2: Seq<u8>)
    requires
        s1.len() == s2.len(),
        all_zero(s1),
        all_zero(s2),
    ensures
        s1 == s2,
{
    assert(s1 =~= s2);
}

/// Law: a zero-length buffer has no in-bounds offset, so every `read` and
/// `write` on it fails, whatever the offset — including zero.
pub proof fn lemma_zero_length_rejects_all(s: Seq<u8>, offset: usize)
    requires
        s.len() == 0,
    ensures
        !(offset < s.len()),
{
}

} // verus!
