//! The buffer behind the two-pass encoding of a reply.
//!
//! A reply is laid out twice. The first walk only counts: every piece that a
//! value needs adds its length to the size of the buffer. The buffer is then
//! switched, which fixes that size, and the second walk appends the same
//! pieces, each landing at the offset that the first walk gave it.

use vstd::prelude::*;

verus! {

/// A buffer that first counts the bytes it will hold, then holds them.
pub struct FFIBuffer {
    writing: bool,
    size: usize,
    data: Vec<u8>,
}

impl FFIBuffer {
    /// True once the buffer has been switched from counting to writing.
    pub closed spec fn is_writing(&self) -> bool {
        self.writing
    }

    /// The size of the buffer: while counting, the bytes counted so far; once
    /// writing, the size that the counting ended with.
    pub closed spec fn size(&self) -> nat {
        self.size as nat
    }

    /// The bytes written so far; none while counting.
    pub closed spec fn written(&self) -> Seq<u8> {
        self.data@
    }

    /// Counting writes nothing, and writing never goes past the size.
    pub closed spec fn wf(&self) -> bool {
        if self.writing {
            self.data@.len() <= self.size
        } else {
            self.data@.len() == 0
        }
    }

    /// The offset at which the next piece lands.
    pub open spec fn used(&self) -> nat {
        if self.is_writing() {
            self.written().len()
        } else {
            self.size()
        }
    }

    /// The offset that no piece may reach past: the size once it is fixed,
    /// the largest offset of the machine before.
    pub open spec fn capacity(&self) -> nat {
        if self.is_writing() {
            self.size()
        } else {
            usize::MAX as nat
        }
    }

    /// The next piece never lands past the capacity.
    pub proof fn lemma_used_within_capacity(&self)
        requires
            self.wf(),
        ensures
            self.used() <= self.capacity(),
    {
    }

    /// An empty buffer that counts.
    pub fn new() -> (res: FFIBuffer)
        ensures
            res.wf(),
            !res.is_writing(),
            res.size() == 0,
            res.written().len() == 0,
    {
        FFIBuffer { writing: false, size: 0, data: Vec::new() }
    }

    /// Ends the counting: the size is fixed at what was counted, room for it
    /// is set aside, and writing starts at offset 0. A buffer that writes
    /// already stays as it is.
    pub fn switch_mode(&mut self)
        requires
            old(self).wf(),
        ensures
            final(self).wf(),
            final(self).is_writing(),
            final(self).size() == old(self).size(),
            final(self).written() == if old(self).is_writing() {
                old(self).written()
            } else {
                Seq::<u8>::empty()
            },
    {
        if !self.writing {
            self.data = Vec::with_capacity(self.size);
            self.writing = true;
        }
    }

    /// Tells whether the buffer is writing.
    pub fn writing(&self) -> (res: bool)
        ensures
            res == self.is_writing(),
    {
        self.writing
    }

    /// The size of the buffer.
    pub fn len(&self) -> (res: usize)
        ensures
            res == self.size(),
    {
        self.size
    }

    /// The offset at which the next piece lands.
    pub fn position(&self) -> (res: usize)
        requires
            self.wf(),
        ensures
            res == self.used(),
    {
        if self.writing {
            self.data.len()
        } else {
            self.size
        }
    }

    /// Gives the next piece its place and hands back its offset.
    ///
    /// While counting, the size grows by the length of the piece. While
    /// writing, the piece is appended to what was written. `None`, with the
    /// buffer unchanged, where the piece would reach past the capacity.
    pub fn append(&mut self, piece: &[u8]) -> (res: Option<usize>)
        requires
            old(self).wf(),
        ensures
            final(self).wf(),
            final(self).is_writing() == old(self).is_writing(),
            match res {
                Some(offset) => {
                    &&& old(self).used() + piece@.len() <= old(self).capacity()
                    &&& offset == old(self).used()
                    &&& final(self).used() == old(self).used() + piece@.len()
                    &&& final(self).is_writing() ==> {
                        &&& final(self).size() == old(self).size()
                        &&& final(self).written() == old(self).written() + piece@
                    }
                },
                None => {
                    &&& old(self).used() + piece@.len() > old(self).capacity()
                    &&& final(self).size() == old(self).size()
                    &&& final(self).written() == old(self).written()
                },
            },
    {
        if self.writing {
            let offset = self.data.len();
            if piece.len() > self.size - offset {
                return None;
            }
            self.data.extend_from_slice(piece);
            Some(offset)
        } else {
            let offset = self.size;
            if piece.len() > usize::MAX - offset {
                return None;
            }
            self.size = offset + piece.len();
            Some(offset)
        }
    }

    /// Hands over the bytes written.
    pub fn into_bytes(self) -> (res: Vec<u8>)
        ensures
            res@ == self.written(),
    {
        self.data
    }
}

} // verus!
