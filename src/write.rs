//! Byte sinks that the encoder writes to.
use vstd::prelude::*;
use crate::error::Error;

verus! {

/// What is left of a writer's room after `n` more bytes, `None` standing for no bound.
pub open spec fn room_after(room: Option<nat>, n: nat) -> Option<nat> {
    match room {
        Some(c) => Some((c - n) as nat),
        None => None,
    }
}

/// A sink of bytes.
pub trait Writer {
    /// Whether `written` and `room` describe this writer; a writer that leaves them out
    /// promises no more than the count that a successful write returns.
    open spec fn described(&self) -> bool {
        false
    }

    /// The bytes that this writer has accepted so far.
    open spec fn written(&self) -> Seq<u8> {
        Seq::empty()
    }

    /// How many more bytes the writer accepts, if it knows that bound ahead; where it does,
    /// a write fails exactly when it would exceed the bound.
    open spec fn room(&self) -> Option<nat> {
        None
    }

    /// Writes all of `bytes` and returns their number.
    fn write(&mut self, bytes: &[u8]) -> (r: Result<usize, Error>)
        ensures
            final(self).described() == old(self).described(),
            r is Ok ==> r->Ok_0 == bytes@.len(),
            old(self).described() && r is Ok ==> final(self).written() == old(self).written() + bytes@,
            old(self).described() && r is Ok ==> final(self).room() == room_after(old(self).room(), bytes@.len()),
            old(self).described() ==> (old(self).room() matches Some(c) ==> (r is Ok <==> bytes@.len() <= c)),
    ;
}

/// A writer into a mutable byte slice, from its start.
pub struct SliceWriter<'w> {
    slice: &'w mut [u8],
    index: usize,
}

impl<'w> SliceWriter<'w> {
    /// The whole slice, as it stands.
    pub closed spec fn buffer(&self) -> Seq<u8> {
        self.slice@
    }

    /// How many bytes have been written.
    pub closed spec fn position(&self) -> nat {
        self.index as nat
    }

    #[verifier::type_invariant]
    closed spec fn wf(&self) -> bool {
        self.index <= self.slice@.len()
    }

    pub fn new(slice: &'w mut [u8]) -> (r: Self)
        ensures
            r.position() == 0,
            r.buffer() == old(slice)@,
    {
        SliceWriter { slice: slice, index: 0 }
    }

    /// End of a write of `size` bytes, or the error when the slice has no room for them.
    fn end(&self, size: usize) -> (r: Result<usize, Error>)
        ensures
            r is Ok <==> self.position() + size <= self.buffer().len(),
            r is Ok ==> r->Ok_0 == self.position() + size,
    {
        let len = self.slice.len();
        match self.index.checked_add(size) {
            Some(end) => {
                if end <= len {
                    Ok(end)
                } else {
                    Err(Error::Message("Try to write after the end of the slice."))
                }
            },
            None => Err(Error::Message("Write into an index that exceeds usize::MAX")),
        }
    }
}

impl<'w> Writer for SliceWriter<'w> {
    open spec fn described(&self) -> bool {
        true
    }

    open spec fn written(&self) -> Seq<u8> {
        self.buffer().take(self.position() as int)
    }

    open spec fn room(&self) -> Option<nat> {
        Some((self.buffer().len() - self.position()) as nat)
    }

    fn write(&mut self, bytes: &[u8]) -> (r: Result<usize, Error>) {
        proof {
            use_type_invariant(&*self);
        }
        let end = self.end(bytes.len())?;
        let start = self.index;
        let mut i: usize = 0;
        while i < bytes.len()
            invariant
                start + bytes@.len() == end,
                end <= self.slice@.len(),
                i <= bytes@.len(),
                self.slice@.len() == old(self).slice@.len(),
                self.index == start,
                forall|k: int| 0 <= k < start ==> self.slice@[k] == old(self).slice@[k],
                forall|k: int| 0 <= k < i ==> self.slice@[start + k] == bytes@[k],
            decreases bytes@.len() - i,
        {
            self.slice[start + i] = bytes[i];
            i = i + 1;
        }
        self.index = end;
        assert(self.written() =~= old(self).written() + bytes@);
        Ok(bytes.len())
    }
}

} // verus!
