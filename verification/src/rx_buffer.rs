//! The holding area for bytes of a data report that did not fit the caller's
//! buffer.

use crate::frame::INTERRUPT_REPORT_LENGTH;
use vstd::math::min;
use vstd::prelude::*;

verus! {

/// How many bytes an [`RxBuffer`] can hold: one data report.
pub const CAPACITY: usize = INTERRUPT_REPORT_LENGTH;

/// Bytes that arrived from the device and wait for the next read.
///
/// The view is the sequence of waiting bytes, oldest first. They lie in a
/// window of a fixed array that starts at [`offset`](RxBuffer::offset).
pub struct RxBuffer {
    start: u8,
    len: u8,
    data: [u8; CAPACITY],
}

impl View for RxBuffer {
    type V = Seq<u8>;

    closed spec fn view(&self) -> Seq<u8> {
        Seq::new(self.len as nat, |i: int| self.data@[self.start + i])
    }
}

impl RxBuffer {
    /// Where in the array the waiting bytes begin.
    pub closed spec fn offset(&self) -> nat {
        self.start as nat
    }

    /// The window of waiting bytes lies inside the array. This holds of every
    /// buffer at all times; the functions below say so of the buffers they
    /// return or leave behind.
    pub open spec fn wf(&self) -> bool {
        self.offset() + self@.len() <= CAPACITY
    }

    /// What [`wf`](RxBuffer::wf) says, over the fields.
    #[verifier::type_invariant]
    spec fn in_bounds(&self) -> bool {
        self.start + self.len <= CAPACITY
    }

    /// An empty buffer.
    pub fn new() -> (buffer: Self)
        ensures
            buffer@ == Seq::<u8>::empty(),
            buffer.offset() == 0,
            buffer.wf(),
    {
        Self { start: 0, len: 0, data: [0; CAPACITY] }
    }

    /// Moves waiting bytes into `dest`, oldest first: as many as wait, or as
    /// many as `dest` holds, whichever is fewer. Returns how many were moved.
    /// The rest of `dest` is left as it was, and the bytes that were not moved
    /// keep waiting. The window starts over at 0 once the last byte has left.
    pub fn read(&mut self, dest: &mut [u8]) -> (count: usize)
        ensures
            count == min(old(dest)@.len() as int, old(self)@.len() as int),
            final(dest)@ == old(self)@.take(count as int) + old(dest)@.skip(count as int),
            final(self)@ == old(self)@.skip(count as int),
            final(self).offset() == (if old(self)@.len() == 0 {
                old(self).offset() as int
            } else if count == old(self)@.len() {
                0
            } else {
                old(self).offset() + count
            }),
            final(self).wf(),
    {
        proof {
            use_type_invariant(&*self);
        }
        if self.len == 0 {
            return 0;
        }
        let waiting: usize = self.len as usize;
        let count: usize = if dest.len() < waiting {
            dest.len()
        } else {
            waiting
        };
        let start: usize = self.start as usize;
        let ghost before = dest@;
        let mut i: usize = 0;
        while i < count
            invariant
                i <= count,
                count <= waiting,
                waiting == self.len,
                start == self.start,
                start + waiting <= CAPACITY,
                count <= dest@.len(),
                dest@.len() == before.len(),
                forall|j: int| 0 <= j < i ==> dest@[j] == self.data@[start + j],
                forall|j: int| i <= j < dest@.len() ==> dest@[j] == before[j],
            decreases count - i,
        {
            dest[i] = self.data[start + i];
            i += 1;
        }
        self.len -= count as u8;
        if self.len == 0 {
            self.start = 0;
        } else {
            self.start += count as u8;
        }
        count
    }

    /// Puts `source` in place of whatever waits: afterwards exactly the bytes of
    /// `source` wait, from offset 0. An empty `source` changes nothing. Bytes
    /// that waited before are gone, so a caller that must not lose any calls
    /// this on an empty buffer only.
    pub fn write(&mut self, source: &[u8])
        requires
            source@.len() <= CAPACITY,
        ensures
            source@.len() == 0 ==> final(self)@ == old(self)@ && final(self).offset() == old(
                self,
            ).offset(),
            source@.len() != 0 ==> final(self)@ == source@ && final(self).offset() == 0,
            final(self).wf(),
    {
        proof {
            use_type_invariant(&*self);
        }
        if source.len() == 0 {
            return ;
        }
        let mut i: usize = 0;
        while i < source.len()
            invariant
                i <= source@.len() <= CAPACITY,
                self.start == old(self).start,
                self.len == old(self).len,
                self.start + self.len <= CAPACITY,
                forall|j: int| 0 <= j < i ==> self.data@[j] == source@[j],
            decreases source@.len() - i,
        {
            self.data[i] = source[i];
            i += 1;
        }
        self.start = 0;
        self.len = source.len() as u8;
    }

    /// Forgets every waiting byte.
    pub fn clear(&mut self)
        ensures
            final(self)@ == Seq::<u8>::empty(),
            final(self).offset() == 0,
            final(self).wf(),
    {
        proof {
            use_type_invariant(&*self);
        }
        self.start = 0;
        self.len = 0;
    }

    /// How many bytes wait. The window they lie in is inside the array,
    /// whatever was done to the buffer before.
    pub fn len(&self) -> (count: usize)
        ensures
            count == self@.len(),
            self.wf(),
    {
        proof {
            use_type_invariant(self);
        }
        self.len as usize
    }

    /// Whether no byte waits.
    pub fn is_empty(&self) -> (empty: bool)
        ensures
            empty <==> self@.len() == 0,
    {
        self.len == 0
    }

    /// Where in the array the waiting bytes begin.
    pub fn start(&self) -> (start: usize)
        ensures
            start == self.offset(),
            self.wf(),
    {
        proof {
            use_type_invariant(self);
        }
        self.start as usize
    }
}

} // verus!
