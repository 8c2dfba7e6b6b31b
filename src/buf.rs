use vstd::prelude::*;
use crate::msg_buffer::MsgBuffer;

verus! {

/// Reads the bytes of a received message from the front.
pub struct MsgBufferReader {
    buf: Vec<u8>,
    offset: usize,
}

impl View for MsgBufferReader {
    type V = Seq<u8>;

    /// The bytes not read yet.
    closed spec fn view(&self) -> Seq<u8> {
        self.buf@.subrange(self.offset as int, self.buf@.len() as int)
    }
}

impl MsgBufferReader {
    #[verifier::type_invariant]
    closed spec fn wf(&self) -> bool {
        self.offset <= self.buf@.len()
    }

    /// A reader over the message held by `buf`.
    pub fn new(buf: &MsgBuffer) -> (r: MsgBufferReader)
        ensures
            r@ == buf@,
    {
        let bytes = buf.get_inner_buf();
        let v = vstd::slice::slice_to_vec(bytes);
        let n = v.len();
        let r = MsgBufferReader { buf: v, offset: 0 };
        assert(r.buf@.subrange(0, n as int) == r.buf@);
        r
    }

    /// The number of bytes not read yet.
    pub fn len(&self) -> (r: usize)
        ensures
            r == self@.len(),
    {
        proof {
            use_type_invariant(self);
        }
        self.buf.len() - self.offset
    }

    /// Whether every byte has been read.
    pub fn is_empty(&self) -> (r: bool)
        ensures
            r == (self@.len() == 0),
    {
        proof {
            use_type_invariant(self);
        }
        self.offset == self.buf.len()
    }

    /// The number of bytes not read yet.
    pub fn remaining(&self) -> (r: usize)
        ensures
            r == self@.len(),
    {
        proof {
            use_type_invariant(self);
        }
        self.buf.len() - self.offset
    }

    /// A copy of the bytes not read yet.
    pub fn chunk(&self) -> (r: Vec<u8>)
        ensures
            r@ == self@,
    {
        proof {
            use_type_invariant(self);
        }
        let mut v: Vec<u8> = Vec::new();
        let mut i = self.offset;
        while i < self.buf.len()
            invariant
                self.offset <= i <= self.buf@.len(),
                v@ == self.buf@.subrange(self.offset as int, i as int),
            decreases self.buf@.len() - i,
        {
            v.push(self.buf[i]);
            i = i + 1;
        }
        v
    }

    /// Marks up to `amt` bytes as read; asking for more than remains reads them all.
    pub fn consume(&mut self, amt: usize)
        ensures
            amt <= old(self)@.len() ==> final(self)@ == old(self)@.subrange(
                amt as int,
                old(self)@.len() as int,
            ),
            amt > old(self)@.len() ==> final(self)@ == Seq::<u8>::empty(),
    {
        proof {
            use_type_invariant(&*self);
        }
        let remain = self.buf.len() - self.offset;
        let n = if amt > remain {
            remain
        } else {
            amt
        };
        self.offset = self.offset + n;
        assert(self@ =~= old(self)@.subrange(n as int, old(self)@.len() as int));
    }

    /// Marks up to `cnt` bytes as read.
    pub fn advance(&mut self, cnt: usize)
        ensures
            cnt <= old(self)@.len() ==> final(self)@ == old(self)@.subrange(
                cnt as int,
                old(self)@.len() as int,
            ),
            cnt > old(self)@.len() ==> final(self)@ == Seq::<u8>::empty(),
    {
        self.consume(cnt);
    }
}

} // verus!
