use vstd::prelude::*;

verus! {

/// A message buffer: the bytes of one message, at most `max_data_size` of them.
pub struct MsgBuffer {
    data: Vec<u8>,
    max_data_size: usize,
}

impl View for MsgBuffer {
    type V = Seq<u8>;

    closed spec fn view(&self) -> Seq<u8> {
        self.data@
    }
}

impl MsgBuffer {
    /// The most bytes the buffer can hold.
    pub closed spec fn capacity(&self) -> nat {
        self.max_data_size as nat
    }

    #[verifier::type_invariant]
    closed spec fn wf(&self) -> bool {
        self.data@.len() <= self.max_data_size
    }

    /// An empty buffer that can hold up to `max_data_size` bytes.
    pub fn with_capacity(max_data_size: usize) -> (r: MsgBuffer)
        ensures
            r@ == Seq::<u8>::empty(),
            r.capacity() == max_data_size,
    {
        MsgBuffer { data: Vec::new(), max_data_size }
    }

    /// A buffer of `size` bytes, all zero, that can hold no more.
    pub fn zeroed(size: usize) -> (r: MsgBuffer)
        ensures
            r@ == Seq::new(size as nat, |i: int| 0u8),
            r.capacity() == size,
    {
        let mut b = MsgBuffer::with_capacity(size);
        b.resize(size);
        assert(b@ =~= Seq::new(size as nat, |i: int| 0u8));
        b
    }

    /// The bytes of the message.
    pub fn get_inner_buf(&self) -> (r: &[u8])
        ensures
            r@ == self@,
    {
        self.data.as_slice()
    }

    /// The number of bytes of the message.
    pub fn get_data_size(&self) -> (r: usize)
        ensures
            r == self@.len(),
            r <= self.capacity(),
    {
        proof {
            use_type_invariant(self);
        }
        self.data.len()
    }

    /// The most bytes the buffer can hold.
    pub fn get_max_data_size(&self) -> (r: usize)
        ensures
            r == self.capacity(),
            self@.len() <= r,
    {
        proof {
            use_type_invariant(self);
        }
        self.max_data_size
    }

    /// Sets the message to a copy of `bytes`.
    pub fn fill(&mut self, bytes: &[u8])
        requires
            bytes@.len() <= old(self).capacity(),
        ensures
            final(self)@ == bytes@,
            final(self).capacity() == old(self).capacity(),
    {
        let mut v: Vec<u8> = Vec::new();
        let mut i: usize = 0;
        while i < bytes.len()
            invariant
                i <= bytes@.len(),
                v@ == bytes@.subrange(0, i as int),
            decreases bytes@.len() - i,
        {
            v.push(bytes[i]);
            i = i + 1;
        }
        assert(bytes@.subrange(0, i as int) == bytes@);
        self.data = v;
    }

    /// Changes the message size to `new_data_size`: a shorter message keeps
    /// its first bytes, a longer one is padded with zeros.
    pub fn resize(&mut self, new_data_size: usize)
        requires
            new_data_size <= old(self).capacity(),
        ensures
            final(self).capacity() == old(self).capacity(),
            final(self)@.len() == new_data_size,
            new_data_size <= old(self)@.len() ==> final(self)@ == old(self)@.subrange(
                0,
                new_data_size as int,
            ),
            new_data_size > old(self)@.len() ==> final(self)@ == old(self)@ + Seq::new(
                (new_data_size - old(self)@.len()) as nat,
                |i: int| 0u8,
            ),
    {
        proof {
            use_type_invariant(&*self);
        }
        let keep = if new_data_size <= self.data.len() {
            new_data_size
        } else {
            self.data.len()
        };
        let mut v: Vec<u8> = Vec::new();
        let mut i: usize = 0;
        while i < keep
            invariant
                keep <= self.data@.len(),
                i <= keep,
                v@ == self.data@.subrange(0, i as int),
            decreases keep - i,
        {
            v.push(self.data[i]);
            i = i + 1;
        }
        while v.len() < new_data_size
            invariant
                keep <= v@.len() <= new_data_size,
                v@ == self.data@.subrange(0, keep as int) + Seq::new(
                    (v@.len() - keep) as nat,
                    |i: int| 0u8,
                ),
            decreases new_data_size - v@.len(),
        {
            v.push(0u8);
            assert(v@ == self.data@.subrange(0, keep as int) + Seq::new(
                (v@.len() - keep) as nat,
                |i: int| 0u8,
            ));
        }
        proof {
            if new_data_size <= old(self)@.len() {
                assert(v@ =~= old(self)@.subrange(0, new_data_size as int));
            } else {
                assert(self.data@.subrange(0, keep as int) =~= old(self)@);
            }
        }
        self.data = v;
    }
}

} // verus!
