use vstd::prelude::*;
use crate::channel::{Channel, SubChannel};
use crate::msg_buffer::MsgBuffer;

verus! {

/// A client bound to one leased session of a channel.
#[derive(Clone, Copy, Debug)]
pub struct Client {
    pub chan: SubChannel,
}

impl Client {
    /// A client on the next free session of `channel`; none once every
    /// session of the channel has been leased.
    pub fn new(channel: &mut Channel) -> (r: Option<Client>)
        requires
            old(channel).cursor() < usize::MAX,
        ensures
            final(channel).sessions() == old(channel).sessions(),
            final(channel).cursor() == old(channel).cursor() + 1,
            old(channel).cursor() < old(channel).sessions().len() ==> r is Some
                && r->Some_0.chan.id == old(channel).sessions()[old(channel).cursor() as int],
            old(channel).cursor() >= old(channel).sessions().len() ==> r is None,
    {
        match channel.pick_subchan() {
            Some(chan) => Some(Client { chan }),
            None => None,
        }
    }

    /// A buffer of `max_data_size` bytes, all zero.
    pub fn alloc_msg_buffer(&self, max_data_size: usize) -> (r: MsgBuffer)
        ensures
            r@ == Seq::new(max_data_size as nat, |i: int| 0u8),
            r.capacity() == max_data_size,
    {
        MsgBuffer::zeroed(max_data_size)
    }
}

} // verus!
