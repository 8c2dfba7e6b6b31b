use vstd::prelude::*;
use crate::error::Error;
use crate::msg_buffer::MsgBuffer;

verus! {

/// The encoder and decoder of one message type of a method.
pub struct Marshaller<S, D> {
    pub ser: S,
    pub de: D,
}

impl<S, D> Marshaller<S, D> {
    pub fn new(ser: S, de: D) -> (r: Self)
        ensures
            r.ser == ser,
            r.de == de,
    {
        Marshaller { ser, de }
    }
}

/// Places an encoded message in `buf`. A message longer than the buffer can
/// hold is refused with a codec error and leaves the buffer as it was.
pub fn ser(encoded: &[u8], buf: &mut MsgBuffer) -> (r: Result<(), Error>)
    ensures
        final(buf).capacity() == old(buf).capacity(),
        r is Ok <==> encoded@.len() <= old(buf).capacity(),
        r is Ok ==> final(buf)@ == encoded@,
        r is Err ==> r->Err_0.is_codec() && *final(buf) == *old(buf),
{
    if encoded.len() <= buf.get_max_data_size() {
        buf.fill(encoded);
        Ok(())
    } else {
        Err(Error::Codec(String::from_str("message is too large for its buffer")))
    }
}

} // verus!
