use vstd::prelude::*;
use crate::msg_buffer::MsgBuffer;

verus! {

/// A request received by a server: the engine's handle for it, the request
/// message, the response buffer the engine set aside for it, and the
/// response buffer the handler attached, if any.
pub struct ReqHandle {
    raw: u64,
    req_msgbuf: MsgBuffer,
    pre_resp_msgbuf: MsgBuffer,
    dyn_resp_msgbuf: Option<MsgBuffer>,
}

impl ReqHandle {
    /// The engine's handle for the request.
    pub closed spec fn handle(&self) -> u64 {
        self.raw
    }

    pub closed spec fn request(&self) -> MsgBuffer {
        self.req_msgbuf
    }

    pub closed spec fn preallocated(&self) -> MsgBuffer {
        self.pre_resp_msgbuf
    }

    /// The response buffer the handler attached.
    pub closed spec fn attached(&self) -> Option<MsgBuffer> {
        self.dyn_resp_msgbuf
    }

    /// A received request, with no response attached yet.
    pub fn from_inner_raw(raw: u64, req_msgbuf: MsgBuffer, pre_resp_msgbuf: MsgBuffer) -> (r:
        ReqHandle)
        ensures
            r.handle() == raw,
            r.request() == req_msgbuf,
            r.preallocated() == pre_resp_msgbuf,
            r.attached() is None,
    {
        ReqHandle { raw, req_msgbuf, pre_resp_msgbuf, dyn_resp_msgbuf: None }
    }

    /// The engine's handle for the request.
    pub fn get_raw(&self) -> (r: u64)
        ensures
            r == self.handle(),
    {
        self.raw
    }

    /// The request message.
    pub fn get_req_msgbuf(&self) -> (r: &MsgBuffer)
        ensures
            *r == self.request(),
    {
        &self.req_msgbuf
    }

    /// The response buffer that the engine set aside for the request.
    pub fn get_pre_resp_msgbuf(&self) -> (r: &MsgBuffer)
        ensures
            *r == self.preallocated(),
    {
        &self.pre_resp_msgbuf
    }

    /// Attaches `msgbuf` as the response; a response attached before is
    /// handed back.
    pub fn init_dyn_resp_msgbuf_from_allocated(&mut self, msgbuf: MsgBuffer) -> (r: Option<
        MsgBuffer,
    >)
        ensures
            r == old(self).attached(),
            final(self).attached() == Some(msgbuf),
            final(self).handle() == old(self).handle(),
            final(self).request() == old(self).request(),
            final(self).preallocated() == old(self).preallocated(),
    {
        let prev = self.dyn_resp_msgbuf.take();
        self.dyn_resp_msgbuf = Some(msgbuf);
        prev
    }

    /// Takes the attached response out of the handle.
    pub fn get_dyn_resp_msgbuf(&mut self) -> (r: Option<MsgBuffer>)
        ensures
            r == old(self).attached(),
            final(self).attached() is None,
            final(self).handle() == old(self).handle(),
            final(self).request() == old(self).request(),
            final(self).preallocated() == old(self).preallocated(),
    {
        self.dyn_resp_msgbuf.take()
    }
}

} // verus!
