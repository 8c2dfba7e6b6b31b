use vstd::prelude::*;
use crate::channel::{ClientRpcContext, SubChannel, SLOTS};
use crate::codec::ser;
use crate::error::Error;
use crate::msg_buffer::MsgBuffer;
use crate::req_handle::ReqHandle;

verus! {

/// Names an outstanding client request: its request type and the slot
/// under which its caller waits. The engine hands it back on completion.
#[derive(Clone, Copy, Debug, PartialEq, Eq, Structural)]
pub struct Tag {
    pub req_type: u8,
    pub idx: u16,
}

/// One client request on its way to the engine thread, with the sender on
/// which its caller waits for the response.
pub struct Call<W> {
    pub sid: i32,
    pub req_type: u8,
    pub req_msgbuf: MsgBuffer,
    pub resp_msgbuf: MsgBuffer,
    pub tx: W,
}

/// A response, attached to the request it answers, on its way to the engine thread.
pub struct CallTag {
    pub req_handle: ReqHandle,
}

/// An item of an engine thread's work queue.
pub enum RpcCall<W> {
    Call(Call<W>),
    CallTag(CallTag),
}

/// What the engine thread asks of the engine for one work item.
pub enum EngineOp {
    /// Send a request on session `sid`; the engine reports its completion with `tag`.
    EnqueueRequest {
        sid: i32,
        req_type: u8,
        req_msgbuf: MsgBuffer,
        resp_msgbuf: MsgBuffer,
        tag: Tag,
    },
    /// Send the response to the request that the engine knows as `handle`.
    EnqueueResponse { handle: u64, resp_msgbuf: MsgBuffer },
}

/// The encoder and decoder of one side of a method.
pub struct Codec<P, Q> {
    pub ser: Q,
    pub de: P,
}

impl<P, Q> Codec<P, Q> {
    pub fn new(ser: Q, de: P) -> (r: Self)
        ensures
            r.ser == ser,
            r.de == de,
    {
        Codec { ser, de }
    }
}

impl<W> Call<W> {
    /// Builds the call for one unary request: `encoded` is the request as
    /// the method's encoder wrote it. A request longer than `req_msgbuf`
    /// can hold fails with a codec error, and no call is made.
    pub fn unary(
        subchan: &SubChannel,
        req_type: u8,
        encoded: &[u8],
        req_msgbuf: MsgBuffer,
        resp_msgbuf: MsgBuffer,
        tx: W,
    ) -> (r: Result<Call<W>, Error>)
        ensures
            r is Ok <==> encoded@.len() <= req_msgbuf.capacity(),
            r is Err ==> r->Err_0.is_codec(),
            r is Ok ==> ({
                let c = r->Ok_0;
                &&& c.sid == subchan.id
                &&& c.req_type == req_type
                &&& c.req_msgbuf@ == encoded@
                &&& c.req_msgbuf.capacity() == req_msgbuf.capacity()
                &&& c.resp_msgbuf == resp_msgbuf
                &&& c.tx == tx
            }),
    {
        let mut req_msgbuf = req_msgbuf;
        match ser(encoded, &mut req_msgbuf) {
            Ok(()) => Ok(Call { sid: subchan.id, req_type, req_msgbuf, resp_msgbuf, tx }),
            Err(e) => Err(e),
        }
    }

    /// Takes a slot for the call in `ctx` and gives the request to send.
    /// Only when every slot of the request type is held is the call not
    /// sent; its sender is then handed back.
    pub fn resolve(self, ctx: &mut ClientRpcContext<W>) -> (r: Result<EngineOp, W>)
        requires
            old(ctx).wf(),
        ensures
            final(ctx).wf(),
            resolves(self, *old(ctx), *final(ctx), r),
    {
        let Call { sid, req_type, req_msgbuf, resp_msgbuf, tx } = self;
        match ctx.register(req_type, tx) {
            Ok(tag) => Ok(EngineOp::EnqueueRequest { sid, req_type, req_msgbuf, resp_msgbuf, tag }),
            Err(tx) => Err(tx),
        }
    }
}

/// The tag an engine operation carries; none for a response.
pub open spec fn tag_of(op: EngineOp) -> Option<Tag> {
    match op {
        EngineOp::EnqueueRequest { tag, .. } => Some(tag),
        EngineOp::EnqueueResponse { .. } => None,
    }
}

/// The request that sends `c` under slot `t`.
pub open spec fn request_for<W>(c: Call<W>, t: u16) -> EngineOp {
    EngineOp::EnqueueRequest {
        sid: c.sid,
        req_type: c.req_type,
        req_msgbuf: c.req_msgbuf,
        resp_msgbuf: c.resp_msgbuf,
        tag: Tag { req_type: c.req_type, idx: t },
    }
}

/// Whether resolving `c` against the table `old` may give `r` and leave the
/// table `new`: a call is refused only when every slot of its request type
/// is held, and is otherwise sent under the first free slot after the one
/// given out last, with its sender waiting in that slot.
pub open spec fn resolves<W>(
    c: Call<W>,
    old: ClientRpcContext<W>,
    new: ClientRpcContext<W>,
    r: Result<EngineOp, W>,
) -> bool {
    &&& old.pending()[c.req_type as int].len() < SLOTS ==> r is Ok
    &&& r is Err ==> r == Err::<EngineOp, W>(c.tx) && new == old && old.all_held(c.req_type)
    &&& r is Ok ==> {
        &&& tag_of(r->Ok_0) is Some
        &&& r->Ok_0 == request_for(c, tag_of(r->Ok_0)->Some_0.idx)
        &&& old.takes_slot(&new, c.req_type, c.tx, tag_of(r->Ok_0)->Some_0.idx)
    }
}

/// The pending table with `w` waiting in slot `t` of request type `m`.
pub open spec fn with_pending<W>(p: Seq<Map<u16, W>>, m: u8, t: u16, w: W) -> Seq<Map<u16, W>> {
    p.update(m as int, p[m as int].insert(t, w))
}

/// The pending table with slot `t` of request type `m` free.
pub open spec fn without_pending<W>(p: Seq<Map<u16, W>>, m: u8, t: u16) -> Seq<Map<u16, W>> {
    p.update(m as int, p[m as int].remove(t))
}

impl CallTag {
    /// The response to send: the buffer attached to the request, for the
    /// engine's handle of it. Nothing is sent where no response was attached.
    pub fn resolve(self) -> (r: Option<EngineOp>)
        ensures
            self.req_handle.attached() is None ==> r is None,
            self.req_handle.attached() is Some ==> r == Some(
                EngineOp::EnqueueResponse {
                    handle: self.req_handle.handle(),
                    resp_msgbuf: self.req_handle.attached()->Some_0,
                },
            ),
    {
        let mut h = self.req_handle;
        let handle = h.get_raw();
        match h.get_dyn_resp_msgbuf() {
            Some(resp_msgbuf) => Some(EngineOp::EnqueueResponse { handle, resp_msgbuf }),
            None => None,
        }
    }
}

impl<W> RpcCall<W> {
    /// What to ask of the engine for one work item: a request takes a slot
    /// in `ctx`, a response needs none. `Err` holds the sender of a request
    /// that found its slot taken, or nothing for a response that had no
    /// buffer attached.
    pub fn resolve(self, ctx: &mut ClientRpcContext<W>) -> (r: Result<EngineOp, Option<W>>)
        requires
            old(ctx).wf(),
        ensures
            final(ctx).wf(),
            self is CallTag ==> *final(ctx) == *old(ctx),
            self is CallTag && self->CallTag_0.req_handle.attached() is None ==> r == Err::<
                EngineOp,
                Option<W>,
            >(None),
            self is CallTag && self->CallTag_0.req_handle.attached() is Some ==> r == Ok::<
                EngineOp,
                Option<W>,
            >(
                EngineOp::EnqueueResponse {
                    handle: self->CallTag_0.req_handle.handle(),
                    resp_msgbuf: self->CallTag_0.req_handle.attached()->Some_0,
                },
            ),
            self is Call ==> (r is Err ==> r->Err_0 is Some) && resolves(
                self->Call_0,
                *old(ctx),
                *final(ctx),
                match r {
                    Ok(op) => Ok::<EngineOp, W>(op),
                    Err(e) => Err::<EngineOp, W>(e->Some_0),
                },
            ),
    {
        match self {
            RpcCall::Call(call) => match call.resolve(ctx) {
                Ok(op) => Ok(op),
                Err(tx) => Err(Some(tx)),
            },
            RpcCall::CallTag(tag) => match tag.resolve() {
                Some(op) => Ok(op),
                None => Err(None),
            },
        }
    }
}

} // verus!
