use erpc_rs::buf::MsgBufferReader;
use erpc_rs::call::{Call, CallTag, EngineOp, RpcCall, Tag};
use erpc_rs::channel::{Channel, ClientRpcContext, SubChannel};
use erpc_rs::codec::ser;
use erpc_rs::error::Error;
use erpc_rs::msg_buffer::MsgBuffer;
use erpc_rs::req_handle::ReqHandle;

fn buffer_with(bytes: &[u8], cap: usize) -> MsgBuffer {
    let mut b = MsgBuffer::with_capacity(cap);
    b.fill(bytes);
    b
}

#[test]
fn ser_fits_message_in_buffer() {
    let mut b = MsgBuffer::with_capacity(4);
    assert!(ser(&[1, 2, 3], &mut b).is_ok());
    assert_eq!(b.get_inner_buf(), &[1, 2, 3]);
    assert_eq!(b.get_data_size(), 3);
    assert_eq!(b.get_max_data_size(), 4);
}

#[test]
fn ser_takes_message_of_exactly_the_capacity() {
    let mut b = MsgBuffer::with_capacity(3);
    assert!(ser(&[7, 8, 9], &mut b).is_ok());
    assert_eq!(b.get_data_size(), 3);
}

#[test]
fn oversized_request_fails_with_codec_error_before_any_call() {
    let sub = SubChannel { id: 5 };
    let req = MsgBuffer::with_capacity(2);
    let resp = MsgBuffer::with_capacity(8);
    let r = Call::unary(&sub, 1, &[1, 2, 3], req, resp, 42u32);
    match r {
        Err(Error::Codec(_)) => {}
        _ => panic!("expected a codec error"),
    }
}

#[test]
fn ser_leaves_buffer_unchanged_on_error() {
    let mut b = buffer_with(&[9], 2);
    assert!(matches!(ser(&[1, 2, 3], &mut b), Err(Error::Codec(_))));
    assert_eq!(b.get_inner_buf(), &[9]);
}

#[test]
fn unary_builds_call_for_the_leased_session() {
    let sub = SubChannel { id: 5 };
    let req = MsgBuffer::with_capacity(8);
    let resp = MsgBuffer::with_capacity(8);
    let call = Call::unary(&sub, 3, &[4, 5], req, resp, 7u32).ok().unwrap();
    assert_eq!(call.sid, 5);
    assert_eq!(call.req_type, 3);
    assert_eq!(call.req_msgbuf.get_inner_buf(), &[4, 5]);
    assert_eq!(call.tx, 7);
}

#[test]
fn resize_truncates_and_pads() {
    let mut b = buffer_with(&[1, 2, 3], 5);
    b.resize(2);
    assert_eq!(b.get_inner_buf(), &[1, 2]);
    b.resize(4);
    assert_eq!(b.get_inner_buf(), &[1, 2, 0, 0]);
}

#[test]
fn reader_reads_from_the_front() {
    let b = buffer_with(&[1, 2, 3, 4], 4);
    let mut r = MsgBufferReader::new(&b);
    assert_eq!(r.len(), 4);
    assert!(!r.is_empty());
    r.consume(1);
    assert_eq!(r.chunk(), vec![2, 3, 4]);
    r.advance(10);
    assert!(r.is_empty());
    assert_eq!(r.remaining(), 0);
    assert_eq!(r.chunk(), Vec::<u8>::new());
}

#[test]
fn completion_returns_the_registered_caller() {
    let mut ctx: ClientRpcContext<u32> = ClientRpcContext::new();
    let t = ctx.register(2, 77).ok().unwrap();
    assert_eq!(t, Tag { req_type: 2, idx: 1 });
    let resp = buffer_with(&[5], 4);
    let (w, reader) = ctx.complete(t, &resp).unwrap();
    assert_eq!(w, 77);
    assert_eq!(reader.chunk(), vec![5]);
    assert!(ctx.complete(t, &resp).is_none());
}

#[test]
fn thousand_calls_each_get_their_own_response() {
    let mut ctx: ClientRpcContext<u32> = ClientRpcContext::new();
    let sub = SubChannel { id: 1 };
    let mut sent: Vec<(Tag, Vec<u8>)> = Vec::new();
    for marker in 0u32..1000 {
        let payload = marker.to_le_bytes().to_vec();
        let req = MsgBuffer::with_capacity(16);
        let resp = MsgBuffer::with_capacity(16);
        let call = Call::unary(&sub, 9, &payload, req, resp, marker).ok().unwrap();
        match call.resolve(&mut ctx) {
            Ok(EngineOp::EnqueueRequest { req_msgbuf, tag, .. }) => {
                sent.push((tag, req_msgbuf.get_inner_buf().to_vec()))
            }
            _ => panic!("expected a request"),
        }
    }
    // Complete in an order unrelated to submission: evens backwards, then odds.
    let mut order: Vec<usize> = (0..1000).filter(|i| i % 2 == 0).rev().collect();
    order.extend((0..1000).filter(|i| i % 2 == 1));
    for i in order {
        let (tag, echoed) = &sent[i];
        let resp = buffer_with(echoed, 16);
        let (marker, reader) = ctx.complete(*tag, &resp).unwrap();
        let bytes = reader.chunk();
        assert_eq!(u32::from_le_bytes([bytes[0], bytes[1], bytes[2], bytes[3]]), marker);
        assert_eq!(marker as usize, i);
    }
}

#[test]
fn slots_wrap_around_without_cross_wiring() {
    let mut ctx: ClientRpcContext<u64> = ClientRpcContext::new();
    let resp = MsgBuffer::with_capacity(1);
    let mut window: Vec<(Tag, u64)> = Vec::new();
    for n in 0u64..70_000 {
        let t = ctx.register(0, n).ok().unwrap();
        window.push((t, n));
        if window.len() == 32 {
            let (t0, n0) = window.remove(0);
            let (w, _) = ctx.complete(t0, &resp).unwrap();
            assert_eq!(w, n0);
        }
    }
    for (t, n) in window {
        assert_eq!(ctx.complete(t, &resp).unwrap().0, n);
    }
}

#[test]
fn taken_slot_is_not_given_out_again() {
    let mut ctx: ClientRpcContext<u32> = ClientRpcContext::new();
    for n in 0u32..65536 {
        assert!(ctx.register(4, n).is_ok());
    }
    match ctx.register(4, 99) {
        Err(w) => assert_eq!(w, 99),
        Ok(_) => panic!("slot reused while its caller still waits"),
    }
    // Other request types are unaffected.
    assert_eq!(ctx.register(5, 1).ok().unwrap(), Tag { req_type: 5, idx: 1 });
}

#[test]
fn leases_stop_after_every_session() {
    let mut ch = Channel::new(vec![10, 11, 12, 13]);
    let mut ids = Vec::new();
    for _ in 0..4 {
        ids.push(ch.pick_subchan().unwrap().id);
    }
    assert_eq!(ids, vec![10, 11, 12, 13]);
    assert!(ch.pick_subchan().is_none());
    assert!(ch.pick_subchan().is_none());
    assert_eq!(ch.lease_attempts(), 6);
}

#[test]
fn wrapped_counter_skips_a_slot_still_held() {
    let mut ctx: ClientRpcContext<u32> = ClientRpcContext::new();
    let resp = MsgBuffer::with_capacity(1);
    let held = ctx.register(6, 1).ok().unwrap();
    assert_eq!(held.idx, 1);
    for n in 0u32..65535 {
        let t = ctx.register(6, n + 10).ok().unwrap();
        assert_ne!(t.idx, 1);
        assert_eq!(ctx.complete(t, &resp).unwrap().0, n + 10);
    }
    // The counter has wrapped round to slot 0; slot 1 is still held.
    let t = ctx.register(6, 77).ok().unwrap();
    assert_eq!(t, Tag { req_type: 6, idx: 2 });
    assert_eq!(ctx.complete(held, &resp).unwrap().0, 1);
    assert_eq!(ctx.complete(t, &resp).unwrap().0, 77);
}

#[test]
fn resolve_refuses_only_when_every_slot_is_held() {
    let mut ctx: ClientRpcContext<u32> = ClientRpcContext::new();
    for n in 0u32..65535 {
        assert!(ctx.register(3, n).is_ok());
    }
    let sub = SubChannel { id: 2 };
    let mk = |tx: u32| {
        Call::unary(&sub, 3, &[1], MsgBuffer::with_capacity(4), MsgBuffer::with_capacity(4), tx)
            .ok()
            .unwrap()
    };
    match mk(500).resolve(&mut ctx) {
        Ok(EngineOp::EnqueueRequest { tag, .. }) => assert_eq!(tag, Tag { req_type: 3, idx: 0 }),
        _ => panic!("expected a request"),
    }
    match mk(501).resolve(&mut ctx) {
        Err(tx) => assert_eq!(tx, 501),
        Ok(_) => panic!("every slot is held"),
    }
}

#[test]
fn response_goes_to_the_engine_with_its_handle() {
    let req = buffer_with(&[1], 4);
    let pre = MsgBuffer::with_capacity(4);
    let mut h = ReqHandle::from_inner_raw(33, req, pre);
    assert_eq!(h.get_req_msgbuf().get_inner_buf(), &[1]);
    assert_eq!(h.get_pre_resp_msgbuf().get_max_data_size(), 4);
    assert!(h.init_dyn_resp_msgbuf_from_allocated(buffer_with(&[8, 9], 4)).is_none());
    let mut ctx: ClientRpcContext<u32> = ClientRpcContext::new();
    match RpcCall::CallTag(CallTag { req_handle: h }).resolve(&mut ctx) {
        Ok(EngineOp::EnqueueResponse { handle, resp_msgbuf }) => {
            assert_eq!(handle, 33);
            assert_eq!(resp_msgbuf.get_inner_buf(), &[8, 9]);
        }
        _ => panic!("expected a response"),
    }
}

#[test]
fn response_without_buffer_is_not_sent() {
    let h = ReqHandle::from_inner_raw(1, MsgBuffer::with_capacity(1), MsgBuffer::with_capacity(1));
    assert!(CallTag { req_handle: h }.resolve().is_none());
}
