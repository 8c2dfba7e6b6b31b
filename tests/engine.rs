use erpc_rs::client::Client;
use erpc_rs::connect::{ChannelBuilder, ConnectEvent, ConnectStep};
use erpc_rs::env::{EnvBuilder, Environment};
use erpc_rs::error::{Error, EALREADY, EBUSY, EEXIST, EINVAL, ENOMEM, EPERM};
use erpc_rs::poll::{Event, PollLoop, Step};
use erpc_rs::rpc::{Nexus, Rpc};
use erpc_rs::server::{Handler, ServerBuilder, ServiceBuilder};

fn internal_text(e: Error) -> String {
    match e {
        Error::Internal(s) => s,
        _ => panic!("expected an internal error"),
    }
}

#[test]
fn shutdown_tears_down_every_session_and_signals_once() {
    let mut l = PollLoop::new(vec![3, 4, 5], 100, 8);
    assert_eq!(l.current(), Step::ReadClock);
    assert_eq!(l.next(Event::Clock(0)), Step::PollEngine);
    assert_eq!(l.next(Event::Done), Step::TryRecv);
    assert_eq!(l.next(Event::Item), Step::TryRecv);
    assert_eq!(l.next(Event::Closed), Step::DestroySession(3));
    assert_eq!(l.next(Event::Done), Step::DestroySession(4));
    assert_eq!(l.next(Event::Done), Step::DestroySession(5));
    assert_eq!(l.next(Event::Done), Step::SignalShutdown);
    assert_eq!(l.next(Event::Done), Step::Halt);
    assert!(l.is_halted());
    assert_eq!(l.next(Event::Closed), Step::Halt);
    assert_eq!(l.next(Event::Done), Step::Halt);
}

#[test]
fn shutdown_without_sessions_signals_at_once() {
    let mut l = PollLoop::new(Vec::new(), 100, 8);
    l.next(Event::Clock(0));
    l.next(Event::Done);
    assert_eq!(l.next(Event::Closed), Step::SignalShutdown);
    assert_eq!(l.next(Event::Done), Step::Halt);
}

#[test]
fn burst_is_bounded_and_budget_ends_window() {
    let mut l = PollLoop::new(vec![1], 10, 2);
    l.next(Event::Clock(100));
    l.next(Event::Done);
    assert_eq!(l.next(Event::Item), Step::TryRecv);
    assert_eq!(l.next(Event::Item), Step::ReadClock);
    assert_eq!(l.next(Event::Clock(105)), Step::PollEngine);
    assert_eq!(l.next(Event::Done), Step::TryRecv);
    assert_eq!(l.next(Event::Empty), Step::ReadClock);
    assert_eq!(l.next(Event::Clock(111)), Step::Bookkeeping);
    assert_eq!(l.next(Event::Done), Step::ReadClock);
    assert_eq!(l.next(Event::Clock(200)), Step::PollEngine);
}

#[test]
fn unexpected_event_repeats_the_step() {
    let mut l = PollLoop::new(vec![1], 10, 2);
    assert_eq!(l.next(Event::Done), Step::ReadClock);
    assert_eq!(l.next(Event::Clock(1)), Step::PollEngine);
    assert_eq!(l.next(Event::Item), Step::PollEngine);
}

#[test]
fn connector_brings_up_sessions_in_order() {
    let b = ChannelBuilder::new(0).subchan_count(2).timeout_ms(5);
    assert_eq!(b.get_subchan_count(), 2);
    assert_eq!(b.get_timeout_ms(), 5);
    let mut rpc = Rpc::new(1, 0);
    let mut c = b.connector();
    assert_eq!(c.current(), ConnectStep::CreateSession);
    assert_eq!(c.next(&mut rpc, ConnectEvent::Created(7)).ok(), Some(ConnectStep::PollEngine(7)));
    assert!(!rpc.is_connected(7));
    assert_eq!(c.next(&mut rpc, ConnectEvent::Polled(false)).ok(), Some(ConnectStep::PollEngine(7)));
    assert_eq!(c.next(&mut rpc, ConnectEvent::Polled(true)).ok(), Some(ConnectStep::CreateSession));
    assert!(rpc.is_connected(7));
    assert_eq!(c.next(&mut rpc, ConnectEvent::Created(8)).ok(), Some(ConnectStep::PollEngine(8)));
    assert_eq!(c.next(&mut rpc, ConnectEvent::Polled(true)).ok(), Some(ConnectStep::Ready));
    let mut ch = c.into_channel();
    assert_eq!(ch.session_ids(), &vec![7, 8]);
    assert_eq!(Client::new(&mut ch).unwrap().chan.id, 7);
    assert_eq!(Client::new(&mut ch).unwrap().chan.id, 8);
    assert!(Client::new(&mut ch).is_none());
}

#[test]
fn connector_stops_on_failed_creation() {
    let mut rpc = Rpc::new(1, 0);
    let mut c = ChannelBuilder::new(0).connector();
    let e = c.next(&mut rpc, ConnectEvent::Created(-ENOMEM)).err().unwrap();
    assert_eq!(internal_text(e), "ring buffers exhausted");
}

#[test]
fn create_session_errors() {
    let mut rpc = Rpc::new(3, 1);
    assert_eq!(rpc.get_rpc_id(), 3);
    assert_eq!(rpc.get_phy_port(), 1);
    assert_eq!(rpc.create_session(2).ok(), Some(2));
    assert!(internal_text(rpc.create_session(-EPERM).err().unwrap()).starts_with("can't create session"));
    assert_eq!(
        internal_text(rpc.create_session(-EINVAL).err().unwrap()),
        "invalid remote hostname or remote Rpc is same as local"
    );
    assert_eq!(internal_text(rpc.create_session(-99).err().unwrap()), "session creation failed");
}

#[test]
fn destroy_session_results() {
    let mut rpc = Rpc::new(0, 0);
    rpc.create_session(4).ok().unwrap();
    rpc.set_connected(4);
    assert!(rpc.is_connected(4));
    assert_eq!(
        internal_text(rpc.destroy_session(4, -EBUSY).err().unwrap()),
        "session has pending RPC requests."
    );
    assert_eq!(
        internal_text(rpc.destroy_session(4, -EALREADY).err().unwrap()),
        "session disconnection in progress."
    );
    assert!(rpc.is_connected(4));
    assert!(rpc.destroy_session(4, 0).is_ok());
    assert!(!rpc.is_connected(4));
}

#[test]
fn register_req_func_results() {
    let mut n = Nexus::new("127.0.0.1:31850", 0);
    assert_eq!(n.local_uri(), "127.0.0.1:31850");
    assert!(n.register_req_func(1, 0).is_ok());
    assert_eq!(
        internal_text(n.register_req_func(1, -EEXIST).err().unwrap()),
        "handler for 1 already exists"
    );
    assert_eq!(internal_text(n.register_req_func(2, -EPERM).err().unwrap()), "registration not permitted");
}

#[test]
fn allocated_buffers_have_the_size_asked_for() {
    let mut rpc = Rpc::new(0, 0);
    let b = rpc.alloc_msg_buffer(64);
    assert_eq!(b.get_data_size(), 64);
    assert_eq!(b.get_max_data_size(), 64);
    assert!(b.get_inner_buf().iter().all(|x| *x == 0));
    let c = rpc.alloc_msg_buffer_or_die(8);
    assert_eq!((c.get_data_size(), c.get_max_data_size()), (8, 8));
}

#[test]
fn duplicate_registration_names_the_request_type() {
    let mut n = Nexus::new("h:1", 0);
    assert_eq!(
        internal_text(n.register_req_func(200, -EEXIST).err().unwrap()),
        "handler for 200 already exists"
    );
    assert_eq!(internal_text(n.register_req_func(2, -EINVAL).err().unwrap()), "invalid handler");
}

#[test]
fn teardown_moves_on_whatever_it_is_told() {
    let mut l = PollLoop::new(vec![3, 4], 100, 8);
    l.next(Event::Clock(0));
    l.next(Event::Done);
    assert_eq!(l.next(Event::Closed), Step::DestroySession(3));
    assert_eq!(l.next(Event::Item), Step::DestroySession(4));
    assert_eq!(l.next(Event::Closed), Step::SignalShutdown);
    assert_eq!(l.next(Event::Closed), Step::Halt);
    assert_eq!(l.next(Event::Done), Step::Halt);
}

#[test]
fn server_lists_the_methods_to_register() {
    let s = ServiceBuilder::new().add_unary_handler(9, Handler::new(1)).add_unary_handler(2, Handler::new(2)).build();
    let b = ServerBuilder::new(0, 10).register_service(s);
    assert_eq!(b.method_ids(), vec![2, 9]);
    let ctx = b.build();
    assert_eq!(ctx.method_ids(), vec![2, 9]);
    let empty: ServerBuilder<Handler<u8>> = ServerBuilder::new(0, 10);
    assert!(empty.method_ids().is_empty());
}

#[test]
fn environment_assigns_threads_round_robin() {
    let b = EnvBuilder::new("host:1").chan_count(3).name_prefix("erpc-poll");
    assert_eq!(b.get_chan_count(), 3);
    assert_eq!(b.get_local_uri(), "host:1");
    assert_eq!(b.get_name_prefix(), Some("erpc-poll"));
    let mut env = b.build();
    let picks: Vec<usize> = (0..7).map(|_| env.pick_channel_env()).collect();
    assert_eq!(picks, vec![0, 1, 2, 0, 1, 2, 0]);
    let mut one = Environment::new(1);
    assert_eq!(one.pick_channel_env(), 0);
    assert_eq!(one.pick_channel_env(), 0);
}

#[test]
fn environment_defaults_to_available_cpus() {
    let b = EnvBuilder::new("host:1");
    assert!(b.get_chan_count() >= 1);
    assert_eq!(b.get_name_prefix(), None);
}

#[test]
fn later_service_takes_shared_methods() {
    let s1 = ServiceBuilder::new().add_unary_handler(1, Handler::new("a")).add_unary_handler(2, Handler::new("b")).build();
    let s2 = ServiceBuilder::new().add_unary_handler(2, Handler::new("c")).build();
    let ctx = ServerBuilder::new(0, 10).register_service(s1).register_service(s2).build();
    assert_eq!(ctx.get_handler(1).unwrap().cb, "a");
    assert_eq!(ctx.get_handler(2).unwrap().cb, "c");
    assert!(ctx.get_handler(3).is_none());
}

#[test]
fn thread_names_carry_prefix_and_index() {
    let b = EnvBuilder::new("host:1").name_prefix("erpc-poll");
    assert_eq!(b.thread_name(0).unwrap(), "erpc-poll-0");
    assert_eq!(b.thread_name(7).unwrap(), "erpc-poll-7");
    assert_eq!(b.thread_name(120).unwrap(), "erpc-poll-120");
    assert!(EnvBuilder::new("host:1").thread_name(3).is_none());
}
