use vstd::prelude::*;
use crate::channel::MAX_REQ_TYPE;

verus! {

/// A request handler: the callback that serves one method.
#[derive(Clone, Debug)]
pub struct Handler<F> {
    pub cb: F,
}

impl<F> Handler<F> {
    pub fn new(cb: F) -> (r: Handler<F>)
        ensures
            r.cb == cb,
    {
        Handler { cb }
    }
}

/// The method ids below `n` that have a handler in `h`, in increasing order.
pub open spec fn ids_below<H>(h: Seq<Option<H>>, n: nat) -> Seq<u8>
    decreases n,
{
    if n == 0 {
        Seq::empty()
    } else {
        let p = ids_below(h, (n - 1) as nat);
        if h[n - 1] is Some {
            p.push((n - 1) as u8)
        } else {
            p
        }
    }
}

/// Whether `ids` lists, in increasing order and each once, exactly the
/// method ids that have a handler in `h`.
pub open spec fn lists_handled<H>(h: Seq<Option<H>>, ids: Seq<u8>) -> bool {
    &&& forall|k: u8| ids.contains(k) <==> #[trigger] h[k as int] is Some
    &&& forall|a: int, b: int| 0 <= a < b < ids.len() ==> ids[a] < ids[b]
}

/// Handlers by method id: one slot for each id.
pub struct Registry<H> {
    slots: Vec<Option<H>>,
}

impl<H> Registry<H> {
    /// The handler of each method id, where one is registered.
    pub closed spec fn handlers(&self) -> Seq<Option<H>> {
        self.slots@
    }

    /// One slot for each method id.
    pub open spec fn wf(&self) -> bool {
        self.handlers().len() == MAX_REQ_TYPE
    }

    /// A registry with no handler.
    pub fn new() -> (r: Self)
        ensures
            r.wf(),
            forall|i: int| 0 <= i < MAX_REQ_TYPE ==> #[trigger] r.handlers()[i] is None,
    {
        let mut slots: Vec<Option<H>> = Vec::new();
        let mut i: usize = 0;
        while i < MAX_REQ_TYPE
            invariant
                i <= MAX_REQ_TYPE,
                slots@.len() == i,
                forall|j: int| 0 <= j < i ==> #[trigger] slots@[j] is None,
            decreases MAX_REQ_TYPE - i,
        {
            slots.push(None);
            i = i + 1;
        }
        Registry { slots }
    }

    /// Registers `h` for method `id`, in place of any handler it had.
    pub fn insert(&mut self, id: u8, h: H)
        requires
            old(self).wf(),
        ensures
            final(self).wf(),
            final(self).handlers() == old(self).handlers().update(id as int, Some(h)),
    {
        self.slots.set(id as usize, Some(h));
    }

    /// The handler of method `id`.
    pub fn get(&self, id: u8) -> (r: Option<&H>)
        requires
            self.wf(),
        ensures
            self.handlers()[id as int] is None ==> r is None,
            self.handlers()[id as int] is Some ==> r is Some && *r->Some_0
                == self.handlers()[id as int]->Some_0,
    {
        match &self.slots[id as usize] {
            Some(h) => Some(h),
            None => None,
        }
    }

    /// The method ids that have a handler, in increasing order.
    pub fn ids(&self) -> (r: Vec<u8>)
        requires
            self.wf(),
        ensures
            r@ == ids_below(self.handlers(), MAX_REQ_TYPE as nat),
            lists_handled(self.handlers(), r@),
    {
        let mut out: Vec<u8> = Vec::new();
        let mut i: usize = 0;
        while i < MAX_REQ_TYPE
            invariant
                self.wf(),
                i <= MAX_REQ_TYPE,
                out@ == ids_below(self.handlers(), i as nat),
                forall|k: u8| (k as int) < i ==> (out@.contains(k) <==> #[trigger] self.handlers()[k as int] is Some),
                forall|k: int| 0 <= k < out@.len() ==> (out@[k] as int) < i,
                forall|a: int, b: int| 0 <= a < b < out@.len() ==> out@[a] < out@[b],
            decreases MAX_REQ_TYPE - i,
        {
            if self.slots[i].is_some() {
                let ghost before = out@;
                out.push(i as u8);
                proof {
                    assert forall|k: u8| (k as int) < i + 1 implies (out@.contains(k) <==> #[trigger] self.handlers()[k as int] is Some) by {
                        if k as int == i {
                            assert(out@[out@.len() - 1] == k);
                        } else {
                            if before.contains(k) {
                                let j = choose|j: int| 0 <= j < before.len() && before[j] == k;
                                assert(out@[j] == k);
                            }
                            if out@.contains(k) {
                                let j = choose|j: int| 0 <= j < out@.len() && out@[j] == k;
                                assert(j < before.len());
                                assert(before[j] == k);
                            }
                        }
                    }
                }
            } else {
                proof {
                    assert forall|k: u8| (k as int) < i + 1 implies (out@.contains(k) <==> #[trigger] self.handlers()[k as int] is Some) by {
                        if k as int == i {
                            if out@.contains(k) {
                                let j = choose|j: int| 0 <= j < out@.len() && out@[j] == k;
                            }
                        }
                    }
                }
            }
            i = i + 1;
        }
        out
    }

    /// Moves every handler of `other` into this registry; where both have
    /// one for a method, the one of `other` stays.
    pub fn extend(&mut self, other: Registry<H>)
        requires
            old(self).wf(),
            other.wf(),
        ensures
            final(self).wf(),
            forall|i: int|
                0 <= i < MAX_REQ_TYPE ==> #[trigger] final(self).handlers()[i] == if other.handlers()[i] is Some {
                    other.handlers()[i]
                } else {
                    old(self).handlers()[i]
                },
    {
        let mut other = other;
        let ghost theirs = other.slots@;
        let mut i: usize = 0;
        while i < MAX_REQ_TYPE
            invariant
                i <= MAX_REQ_TYPE,
                self.slots@.len() == MAX_REQ_TYPE,
                other.slots@.len() == MAX_REQ_TYPE,
                theirs.len() == MAX_REQ_TYPE,
                forall|j: int| i <= j < MAX_REQ_TYPE ==> #[trigger] other.slots@[j] == theirs[j],
                forall|j: int|
                    0 <= j < i ==> #[trigger] self.slots@[j] == if theirs[j] is Some {
                        theirs[j]
                    } else {
                        old(self).slots@[j]
                    },
                forall|j: int| i <= j < MAX_REQ_TYPE ==> #[trigger] self.slots@[j] == old(self).slots@[j],
            decreases MAX_REQ_TYPE - i,
        {
            let h = other.slots[i].take();
            match h {
                Some(h) => {
                    self.slots.set(i, Some(h));
                },
                None => {},
            }
            i = i + 1;
        }
    }
}

/// Builds a service: the handlers of its methods, by method id.
pub struct ServiceBuilder<H> {
    handlers: Registry<H>,
}

/// A service: the handlers of its methods, by method id.
pub struct Service<H> {
    handlers: Registry<H>,
}

impl<H> Service<H> {
    pub closed spec fn handlers(&self) -> Seq<Option<H>> {
        self.handlers.handlers()
    }

    /// One slot for each method id.
    pub open spec fn wf(&self) -> bool {
        self.handlers().len() == MAX_REQ_TYPE
    }
}

impl<H> ServiceBuilder<H> {
    pub closed spec fn handlers(&self) -> Seq<Option<H>> {
        self.handlers.handlers()
    }

    /// One slot for each method id.
    pub open spec fn wf(&self) -> bool {
        self.handlers().len() == MAX_REQ_TYPE
    }

    /// A service with no method yet.
    pub fn new() -> (r: Self)
        ensures
            r.wf(),
            forall|i: int| 0 <= i < MAX_REQ_TYPE ==> #[trigger] r.handlers()[i] is None,
    {
        ServiceBuilder { handlers: Registry::new() }
    }

    /// Adds the handler of the unary method `id`, in place of any it had.
    pub fn add_unary_handler(self, id: u8, handler: H) -> (r: Self)
        requires
            self.wf(),
        ensures
            r.wf(),
            r.handlers() == self.handlers().update(id as int, Some(handler)),
    {
        let mut b = self;
        b.handlers.insert(id, handler);
        b
    }

    /// The service with the handlers added so far.
    pub fn build(self) -> (r: Service<H>)
        requires
            self.wf(),
        ensures
            r.wf(),
            r.handlers() == self.handlers(),
    {
        Service { handlers: self.handlers }
    }
}

/// Builds a server: its port, the time budget of its poll loop, and the
/// handlers of the services registered with it.
pub struct ServerBuilder<H> {
    phy_port: u8,
    timeout_ms: usize,
    handlers: Registry<H>,
}

impl<H> ServerBuilder<H> {
    pub closed spec fn handlers(&self) -> Seq<Option<H>> {
        self.handlers.handlers()
    }

    /// One slot for each method id.
    pub open spec fn wf(&self) -> bool {
        self.handlers().len() == MAX_REQ_TYPE
    }

    pub closed spec fn port(&self) -> u8 {
        self.phy_port
    }

    pub closed spec fn timeout(&self) -> usize {
        self.timeout_ms
    }

    /// A server with no service yet.
    pub fn new(phy_port: u8, timeout_ms: usize) -> (r: Self)
        ensures
            r.wf(),
            r.port() == phy_port,
            r.timeout() == timeout_ms,
            forall|i: int| 0 <= i < MAX_REQ_TYPE ==> #[trigger] r.handlers()[i] is None,
    {
        ServerBuilder { phy_port, timeout_ms, handlers: Registry::new() }
    }

    /// Adds the methods of `service`; a method it shares with a service
    /// registered earlier takes its handler.
    pub fn register_service(self, service: Service<H>) -> (r: Self)
        requires
            self.wf(),
            service.wf(),
        ensures
            r.wf(),
            r.port() == self.port(),
            r.timeout() == self.timeout(),
            forall|i: int|
                0 <= i < MAX_REQ_TYPE ==> #[trigger] r.handlers()[i] == if service.handlers()[i] is Some {
                    service.handlers()[i]
                } else {
                    self.handlers()[i]
                },
    {
        let mut b = self;
        b.handlers.extend(service.handlers);
        b
    }

    /// The port the server listens on.
    pub fn get_phy_port(&self) -> (r: u8)
        ensures
            r == self.port(),
    {
        self.phy_port
    }

    /// The time budget of a window of the server's poll loop, in milliseconds.
    pub fn get_timeout_ms(&self) -> (r: usize)
        ensures
            r == self.timeout(),
    {
        self.timeout_ms
    }

    /// The method ids of the server, in increasing order: each is to be
    /// registered with the engine before the server starts.
    pub fn method_ids(&self) -> (r: Vec<u8>)
        requires
            self.wf(),
        ensures
            lists_handled(self.handlers(), r@),
    {
        self.handlers.ids()
    }

    /// The handler registry the server's engine thread dispatches with.
    pub fn build(self) -> (r: ServerRpcContext<H>)
        requires
            self.wf(),
        ensures
            r.wf(),
            r.handlers() == self.handlers(),
    {
        ServerRpcContext { registry: self.handlers }
    }
}

/// The server side of an engine thread: the handlers by method id, fixed
/// once the thread starts polling.
pub struct ServerRpcContext<H> {
    registry: Registry<H>,
}

impl<H> ServerRpcContext<H> {
    pub closed spec fn handlers(&self) -> Seq<Option<H>> {
        self.registry.handlers()
    }

    /// One slot for each method id.
    pub open spec fn wf(&self) -> bool {
        self.handlers().len() == MAX_REQ_TYPE
    }

    /// The method ids that have a handler, in increasing order.
    pub fn method_ids(&self) -> (r: Vec<u8>)
        requires
            self.wf(),
        ensures
            lists_handled(self.handlers(), r@),
    {
        self.registry.ids()
    }

    /// The handler of requests of type `req_type`.
    pub fn get_handler(&self, req_type: u8) -> (r: Option<&H>)
        requires
            self.wf(),
        ensures
            self.handlers()[req_type as int] is None ==> r is None,
            self.handlers()[req_type as int] is Some ==> r is Some && *r->Some_0
                == self.handlers()[req_type as int]->Some_0,
    {
        self.registry.get(req_type)
    }
}

} // verus!
