use vstd::prelude::*;
use std::collections::HashMap;
use crate::buf::MsgBufferReader;
use crate::call::{with_pending, without_pending, Tag};
use crate::msg_buffer::MsgBuffer;

verus! {

broadcast use vstd::std_specs::hash::group_hash_axioms;

/// One table of slots for each request type.
pub const MAX_REQ_TYPE: usize = 256;

/// The number of slots of one request type.
pub const SLOTS: u32 = 65536;

/// How many slots after `cur` the slot `x` comes, counting from zero and
/// wrapping round after the last slot; `cur` itself comes last.
pub open spec fn slot_distance(cur: u16, x: u16) -> int {
    if x > cur {
        x - cur - 1
    } else {
        x + 65536 - cur - 1
    }
}

/// Whether `t` is the first slot after `cur`, wrapping round, that `held`
/// does not hold.
pub open spec fn first_free_after<W>(held: Map<u16, W>, cur: u16, t: u16) -> bool {
    &&& !held.contains_key(t)
    &&& forall|x: u16| #[trigger]
        slot_distance(cur, x) < slot_distance(cur, t) ==> held.contains_key(x)
}

/// The client side of an engine thread: for each request type, the callers
/// waiting for a response, by slot, and the slot given out last.
pub struct ClientRpcContext<W> {
    pending: Vec<HashMap<u16, W>>,
    last_idx: Vec<u16>,
}

impl<W> ClientRpcContext<W> {
    /// For each request type, the waiting callers by slot.
    pub closed spec fn pending(&self) -> Seq<Map<u16, W>> {
        self.pending@.map_values(|h: HashMap<u16, W>| h@)
    }

    /// For each request type, the slot given out last.
    pub closed spec fn last_slots(&self) -> Seq<u16> {
        self.last_idx@
    }

    /// One table and one last slot for each request type.
    pub open spec fn wf(&self) -> bool {
        &&& self.pending().len() == MAX_REQ_TYPE
        &&& self.last_slots().len() == MAX_REQ_TYPE
    }

    /// Whether `new` is `self` with `w` waiting in slot `t` of request type
    /// `m`, the first free slot after the one given out last, which is now `t`.
    pub open spec fn takes_slot(&self, new: &Self, m: u8, w: W, t: u16) -> bool {
        &&& first_free_after(self.pending()[m as int], self.last_slots()[m as int], t)
        &&& new.pending() == with_pending(self.pending(), m, t, w)
        &&& new.last_slots() == self.last_slots().update(m as int, t)
    }

    /// Whether every slot of request type `m` is held.
    pub open spec fn all_held(&self, m: u8) -> bool {
        forall|x: u16| #[trigger] self.pending()[m as int].contains_key(x)
    }

    /// Whether a caller waits for the response that `t` names.
    pub open spec fn outstanding(&self, t: Tag) -> bool {
        self.pending()[t.req_type as int].contains_key(t.idx)
    }

    /// A context with no caller waiting.
    pub fn new() -> (r: Self)
        ensures
            r.wf(),
            r.pending().len() == MAX_REQ_TYPE,
            forall|m: int| 0 <= m < MAX_REQ_TYPE ==> #[trigger] r.pending()[m] == Map::<
                u16,
                W,
            >::empty(),
            forall|m: int| 0 <= m < MAX_REQ_TYPE ==> #[trigger] r.last_slots()[m] == 0,
    {
        let mut pending: Vec<HashMap<u16, W>> = Vec::new();
        let mut last_idx: Vec<u16> = Vec::new();
        let mut i: usize = 0;
        while i < MAX_REQ_TYPE
            invariant
                i <= MAX_REQ_TYPE,
                pending@.len() == i,
                last_idx@.len() == i,
                forall|m: int| 0 <= m < i ==> (#[trigger] pending@[m])@ == Map::<u16, W>::empty(),
                forall|m: int| 0 <= m < i ==> #[trigger] last_idx@[m] == 0,
            decreases MAX_REQ_TYPE - i,
        {
            pending.push(HashMap::new());
            last_idx.push(0);
            i = i + 1;
        }
        ClientRpcContext { pending, last_idx }
    }

    /// Takes a slot of request type `req_type` for the caller waiting on
    /// `w`: the first slot after the one given out last, wrapping round, whose
    /// earlier caller no longer waits. A held slot is never given out again.
    /// Only when every slot of the type is held is the request refused, and
    /// `w` handed back.
    pub fn register(&mut self, req_type: u8, w: W) -> (r: Result<Tag, W>)
        requires
            old(self).wf(),
        ensures
            final(self).wf(),
            old(self).pending()[req_type as int].len() < SLOTS ==> r is Ok,
            r is Err ==> r == Err::<Tag, W>(w) && *final(self) == *old(self) && old(self).all_held(
                req_type,
            ),
            r is Ok ==> r->Ok_0.req_type == req_type && old(self).takes_slot(
                &*final(self),
                req_type,
                w,
                r->Ok_0.idx,
            ),
    {
        let m = req_type as usize;
        let cur = self.last_idx[m];
        let mut s: u16 = if cur == u16::MAX {
            0
        } else {
            cur + 1
        };
        let mut k: u32 = 0;
        let ghost held = old(self).pending()[m as int];
        let ghost mut checked = Set::<u16>::empty();
        while k < SLOTS
            invariant
                *self == *old(self),
                self.wf(),
                m == req_type as usize,
                m < MAX_REQ_TYPE,
                cur == self.last_slots()[m as int],
                held == self.pending@[m as int]@,
                k <= SLOTS,
                k < SLOTS ==> slot_distance(cur, s) == k,
                forall|x: u16| #[trigger] slot_distance(cur, x) < k ==> held.contains_key(x),
                checked.finite(),
                checked.len() == k,
                forall|x: u16| #[trigger]
                    checked.contains(x) ==> held.contains_key(x) && slot_distance(cur, x) < k,
            decreases SLOTS - k,
        {
            if !self.pending[m].contains_key(&s) {
                self.pending[m].insert(s, w);
                self.last_idx.set(m, s);
                proof {
                    assert(self.pending() =~= with_pending(old(self).pending(), req_type, s, w));
                }
                return Ok(Tag { req_type, idx: s });
            }
            proof {
                checked = checked.insert(s);
            }
            k = k + 1;
            s = if s == u16::MAX {
                0
            } else {
                s + 1
            };
        }
        proof {
            vstd::set_lib::lemma_len_subset(checked, held.dom());
            assert(forall|x: u16| #[trigger] held.contains_key(x) <== slot_distance(cur, x) < k);
        }
        Err(w)
    }

    /// Frees the slot that `tag` names and gives the caller waiting in it,
    /// with a reader over `resp`, the response the engine completed. A tag
    /// that names no waiting caller gives nothing and changes nothing.
    pub fn complete(&mut self, tag: Tag, resp: &MsgBuffer) -> (r: Option<(W, MsgBufferReader)>)
        requires
            old(self).wf(),
        ensures
            final(self).wf(),
            final(self).last_slots() == old(self).last_slots(),
            !old(self).outstanding(tag) ==> r is None && *final(self) == *old(self),
            old(self).outstanding(tag) ==> {
                &&& r is Some
                &&& r->Some_0.0 == old(self).pending()[tag.req_type as int][tag.idx]
                &&& r->Some_0.1@ == resp@
                &&& final(self).pending() == without_pending(
                    old(self).pending(),
                    tag.req_type,
                    tag.idx,
                )
            },
    {
        let m = tag.req_type as usize;
        if !self.pending[m].contains_key(&tag.idx) {
            return None;
        }
        match self.pending[m].remove(&tag.idx) {
            Some(w) => {
                proof {
                    assert(self.pending() =~= without_pending(
                        old(self).pending(),
                        tag.req_type,
                        tag.idx,
                    ));
                }
                Some((w, MsgBufferReader::new(resp)))
            },
            None => None,
        }
    }
}

/// Registering a caller in a free slot and completing that slot hands the
/// response to that caller and to no other: the caller is found in its own
/// slot, every other waiting caller stays in its slot, and completing the
/// slot leaves the table as it was before the registration.
pub proof fn lemma_no_cross_wiring<W>(p: Seq<Map<u16, W>>, m: u8, t: u16, w: W)
    requires
        p.len() == MAX_REQ_TYPE,
        !p[m as int].contains_key(t),
    ensures
        with_pending(p, m, t, w)[m as int][t] == w,
        forall|m2: u8, t2: u16|
            (m2 != m || t2 != t) && #[trigger] p[m2 as int].contains_key(t2) ==> with_pending(
                p,
                m,
                t,
                w,
            )[m2 as int].contains_key(t2) && with_pending(p, m, t, w)[m2 as int][t2]
                == p[m2 as int][t2],
        without_pending(with_pending(p, m, t, w), m, t) == p,
{
    assert(with_pending(p, m, t, w)[m as int].remove(t) =~= p[m as int]);
    assert(without_pending(with_pending(p, m, t, w), m, t) =~= p);
}

/// One change to a pending table: a caller taking a slot, or a slot completed.
pub enum TableOp<W> {
    Register(u8, u16, W),
    Complete(u8, u16),
}

/// The table after `op`. A caller only ever takes a free slot: registering
/// into a held slot changes nothing, as `register` never gives one out.
pub open spec fn apply_op<W>(p: Seq<Map<u16, W>>, op: TableOp<W>) -> Seq<Map<u16, W>> {
    match op {
        TableOp::Register(m, t, w) => if p[m as int].contains_key(t) {
            p
        } else {
            with_pending(p, m, t, w)
        },
        TableOp::Complete(m, t) => without_pending(p, m, t),
    }
}

/// The table after `ops`, in order.
pub open spec fn apply_ops<W>(p: Seq<Map<u16, W>>, ops: Seq<TableOp<W>>) -> Seq<Map<u16, W>>
    decreases ops.len(),
{
    if ops.len() == 0 {
        p
    } else {
        apply_op(apply_ops(p, ops.drop_last()), ops.last())
    }
}

/// However many calls are registered and completed, in whatever order the
/// engine completes them, a caller waiting in slot `t` of request type `m`
/// stays there until that slot is completed: completing it then gives that
/// caller, and no other.
pub proof fn lemma_caller_keeps_slot<W>(p: Seq<Map<u16, W>>, m: u8, t: u16, ops: Seq<TableOp<W>>)
    requires
        p.len() == MAX_REQ_TYPE,
        p[m as int].contains_key(t),
        forall|i: int| 0 <= i < ops.len() ==> ops[i] != TableOp::<W>::Complete(m, t),
    ensures
        apply_ops(p, ops).len() == MAX_REQ_TYPE,
        apply_ops(p, ops)[m as int].contains_key(t),
        apply_ops(p, ops)[m as int][t] == p[m as int][t],
    decreases ops.len(),
{
    if ops.len() > 0 {
        let init = ops.drop_last();
        assert forall|i: int| 0 <= i < init.len() implies init[i] != TableOp::<W>::Complete(m, t) by {
            assert(init[i] == ops[i]);
        }
        lemma_caller_keeps_slot(p, m, t, init);
        assert(ops.last() == ops[ops.len() - 1]);
    }
}

/// A logical connection: the sessions it opened, in order, and how many
/// lease attempts have been made on it.
pub struct Channel {
    subchans: Vec<i32>,
    assigned_idx: usize,
}

/// One leased session of a channel.
#[derive(Clone, Copy, Debug, PartialEq, Eq, Structural)]
pub struct SubChannel {
    pub id: i32,
}

/// The index leased by an attempt at cursor `c` of a channel with `n` sessions.
pub open spec fn leased_index(c: nat, n: nat) -> Option<nat> {
    if c < n {
        Some(c)
    } else {
        None
    }
}

impl Channel {
    /// The sessions, in order of creation.
    pub closed spec fn sessions(&self) -> Seq<i32> {
        self.subchans@
    }

    /// How many lease attempts have been made.
    pub closed spec fn cursor(&self) -> nat {
        self.assigned_idx as nat
    }

    /// A channel over the sessions `subchans`, none of them leased.
    pub fn new(subchans: Vec<i32>) -> (r: Channel)
        ensures
            r.sessions() == subchans@,
            r.cursor() == 0,
    {
        Channel { subchans, assigned_idx: 0 }
    }

    /// The sessions, in order of creation.
    pub fn session_ids(&self) -> (r: &Vec<i32>)
        ensures
            r@ == self.sessions(),
    {
        &self.subchans
    }

    /// How many lease attempts have been made.
    pub fn lease_attempts(&self) -> (r: usize)
        ensures
            r == self.cursor(),
    {
        self.assigned_idx
    }

    /// Counts a lease attempt and leases the session at the count before it,
    /// if there is one; once every session has been leased, no more leases
    /// are given.
    pub fn pick_subchan(&mut self) -> (r: Option<SubChannel>)
        requires
            old(self).cursor() < usize::MAX,
        ensures
            final(self).sessions() == old(self).sessions(),
            final(self).cursor() == old(self).cursor() + 1,
            leased_index(old(self).cursor(), old(self).sessions().len()) is None ==> r is None,
            leased_index(old(self).cursor(), old(self).sessions().len()) is Some ==> r == Some(
                SubChannel {
                    id: old(self).sessions()[leased_index(
                        old(self).cursor(),
                        old(self).sessions().len(),
                    )->Some_0 as int],
                },
            ),
    {
        let idx = self.assigned_idx;
        self.assigned_idx = idx + 1;
        if idx < self.subchans.len() {
            return Some(SubChannel { id: self.subchans[idx] });
        }
        None
    }
}

/// A fresh channel with `m` sessions is at cursor `k` for its `k`-th lease
/// attempt, counting from zero. The first `m` attempts lease the sessions
/// in order, so no two leases share an index and every index is below `m`;
/// every later attempt leases nothing.
pub proof fn lemma_leases(m: nat, i: nat, j: nat)
    ensures
        i < m ==> leased_index(i, m) == Some(i),
        i >= m ==> leased_index(i, m) is None,
        i != j && leased_index(i, m) is Some && leased_index(j, m) is Some ==> leased_index(i, m)
            != leased_index(j, m),
        leased_index(i, m) is Some ==> leased_index(i, m)->Some_0 < m,
{
}

} // verus!
