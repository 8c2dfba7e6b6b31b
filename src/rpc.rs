use vstd::prelude::*;
use std::collections::HashMap;
use crate::error::{Error, EALREADY, EBUSY, EINVAL, ENOMEM, EPERM, EEXIST};
use crate::msg_buffer::MsgBuffer;
use crate::util::{decimal, decimal_string};

verus! {

broadcast use vstd::std_specs::hash::group_hash_axioms;

/// What a failed session creation reports, by the engine's return code.
pub open spec fn create_session_text(rc: i32) -> Seq<char> {
    if rc == -EPERM {
        "can't create session from a thread other than the one that created this Rpc object"@
    } else if rc == -EINVAL {
        "invalid remote hostname or remote Rpc is same as local"@
    } else if rc == -ENOMEM {
        "ring buffers exhausted"@
    } else {
        "session creation failed"@
    }
}

/// What a failed session teardown reports, by the engine's return code.
pub open spec fn destroy_session_text(rc: i32) -> Seq<char> {
    if rc == -EPERM {
        "can't destroy session from a thread other than the one that created this Rpc object or session already destroyed or session connection in progress."@
    } else if rc == -EINVAL {
        "invalid session number or it's a server session."@
    } else if rc == -EBUSY {
        "session has pending RPC requests."@
    } else if rc == -EALREADY {
        "session disconnection in progress."@
    } else {
        "session teardown failed"@
    }
}

/// What a failed handler registration reports, by the engine's return code.
pub open spec fn register_text(rc: i32, req_type: u8) -> Seq<char> {
    if rc == -EPERM {
        "registration not permitted"@
    } else if rc == -EEXIST {
        "handler for "@ + decimal(req_type as nat) + " already exists"@
    } else if rc == -EINVAL {
        "invalid handler"@
    } else {
        "registration failed"@
    }
}

/// This library's record of one engine instance: its identity and the
/// sessions it has opened, each with whether it is connected yet.
/// The engine itself is driven by the thread that owns it; the return
/// codes of its operations are handed to the methods below.
pub struct Rpc {
    rpc_id: u8,
    phy_port: u8,
    sessions: HashMap<i32, bool>,
}

impl Rpc {
    /// The open sessions, each mapped to whether it is connected.
    pub closed spec fn sessions(&self) -> Map<i32, bool> {
        self.sessions@
    }

    pub closed spec fn id(&self) -> u8 {
        self.rpc_id
    }

    pub closed spec fn port(&self) -> u8 {
        self.phy_port
    }

    /// A record of an engine instance with no session yet.
    pub fn new(rpc_id: u8, phy_port: u8) -> (r: Rpc)
        ensures
            r.id() == rpc_id,
            r.port() == phy_port,
            r.sessions() == Map::<i32, bool>::empty(),
    {
        Rpc { rpc_id, phy_port, sessions: HashMap::new() }
    }

    /// The engine instance's id.
    pub fn get_rpc_id(&self) -> (r: u8)
        ensures
            r == self.id(),
    {
        self.rpc_id
    }

    /// The physical port the engine instance uses.
    pub fn get_phy_port(&self) -> (r: u8)
        ensures
            r == self.port(),
    {
        self.phy_port
    }

    /// Takes the engine's answer to a session-creation request: a session
    /// number, or a negated error number. A new session starts unconnected.
    pub fn create_session(&mut self, rc: i32) -> (r: Result<i32, Error>)
        ensures
            final(self).id() == old(self).id(),
            final(self).port() == old(self).port(),
            rc >= 0 ==> r == Ok::<i32, Error>(rc) && final(self).sessions() == old(
                self,
            ).sessions().insert(rc, false),
            rc < 0 ==> r is Err && r->Err_0.is_internal() && r->Err_0.text() == create_session_text(
                rc,
            ) && final(self).sessions() == old(self).sessions(),
    {
        if rc >= 0 {
            self.sessions.insert(rc, false);
            return Ok(rc);
        }
        let msg = if rc == -EPERM {
            String::from_str(
                "can't create session from a thread other than the one that created this Rpc object",
            )
        } else if rc == -EINVAL {
            String::from_str("invalid remote hostname or remote Rpc is same as local")
        } else if rc == -ENOMEM {
            String::from_str("ring buffers exhausted")
        } else {
            String::from_str("session creation failed")
        };
        Err(Error::Internal(msg))
    }

    /// Records that the engine reports session `sid` connected.
    pub fn set_connected(&mut self, sid: i32)
        ensures
            final(self).id() == old(self).id(),
            final(self).port() == old(self).port(),
            old(self).sessions().contains_key(sid) ==> final(self).sessions() == old(
                self,
            ).sessions().insert(sid, true),
            !old(self).sessions().contains_key(sid) ==> final(self).sessions() == old(
                self,
            ).sessions(),
    {
        if self.sessions.contains_key(&sid) {
            self.sessions.insert(sid, true);
        }
    }

    /// Whether session `sid` is open and connected.
    pub fn is_connected(&self, sid: i32) -> (r: bool)
        ensures
            r == (self.sessions().contains_key(sid) && self.sessions()[sid]),
    {
        match self.sessions.get(&sid) {
            Some(c) => *c,
            None => false,
        }
    }

    /// Takes the engine's answer to tearing down session `sid`: zero, or a
    /// negated error number. A session torn down is no longer open.
    pub fn destroy_session(&mut self, sid: i32, rc: i32) -> (r: Result<(), Error>)
        ensures
            final(self).id() == old(self).id(),
            final(self).port() == old(self).port(),
            rc == 0 ==> r is Ok && final(self).sessions() == old(self).sessions().remove(sid),
            rc != 0 ==> r is Err && r->Err_0.is_internal() && r->Err_0.text()
                == destroy_session_text(rc) && final(self).sessions() == old(self).sessions(),
    {
        if rc == 0 {
            self.sessions.remove(&sid);
            return Ok(());
        }
        let msg = if rc == -EPERM {
            String::from_str(
                "can't destroy session from a thread other than the one that created this Rpc object or session already destroyed or session connection in progress.",
            )
        } else if rc == -EINVAL {
            String::from_str("invalid session number or it's a server session.")
        } else if rc == -EBUSY {
            String::from_str("session has pending RPC requests.")
        } else if rc == -EALREADY {
            String::from_str("session disconnection in progress.")
        } else {
            String::from_str("session teardown failed")
        };
        Err(Error::Internal(msg))
    }

    /// A new buffer of `max_data_size` bytes, all zero.
    pub fn alloc_msg_buffer(&mut self, max_data_size: usize) -> (r: MsgBuffer)
        ensures
            r@ == Seq::new(max_data_size as nat, |i: int| 0u8),
            r.capacity() == max_data_size,
            *final(self) == *old(self),
    {
        MsgBuffer::zeroed(max_data_size)
    }

    /// A new buffer of `max_data_size` bytes, all zero.
    pub fn alloc_msg_buffer_or_die(&mut self, max_data_size: usize) -> (r: MsgBuffer)
        ensures
            r@ == Seq::new(max_data_size as nat, |i: int| 0u8),
            r.capacity() == max_data_size,
            *final(self) == *old(self),
    {
        self.alloc_msg_buffer(max_data_size)
    }
}

/// This library's record of a process's engine endpoint: its address and
/// the request types that have a handler.
pub struct Nexus {
    local_uri: String,
    numa_node: usize,
    req_types: Vec<u8>,
}

impl Nexus {
    pub closed spec fn uri(&self) -> Seq<char> {
        self.local_uri@
    }

    pub closed spec fn numa(&self) -> usize {
        self.numa_node
    }

    /// The request types registered so far, in order of registration.
    pub closed spec fn registered(&self) -> Seq<u8> {
        self.req_types@
    }

    /// An endpoint at `local_uri` ("hostname:udp_port") with no handler yet.
    pub fn new(local_uri: &str, numa_node: usize) -> (r: Nexus)
        ensures
            r.uri() == local_uri@,
            r.numa() == numa_node,
            r.registered() == Seq::<u8>::empty(),
    {
        Nexus { local_uri: String::from_str(local_uri), numa_node, req_types: Vec::new() }
    }

    /// The endpoint's address.
    pub fn local_uri(&self) -> (r: &str)
        ensures
            r@ == self.uri(),
    {
        self.local_uri.as_str()
    }

    /// Takes the engine's answer to registering a handler for `req_type`:
    /// zero, or a negated error number.
    pub fn register_req_func(&mut self, req_type: u8, rc: i32) -> (r: Result<(), Error>)
        ensures
            final(self).uri() == old(self).uri(),
            final(self).numa() == old(self).numa(),
            rc == 0 ==> r is Ok && final(self).registered() == old(self).registered().push(
                req_type,
            ),
            rc != 0 ==> r is Err && r->Err_0.is_internal() && r->Err_0.text() == register_text(
                rc,
                req_type,
            ) && final(self).registered() == old(self).registered(),
    {
        if rc == 0 {
            self.req_types.push(req_type);
            return Ok(());
        }
        let msg = if rc == -EPERM {
            String::from_str("registration not permitted")
        } else if rc == -EEXIST {
            let mut s = String::from_str("handler for ");
            let n = decimal_string(req_type as usize);
            s.append(n.as_str());
            s.append(" already exists");
            s
        } else if rc == -EINVAL {
            String::from_str("invalid handler")
        } else {
            String::from_str("registration failed")
        };
        Err(Error::Internal(msg))
    }
}

} // verus!
