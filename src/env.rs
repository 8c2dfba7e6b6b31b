use vstd::prelude::*;
use crate::util::{decimal, decimal_string};

verus! {

/// Relies on `num_cpus::get`: the number of CPUs available to this
/// process, which its documentation promises is always at least one.
#[verifier::external_body]
fn available_cpus() -> (r: usize)
    ensures
        r >= 1,
{
    num_cpus::get()
}

/// Settings of a pool of engine threads.
pub struct EnvBuilder {
    local_uri: String,
    chan_count: usize,
    name_prefix: Option<String>,
}

impl EnvBuilder {
    /// The address of this process, "hostname:udp_port".
    pub closed spec fn uri(&self) -> Seq<char> {
        self.local_uri@
    }

    /// The number of engine threads.
    pub closed spec fn count(&self) -> usize {
        self.chan_count
    }

    /// The prefix of the threads' names, if one is set.
    pub closed spec fn prefix(&self) -> Option<Seq<char>> {
        match self.name_prefix {
            Some(p) => Some(p@),
            None => None,
        }
    }

    /// Settings for the address `local_uri`, with one engine thread for
    /// each available CPU and no thread name prefix.
    pub fn new(local_uri: &str) -> (r: EnvBuilder)
        ensures
            r.uri() == local_uri@,
            r.count() >= 1,
            r.prefix() is None,
    {
        EnvBuilder {
            local_uri: String::from_str(local_uri),
            chan_count: available_cpus(),
            name_prefix: None,
        }
    }

    /// Sets the number of engine threads; each thread serves one channel.
    pub fn chan_count(self, count: usize) -> (r: EnvBuilder)
        requires
            count > 0,
        ensures
            r.count() == count,
            r.uri() == self.uri(),
            r.prefix() == self.prefix(),
    {
        EnvBuilder { chan_count: count, ..self }
    }

    /// Sets the prefix of the engine threads' names.
    pub fn name_prefix(self, prefix: &str) -> (r: EnvBuilder)
        ensures
            r.prefix() == Some(prefix@),
            r.uri() == self.uri(),
            r.count() == self.count(),
    {
        EnvBuilder { name_prefix: Some(String::from_str(prefix)), ..self }
    }

    /// The address of this process.
    pub fn get_local_uri(&self) -> (r: &str)
        ensures
            r@ == self.uri(),
    {
        self.local_uri.as_str()
    }

    /// The number of engine threads.
    pub fn get_chan_count(&self) -> (r: usize)
        ensures
            r == self.count(),
    {
        self.chan_count
    }

    /// The prefix of the threads' names, if one is set.
    pub fn get_name_prefix(&self) -> (r: Option<&str>)
        ensures
            self.prefix() is None ==> r is None,
            self.prefix() is Some ==> r is Some && r->Some_0@ == self.prefix()->Some_0,
    {
        match &self.name_prefix {
            Some(p) => Some(p.as_str()),
            None => None,
        }
    }

    /// The name of the `i`-th engine thread: the prefix, a dash, and `i` in
    /// decimal; none where no prefix is set.
    pub fn thread_name(&self, i: usize) -> (r: Option<String>)
        ensures
            self.prefix() is None ==> r is None,
            self.prefix() is Some ==> r is Some && r->Some_0@ == self.prefix()->Some_0 + "-"@
                + decimal(i as nat),
    {
        match &self.name_prefix {
            Some(p) => {
                let mut s = p.clone();
                s.append("-");
                let n = decimal_string(i);
                s.append(n.as_str());
                Some(s)
            },
            None => None,
        }
    }

    /// The round-robin assignment of channels to the threads to be built.
    pub fn build(&self) -> (r: Environment)
        requires
            self.count() > 0,
        ensures
            r.count() == self.count(),
            r.cursor() == 0,
    {
        Environment::new(self.chan_count)
    }
}

/// Hands out the engine threads of a pool, one per new connection, in
/// round-robin order.
pub struct Environment {
    chan_count: usize,
    idx: usize,
}

impl Environment {
    pub closed spec fn count(&self) -> usize {
        self.chan_count
    }

    /// The thread the next connection goes to.
    pub closed spec fn cursor(&self) -> usize {
        self.idx
    }

    #[verifier::type_invariant]
    closed spec fn wf(&self) -> bool {
        self.idx < self.chan_count
    }

    /// An assignment over `chan_count` threads that starts with the first.
    pub fn new(chan_count: usize) -> (r: Environment)
        requires
            chan_count > 0,
        ensures
            r.count() == chan_count,
            r.cursor() == 0,
    {
        Environment { chan_count, idx: 0 }
    }

    /// The thread the next connection goes to; the one after the last
    /// thread is the first.
    pub fn pick_channel_env(&mut self) -> (r: usize)
        ensures
            final(self).count() == old(self).count(),
            r == old(self).cursor(),
            final(self).cursor() == (old(self).cursor() + 1) % (old(self).count() as int),
    {
        proof {
            use_type_invariant(&*self);
        }
        let i = self.idx;
        self.idx = if i + 1 == self.chan_count {
            0
        } else {
            i + 1
        };
        assert((i + 1) % (self.chan_count as int) == if i + 1 == self.chan_count {
            0int
        } else {
            i + 1
        }) by (nonlinear_arith)
            requires
                i < self.chan_count,
        ;
        i
    }
}

} // verus!
