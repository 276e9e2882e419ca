//! The pool of host ports handed to deployed containers: the lowest free port
//! of an inclusive range is handed out, and a released port can be handed out again.
use std::collections::HashSet;
use vstd::prelude::*;

verus! {

broadcast use vstd::std_specs::hash::group_hash_axioms;

/// An inclusive range of host ports and the ports of it that are in use.
#[derive(Debug)]
pub struct PortPool {
    start_port: u16,
    end_port: u16,
    used_ports: HashSet<u16>,
}

/// What a pool is: its bounds and the set of ports in use.
pub struct PortPoolView {
    pub start: u16,
    pub end: u16,
    pub used: Set<u16>,
}

impl View for PortPool {
    type V = PortPoolView;

    closed spec fn view(&self) -> PortPoolView {
        PortPoolView { start: self.start_port, end: self.end_port, used: self.used_ports@ }
    }
}

/// Every port of the range is in use.
#[derive(Debug, Clone, Copy, PartialEq, Eq, Structural)]
pub enum PortPoolError {
    NoAvailablePorts,
}

impl PortPoolError {
    /// The error's message.
    pub fn message(&self) -> (r: String)
        ensures
            r@ == "No available ports in the pool"@,
    {
        String::from_str("No available ports in the pool")
    }
}

/// `p` lies in the pool's range and is not in use.
pub open spec fn is_free(v: PortPoolView, p: int) -> bool {
    v.start <= p <= v.end && !v.used.contains(p as u16)
}

/// `p` is the lowest free port of the pool.
pub open spec fn is_lowest_free(v: PortPoolView, p: u16) -> bool {
    &&& is_free(v, p as int)
    &&& forall|q: int| v.start <= q < p ==> #[trigger] v.used.contains(q as u16)
}

/// No port of the range is free.
pub open spec fn is_exhausted(v: PortPoolView) -> bool {
    forall|q: int| v.start <= q <= v.end ==> #[trigger] v.used.contains(q as u16)
}

/// `post` and `r` are what an allocation from `pre` leaves and returns: the lowest
/// free port, now in use; or, when none is free, an error and the pool unchanged.
pub open spec fn allocates(pre: PortPoolView, post: PortPoolView, r: Result<u16, PortPoolError>) -> bool {
    &&& post.start == pre.start
    &&& post.end == pre.end
    &&& match r {
        Ok(p) => is_lowest_free(pre, p) && post.used == pre.used.insert(p),
        Err(_) => is_exhausted(pre) && post.used == pre.used,
    }
}

/// `post` is `pre` with `port` no longer in use.
pub open spec fn releases(pre: PortPoolView, post: PortPoolView, port: u16) -> bool {
    &&& post.start == pre.start
    &&& post.end == pre.end
    &&& post.used == pre.used.remove(port)
}

impl PortPool {
    /// A pool of the ports `start_port..=end_port`, none in use.
    pub fn new(start_port: u16, end_port: u16) -> (r: PortPool)
        ensures
            r@.start == start_port,
            r@.end == end_port,
            r@.used == Set::<u16>::empty(),
    {
        PortPool { start_port, end_port, used_ports: HashSet::new() }
    }

    /// Hands out the lowest free port of the range and marks it in use.
    pub fn get_available_port(&mut self) -> (r: Result<u16, PortPoolError>)
        ensures
            allocates(old(self)@, final(self)@, r),
    {
        let mut port: u32 = self.start_port as u32;
        while port <= self.end_port as u32
            invariant
                self@ == old(self)@,
                self.start_port <= port <= self.end_port as u32 + 1 || port == self.start_port,
                forall|q: int| self.start_port <= q < port ==> #[trigger] self.used_ports@.contains(q as u16),
            decreases self.end_port as u32 + 1 - port,
        {
            let p: u16 = port as u16;
            if !self.used_ports.contains(&p) {
                self.used_ports.insert(p);
                return Ok(p);
            }
            port = port + 1;
        }
        Err(PortPoolError::NoAvailablePorts)
    }

    /// Marks `port` as no longer in use.
    pub fn release_port(&mut self, port: u16)
        ensures
            releases(old(self)@, final(self)@, port),
    {
        self.used_ports.remove(&port);
    }
}

/// The host port for a new container: the requested one if any (the pool is
/// left alone), otherwise the lowest free port of the pool, now in use; when
/// the pool has none left the request fails and the pool is unchanged.
pub fn select_host_port(pool: &mut PortPool, requested: Option<u16>) -> (r: Result<u16, PortPoolError>)
    ensures
        match requested {
            Some(p) => r == Ok::<u16, PortPoolError>(p) && final(pool)@ == old(pool)@,
            None => allocates(old(pool)@, final(pool)@, r),
        },
{
    match requested {
        Some(p) => Ok(p),
        None => pool.get_available_port(),
    }
}

/// A run of allocations from a pool with no release among them: `vs[k]` is
/// the pool before the `k`-th allocation and `rs[k]` what it returned.
pub open spec fn allocation_run(vs: Seq<PortPoolView>, rs: Seq<Result<u16, PortPoolError>>) -> bool {
    &&& vs.len() == rs.len() + 1
    &&& forall|k: int| #![trigger rs[k]] 0 <= k < rs.len() ==> allocates(vs[k], vs[k + 1], rs[k])
}

/// Along a run of allocations the range stays the same and ports in use stay in use.
pub proof fn lemma_allocation_run_grows(
    vs: Seq<PortPoolView>,
    rs: Seq<Result<u16, PortPoolError>>,
    i: int,
    j: int,
)
    requires
        allocation_run(vs, rs),
        0 <= i <= j < vs.len(),
    ensures
        vs[j].start == vs[i].start,
        vs[j].end == vs[i].end,
        vs[i].used.subset_of(vs[j].used),
    decreases j - i,
{
    if i < j {
        lemma_allocation_run_grows(vs, rs, i, j - 1);
        let k = j - 1;
        assert(allocates(vs[k], vs[k + 1], rs[k]));
    }
}

/// While nothing is released, each port handed out is higher than every one
/// handed out before it, and within the range: the pool never hands out a
/// port that is still in use.
pub proof fn lemma_allocations_increase(
    vs: Seq<PortPoolView>,
    rs: Seq<Result<u16, PortPoolError>>,
    i: int,
    j: int,
    a: u16,
    b: u16,
)
    requires
        allocation_run(vs, rs),
        0 <= i < j < rs.len(),
        rs[i] == Ok::<u16, PortPoolError>(a),
        rs[j] == Ok::<u16, PortPoolError>(b),
    ensures
        a < b,
        vs[0].start <= b <= vs[0].end,
{
    assert(allocates(vs[i], vs[i + 1], rs[i]));
    assert(allocates(vs[j], vs[j + 1], rs[j]));
    lemma_allocation_run_grows(vs, rs, i + 1, j);
    lemma_allocation_run_grows(vs, rs, 0, j);
    lemma_allocation_run_grows(vs, rs, 0, i);
    if b <= a {
        if b < a {
            assert(vs[i].used.contains(b as int as u16));
            assert(vs[i + 1].used.contains(b));
        } else {
            assert(vs[i + 1].used.contains(a));
        }
        assert(vs[j].used.contains(b));
    }
}

/// Handing out a port and releasing it again leaves the pool as it was.
pub proof fn lemma_release_undoes_allocation(v0: PortPoolView, v1: PortPoolView, v2: PortPoolView, p: u16)
    requires
        allocates(v0, v1, Ok(p)),
        releases(v1, v2, p),
    ensures
        v2 == v0,
{
    assert(v2.used =~= v0.used);
}

/// A released port of the range can be handed out again: the next allocation
/// succeeds with that port or a lower one.
pub proof fn lemma_released_port_is_reusable(
    v0: PortPoolView,
    v1: PortPoolView,
    v2: PortPoolView,
    p: u16,
    r: Result<u16, PortPoolError>,
)
    requires
        v0.start <= p <= v0.end,
        releases(v0, v1, p),
        allocates(v1, v2, r),
    ensures
        r matches Ok(q) && q <= p,
{
    assert(!v1.used.contains(p));
    match r {
        Ok(q) => {
            if q > p {
                assert(v1.used.contains(p as int as u16));
            }
        },
        Err(_) => {
            assert(v1.used.contains(p as int as u16));
        },
    }
}

/// An allocation fails only when every port of the range is in use.
pub proof fn lemma_allocation_succeeds_when_a_port_is_free(
    v0: PortPoolView,
    v1: PortPoolView,
    q: u16,
    r: Result<u16, PortPoolError>,
)
    requires
        is_free(v0, q as int),
        allocates(v0, v1, r),
    ensures
        r is Ok,
{
    if r is Err {
        assert(v0.used.contains(q as int as u16));
    }
}


/// An allocation is determined by the pool: it hands out the lowest free port.
pub proof fn lemma_allocation_is_lowest_free(pre: PortPoolView, post: PortPoolView, r: Result<u16, PortPoolError>, q: u16)
    requires
        is_lowest_free(pre, q),
        allocates(pre, post, r),
    ensures
        r == Ok::<u16, PortPoolError>(q),
        post.used == pre.used.insert(q),
{
    match r {
        Ok(p) => {
            if p < q {
                assert(pre.used.contains(p as int as u16));
            } else if p > q {
                assert(pre.used.contains(q as int as u16));
            }
        },
        Err(_) => {
            assert(pre.used.contains(q as int as u16));
        },
    }
}

/// Every port in use lies in the pool's range.
pub open spec fn used_within_range(v: PortPoolView) -> bool {
    forall|p: u16| #[trigger] v.used.contains(p) ==> v.start <= p <= v.end
}

/// A new pool, every allocation and every release keep the ports in use
/// within the range: the pool never hands out a port outside it.
pub proof fn lemma_used_ports_stay_in_range(
    pre: PortPoolView,
    post: PortPoolView,
    r: Result<u16, PortPoolError>,
    port: u16,
)
    ensures
        used_within_range(PortPoolView { start: pre.start, end: pre.end, used: Set::empty() }),
        used_within_range(pre) && allocates(pre, post, r) ==> used_within_range(post),
        used_within_range(pre) && releases(pre, post, port) ==> used_within_range(post),
{
}

} // verus!
