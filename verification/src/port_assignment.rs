//! The rule by which a deployment record is given a port: a released port
//! that no record in use holds is reused first; otherwise the port after the
//! highest one ever assigned is taken (3000 for the first), up to 9000.
use vstd::prelude::*;

verus! {

/// Why no port could be assigned.
#[derive(Debug, Clone, Copy, PartialEq, Eq, Structural)]
pub enum PortAssignError {
    NoFreePorts,
}

impl PortAssignError {
    /// The error's message.
    pub fn message(&self) -> (r: String)
        ensures
            r@ == "No free ports available in range 3000-9000"@,
    {
        String::from_str("No free ports available in range 3000-9000")
    }
}

/// The first port ever assigned.
pub open spec fn first_port() -> int {
    3000
}

/// The highest port that may be assigned.
pub open spec fn last_port() -> int {
    9000
}

/// The port after the highest one assigned so far (3000 when none was).
pub open spec fn next_fresh_port(highest_port: Option<i32>) -> int {
    match highest_port {
        Some(h) => h + 1,
        None => 3000int,
    }
}

/// The port a deployment gets, given the lowest released port (if any) and the
/// highest port assigned so far (if any).
pub open spec fn assigned_port(released_port: Option<i32>, highest_port: Option<i32>) -> Result<i32, PortAssignError> {
    match released_port {
        Some(p) => Ok(p),
        None => if next_fresh_port(highest_port) <= last_port() {
            Ok(next_fresh_port(highest_port) as i32)
        } else {
            Err(PortAssignError::NoFreePorts)
        },
    }
}

/// Decides the port of a deployment: `released_port` is the lowest port of a
/// record no longer in use that no record in use holds, `highest_port` the
/// highest port of any record.
pub fn plan_port_assignment(released_port: Option<i32>, highest_port: Option<i32>) -> (r: Result<
    i32,
    PortAssignError,
>)
    ensures
        r == assigned_port(released_port, highest_port),
{
    match released_port {
        Some(p) => Ok(p),
        None => {
            let next: i64 = match highest_port {
                Some(h) => h as i64 + 1,
                None => 3000,
            };
            if next > 9000 {
                Err(PortAssignError::NoFreePorts)
            } else {
                Ok(next as i32)
            }
        },
    }
}

/// A port that is not reused is above every port assigned before it and
/// never above 9000; the first one is 3000.
pub proof fn lemma_fresh_ports_climb(highest_port: Option<i32>)
    ensures
        assigned_port(None, highest_port) matches Ok(p) ==> {
            &&& p <= last_port()
            &&& match highest_port {
                Some(h) => p == h + 1,
                None => p == first_port(),
            }
        },
        assigned_port(None, highest_port) is Err <==> (highest_port matches Some(h) && h >= last_port()),
{
}

/// A released port is always reused before a new one is taken.
pub proof fn lemma_released_port_first(p: i32, highest_port: Option<i32>)
    ensures
        assigned_port(Some(p), highest_port) == Ok::<i32, PortAssignError>(p),
{
}


/// A row of the deployments table, as far as ports go.
pub struct PortRow {
    pub id: i64,
    pub port: Option<i32>,
    pub in_use: bool,
}

/// Some row in use holds port `p`.
pub open spec fn held_in_use(t: Seq<PortRow>, p: i32) -> bool {
    exists|i: int| 0 <= i < t.len() && (#[trigger] t[i]).in_use && t[i].port == Some(p)
}

/// Row `i` no longer uses its port, and no row in use holds that port.
pub open spec fn reusable_row(t: Seq<PortRow>, i: int) -> bool {
    !t[i].in_use && t[i].port is Some && !held_in_use(t, t[i].port->0)
}

/// The lowest reusable port among the first `n` rows.
pub open spec fn lowest_reusable_among(t: Seq<PortRow>, n: int) -> Option<i32>
    decreases n,
{
    if n <= 0 {
        None
    } else {
        let rest = lowest_reusable_among(t, n - 1);
        if reusable_row(t, n - 1) {
            let p = t[n - 1].port->0;
            match rest {
                Some(q) => if p < q { Some(p) } else { Some(q) },
                None => Some(p),
            }
        } else {
            rest
        }
    }
}

/// The lowest port of a row that no longer uses it and that no row in use
/// holds (what the database returns first when ordering such rows by port).
pub open spec fn lowest_reusable(t: Seq<PortRow>) -> Option<i32> {
    lowest_reusable_among(t, t.len() as int)
}

/// A reusable port is the port of some row that no longer uses it, and no row
/// in use holds it.
pub proof fn lemma_lowest_reusable_is_free(t: Seq<PortRow>, n: int)
    requires
        0 <= n <= t.len(),
    ensures
        lowest_reusable_among(t, n) matches Some(p) ==> !held_in_use(t, p),
    decreases n,
{
    if n > 0 {
        lemma_lowest_reusable_is_free(t, n - 1);
    }
}

/// The highest port of any row.
pub open spec fn highest_port(t: Seq<PortRow>) -> Option<i32>
    decreases t.len(),
{
    if t.len() == 0 {
        None
    } else {
        let rest = highest_port(t.drop_last());
        let r = t.last();
        match r.port {
            Some(p) => match rest {
                Some(q) => if p > q { Some(p) } else { Some(q) },
                None => Some(p),
            },
            None => rest,
        }
    }
}

/// The table once the row `id` holds port `p` and uses it.
pub open spec fn with_port(t: Seq<PortRow>, id: i64, p: i32) -> Seq<PortRow> {
    Seq::new(
        t.len(),
        |i: int| if t[i].id == id { PortRow { id, port: Some(p), in_use: true } } else { t[i] },
    )
}

/// No two rows have the same id.
pub open spec fn ids_unique(t: Seq<PortRow>) -> bool {
    forall|i: int, j: int| 0 <= i < j < t.len() ==> t[i].id != t[j].id
}

/// No two rows in use hold the same port.
pub open spec fn no_shared_port_in_use(t: Seq<PortRow>) -> bool {
    forall|i: int, j: int|
        0 <= i < t.len() && 0 <= j < t.len() && i != j && t[i].in_use && t[j].in_use
            && t[i].port is Some ==> t[i].port != t[j].port
}

/// Every port in the table is at most the highest one; with no highest port,
/// no row holds a port.
pub proof fn lemma_highest_port_bounds(t: Seq<PortRow>)
    ensures
        forall|i: int| 0 <= i < t.len() && (#[trigger] t[i]).port is Some ==> (highest_port(t) matches Some(
            h,
        ) && t[i].port->0 <= h),
    decreases t.len(),
{
    if t.len() > 0 {
        lemma_highest_port_bounds(t.drop_last());
        assert forall|i: int| 0 <= i < t.len() && (#[trigger] t[i]).port is Some implies (highest_port(
            t,
        ) matches Some(h) && t[i].port->0 <= h) by {
            if i < t.len() - 1 {
                assert(t.drop_last()[i] == t[i]);
            }
        }
    }
}

/// A port handed out fresh is held by no row, and a reused port is held by no
/// row in use. So, from a table in which no two rows in use share a port, an
/// assignment leaves a table in which still no two rows in use share a port.
pub proof fn lemma_assignment_keeps_ports_apart(t: Seq<PortRow>, id: i64)
    requires
        ids_unique(t),
        no_shared_port_in_use(t),
    ensures
        assigned_port(lowest_reusable(t), highest_port(t)) matches Ok(p) ==> no_shared_port_in_use(
            with_port(t, id, p),
        ),
        lowest_reusable(t) is None ==> (assigned_port(None, highest_port(t)) matches Ok(p) ==> forall|
            i: int,
        | 0 <= i < t.len() ==> (#[trigger] t[i]).port != Some(p)),
{
    lemma_highest_port_bounds(t);
    lemma_lowest_reusable_is_free(t, t.len() as int);
    if let Ok(p) = assigned_port(lowest_reusable(t), highest_port(t)) {
        let u = with_port(t, id, p);
        if lowest_reusable(t) is None {
            assert forall|i: int| 0 <= i < t.len() implies (#[trigger] t[i]).port != Some(p) by {
                if t[i].port is Some {
                    assert(highest_port(t) is Some);
                }
            }
        } else {
            assert(!held_in_use(t, p));
        }
        assert forall|i: int, j: int|
            0 <= i < u.len() && 0 <= j < u.len() && i != j && u[i].in_use && u[j].in_use
                && u[i].port is Some implies u[i].port != u[j].port by {
            if t[i].id == id && t[j].id == id {
                if i < j {
                    assert(t[i].id != t[j].id);
                } else {
                    assert(t[j].id != t[i].id);
                }
            } else if t[i].id == id {
                if t[j].port == Some(p) {
                    assert(t[j].in_use);
                }
            } else if t[j].id == id {
                if t[i].port == Some(p) {
                    assert(t[i].in_use);
                }
            }
        }
    }
}

} // verus!
