//! Session records: each session is a logical stream of serial-numbered
//! operations, individually recoverable after a crash.
use vstd::prelude::*;

verus! {

/// The store's record of one session.
///
/// `last_serial` is the highest serial number an operation of the session has
/// carried; `persisted` is the highest serial number made durable by a
/// checkpoint; `stopped` marks a session whose stream has ended.
#[derive(Clone, Copy)]
pub struct SessionRec {
    pub last_serial: u64,
    pub persisted: u64,
    pub stopped: bool,
}

/// The session currently attached to the store handle.
///
/// `replay_bound` is set when the session was reattached through
/// `continue_session`: operations whose serial number is at or below the
/// bound were already durable before the crash, and reissuing them must not
/// duplicate their effects.
#[derive(Clone, Copy)]
pub struct CurrentSession {
    pub id: usize,
    pub replay_bound: Option<u64>,
}

/// The session table as a checkpoint persists it: every session's
/// `last_serial` becomes its durable `persisted` count.
pub open spec fn persist_all(s: Seq<SessionRec>) -> Seq<SessionRec> {
    s.map_values(
        |r: SessionRec|
            SessionRec { last_serial: r.last_serial, persisted: r.last_serial, stopped: r.stopped },
    )
}

/// Copy a session table, record for record.
pub fn copy_sessions(v: &Vec<SessionRec>) -> (r: Vec<SessionRec>)
    ensures
        r@ == v@,
{
    let n = v.len();
    let mut out: Vec<SessionRec> = Vec::new();
    let mut i: usize = 0;
    while i < n
        invariant
            n == v@.len(),
            i <= n,
            out@.len() == i,
            forall|j: int| 0 <= j < i ==> out@[j] == v@[j],
        decreases n - i,
    {
        out.push(v[i]);
        i += 1;
    }
    proof {
        assert(out@ =~= v@);
    }
    out
}

} // verus!
