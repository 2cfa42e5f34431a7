//! Checkpoint and recovery data: the token a snapshot is addressed by, the
//! result a recovery reports, and the snapshot state a persistent store keeps.
use vstd::prelude::*;

use crate::records::distinct_keys;
use crate::records::records_map;
use crate::records::Record;
use crate::session::SessionRec;

verus! {

/// The outcome of a checkpoint call: whether the snapshot was initiated, and
/// the token that addresses it.
pub struct CheckPoint {
    pub checked: bool,
    pub token: usize,
}

/// The outcome of a recovery: the engine's status byte, the version of the
/// recovered snapshot, and the sessions that were active when the snapshot
/// was taken, each resumable through `continue_session`.
pub struct Recover {
    pub status: u8,
    pub version: u64,
    pub session_ids: Vec<usize>,
}

/// One durable snapshot: which parts it covers (the index, the hybrid log,
/// or both), its version, and the store and session state it captured.
pub struct Snapshot {
    pub covers_index: bool,
    pub covers_log: bool,
    pub version: u64,
    pub data: Vec<Record>,
    pub sessions: Vec<SessionRec>,
    pub active: Option<usize>,
}

/// The mathematical content of a snapshot.
#[verifier::ext_equal]
pub struct SnapModel {
    pub covers_index: bool,
    pub covers_log: bool,
    pub version: u64,
    pub map: Map<Seq<u8>, Seq<u8>>,
    pub sessions: Seq<SessionRec>,
    pub active: Option<usize>,
}

impl Snapshot {
    /// The snapshot's mathematical content.
    pub open spec fn model(&self) -> SnapModel {
        SnapModel {
            covers_index: self.covers_index,
            covers_log: self.covers_log,
            version: self.version,
            map: records_map(self.data@),
            sessions: self.sessions@,
            active: self.active,
        }
    }

    /// A well-formed snapshot: distinct record keys, and an active session
    /// that exists in its session table.
    pub open spec fn wf(&self) -> bool {
        &&& distinct_keys(self.data@)
        &&& match self.active {
            Some(id) => id < self.sessions@.len(),
            None => true,
        }
    }
}

} // verus!
