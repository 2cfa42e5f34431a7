//! A client-side facade over a hybrid-log key/value engine: generic typed
//! operations (upsert, read, read-modify-write, delete), session-based
//! durability, and checkpoint/recovery.
//!
//! The facade owns the engine state directly, as an in-memory realization of
//! the engine's interface contract, so that every operation's observable
//! behaviour — what the denoted key/value map becomes, which status comes
//! back, what a read's completion conduit delivers, and what checkpoints and
//! recovery preserve — is stated in contracts and verified.
use vstd::prelude::*;

mod builder;
mod channel;
mod faster_error;
mod faster_traits;
mod impls;
mod laws;
mod records;
mod session;
pub mod status;
mod util;

pub use crate::builder::spec_pow2;
pub use crate::builder::FasterKvBuilder;
pub use crate::channel::CompletionSlot;
pub use crate::channel::Receiver;
pub use crate::faster_error::FasterError;
pub use crate::faster_traits::merged_of;
pub use crate::faster_traits::read_callback;
pub use crate::faster_traits::rmw_callback;
pub use crate::faster_traits::rmw_merge;
pub use crate::faster_traits::spec_bytes_of;
pub use crate::faster_traits::FasterKey;
pub use crate::faster_traits::FasterRmw;
pub use crate::faster_traits::FasterValue;
pub use crate::laws::lemma_append_merge_not_commutative;
pub use crate::laws::lemma_checkpoint_token_restores;
pub use crate::laws::lemma_delete_then_read;
pub use crate::laws::lemma_numeric_add_merge_commutes;
pub use crate::laws::lemma_rmw_absent;
pub use crate::laws::lemma_rmw_present;
pub use crate::laws::lemma_upsert_then_read;
pub use crate::records::Record;
pub use crate::session::CurrentSession;
pub use crate::session::SessionRec;
pub use crate::util::CheckPoint;
pub use crate::util::Recover;
pub use crate::util::SnapModel;

use crate::records::copy_records;
use crate::records::distinct_keys;
use crate::records::find_record;
use crate::records::lemma_records_map_domain;
use crate::records::lemma_records_map_len;
use crate::records::lemma_records_map_push;
use crate::records::lemma_records_map_remove;
use crate::records::lemma_records_map_update;
use crate::records::records_map;
use crate::session::copy_sessions;
use crate::session::persist_all;
use crate::util::Snapshot;
use vstd::pervasive::VecAdditionalExecFns;

verus! {

/// The store handle: the exclusive owner of one engine's state.
pub struct FasterKv {
    pub(crate) data: Vec<Record>,
    pub(crate) storage_dir: Option<String>,
    pub(crate) table_size: u64,
    pub(crate) log_size: u64,
    pub(crate) pre_allocate_log: bool,
    pub(crate) sessions: Vec<SessionRec>,
    pub(crate) current: Option<CurrentSession>,
    pub(crate) checkpoints: Vec<Snapshot>,
}

/// The session the given serial number must not precede: per session, serial
/// numbers are caller-assigned and non-decreasing.
pub open spec fn serial_ok(s: FasterKv, n: u64) -> bool {
    match s.current() {
        Some(c) => n >= s.sessions()[c.id as int].last_serial,
        None => true,
    }
}

/// Whether an operation with the given serial number replays work already
/// durable in the reattached session: such an operation must not repeat its
/// effect.
pub open spec fn op_replayed(s: FasterKv, n: u64) -> bool {
    match s.current() {
        Some(c) => match c.replay_bound {
            Some(p) => n <= p,
            None => false,
        },
        None => false,
    }
}

/// How an operation carrying serial number `n` advances the session state:
/// the attached session's `last_serial` becomes `n`, everything else stays.
pub open spec fn sessions_advanced(a: FasterKv, b: FasterKv, n: u64) -> bool {
    &&& b.current() == a.current()
    &&& match a.current() {
        Some(c) => b.sessions() == a.sessions().update(
            c.id as int,
            (SessionRec {
                last_serial: n,
                persisted: a.sessions()[c.id as int].persisted,
                stopped: a.sessions()[c.id as int].stopped,
            }),
        ),
        None => b.sessions() == a.sessions(),
    }
}

/// The store's configuration is untouched.
pub open spec fn config_unchanged(a: FasterKv, b: FasterKv) -> bool {
    &&& b.persistent() == a.persistent()
    &&& b.spec_table_size() == a.spec_table_size()
    &&& b.spec_log_size() == a.spec_log_size()
    &&& b.spec_pre_allocate_log() == a.spec_pre_allocate_log()
}

/// The session id a current-session record names, if one is attached.
pub open spec fn active_id(c: Option<CurrentSession>) -> Option<usize> {
    match c {
        Some(cs) => Some(cs.id),
        None => None,
    }
}

/// What a checkpoint call leaves behind: on a persistent store it succeeds,
/// marks every session's `last_serial` durable, and appends one snapshot of
/// the named coverage; on a volatile store it fails with a configuration
/// error and changes nothing.
pub open spec fn checkpoint_post(
    a: FasterKv,
    b: FasterKv,
    r: Result<CheckPoint, FasterError>,
    covers_index: bool,
    covers_log: bool,
) -> bool {
    &&& b.wf()
    &&& config_unchanged(a, b)
    &&& b.data_map() == a.data_map()
    &&& b.current() == a.current()
    &&& (r is Ok <==> a.persistent())
    &&& match r {
        Err(e) => {
            &&& e == FasterError::InvalidType
            &&& b.sessions() == a.sessions()
            &&& b.snaps() == a.snaps()
        },
        Ok(cp) => {
            &&& cp.checked
            &&& cp.token == a.snaps().len()
            &&& b.sessions() == persist_all(a.sessions())
            &&& b.snaps() == a.snaps().push(
                (SnapModel {
                    covers_index,
                    covers_log,
                    version: a.snaps().len() as u64,
                    map: a.data_map(),
                    sessions: persist_all(a.sessions()),
                    active: active_id(a.current()),
                }),
            )
        },
    }
}

impl FasterKv {
    /// The key/value map the store currently denotes, over encoded keys and
    /// encoded values.
    pub closed spec fn data_map(&self) -> Map<Seq<u8>, Seq<u8>> {
        records_map(self.data@)
    }

    /// Whether the store was built with a storage directory, enabling
    /// checkpoint, recovery and storage cleaning.
    pub closed spec fn persistent(&self) -> bool {
        self.storage_dir is Some
    }

    /// The session table, in creation order.
    pub closed spec fn sessions(&self) -> Seq<SessionRec> {
        self.sessions@
    }

    /// The session currently attached to the handle, if any.
    pub closed spec fn current(&self) -> Option<CurrentSession> {
        self.current
    }

    /// The snapshots taken so far, in order; a checkpoint token is an index
    /// into this sequence.
    pub closed spec fn snaps(&self) -> Seq<SnapModel> {
        self.checkpoints@.map_values(|s: Snapshot| s.model())
    }

    /// The configured slot count of the index.
    pub closed spec fn spec_table_size(&self) -> u64 {
        self.table_size
    }

    /// The configured log size in bytes.
    pub closed spec fn spec_log_size(&self) -> u64 {
        self.log_size
    }

    /// Whether log space is reserved eagerly.
    pub closed spec fn spec_pre_allocate_log(&self) -> bool {
        self.pre_allocate_log
    }

    /// Well-formedness: record keys are pairwise distinct, the attached
    /// session exists, and every snapshot is itself well-formed.
    pub closed spec fn wf(&self) -> bool {
        &&& distinct_keys(self.data@)
        &&& match self.current {
            Some(c) => c.id < self.sessions@.len(),
            None => true,
        }
        &&& forall|i: int|
            0 <= i < self.checkpoints@.len() ==> (#[trigger] self.checkpoints@[i]).wf()
    }

    /// Whether an operation carrying the given serial number would replay
    /// already-durable work of the attached session.
    fn is_replay(&self, n: u64) -> (r: bool)
        ensures
            r == op_replayed(*self, n),
    {
        match self.current {
            Some(c) => match c.replay_bound {
                Some(p) => n <= p,
                None => false,
            },
            None => false,
        }
    }

    /// Record the serial number of an operation against the attached session.
    fn advance_session(&mut self, n: u64)
        requires
            old(self).wf(),
        ensures
            final(self).wf(),
            sessions_advanced(*old(self), *final(self), n),
            final(self).data == old(self).data,
            final(self).storage_dir == old(self).storage_dir,
            final(self).table_size == old(self).table_size,
            final(self).log_size == old(self).log_size,
            final(self).pre_allocate_log == old(self).pre_allocate_log,
            final(self).current == old(self).current,
            final(self).checkpoints == old(self).checkpoints,
    {
        if let Some(c) = self.current {
            let mut rec = self.sessions[c.id];
            rec.last_serial = n;
            self.sessions.set(c.id, rec);
        }
    }

    /// Insert or replace the value held under a key.
    ///
    /// The denoted map gains the encoded key/value pair, except when the
    /// operation replays already-durable work of a reattached session, in
    /// which case the map is untouched. The issuing status is `OK`: the
    /// in-memory realization resolves every upsert synchronously.
    pub fn upsert<K: FasterKey, V: FasterValue>(
        &mut self,
        key: &K,
        value: &V,
        monotonic_serial_number: u64,
    ) -> (r: u8)
        requires
            old(self).wf(),
            serial_ok(*old(self), monotonic_serial_number),
        ensures
            final(self).wf(),
            r == status::OK,
            sessions_advanced(*old(self), *final(self), monotonic_serial_number),
            config_unchanged(*old(self), *final(self)),
            final(self).snaps() == old(self).snaps(),
            final(self).data_map() == (if op_replayed(*old(self), monotonic_serial_number) {
                old(self).data_map()
            } else {
                old(self).data_map().insert(K::enc_of(key.model()), V::enc_of(value.model()))
            }),
    {
        let replay = self.is_replay(monotonic_serial_number);
        self.advance_session(monotonic_serial_number);
        if replay {
            return status::OK;
        }
        let encoded_key = key.encode();
        let encoded_value = value.encode();
        match find_record(&self.data, &encoded_key) {
            Some(i) => {
                let rec = Record { key: encoded_key, value: encoded_value };
                proof {
                    lemma_records_map_update(self.data@, i as int, rec);
                }
                self.data.set(i, rec);
            },
            None => {
                let rec = Record { key: encoded_key, value: encoded_value };
                proof {
                    lemma_records_map_push(self.data@, rec);
                    lemma_records_map_domain(self.data@, rec.key@);
                }
                self.data.push(rec);
            },
        }
        status::OK
    }

    /// Read the value held under a key.
    ///
    /// Resolves synchronously: on a present key the status is `OK` and the
    /// returned receiver delivers the decoded value (or nothing when the
    /// stored bytes do not decode at the requested type); on an absent key
    /// the status is `NOT_FOUND` and the receiver delivers nothing. The
    /// receiver yields its value at most once.
    pub fn read<K: FasterKey, V: FasterValue>(
        &mut self,
        key: &K,
        monotonic_serial_number: u64,
    ) -> (r: (u8, Receiver<V>))
        requires
            old(self).wf(),
            serial_ok(*old(self), monotonic_serial_number),
        ensures
            final(self).wf(),
            sessions_advanced(*old(self), *final(self), monotonic_serial_number),
            config_unchanged(*old(self), *final(self)),
            final(self).snaps() == old(self).snaps(),
            final(self).data_map() == old(self).data_map(),
            ({
                let m = old(self).data_map();
                let kb = K::enc_of(key.model());
                if m.contains_key(kb) {
                    &&& r.0 == status::OK
                    &&& match r.1.pending() {
                        Some(w) => V::dec_of(m[kb]) == Some(w.model()),
                        None => V::dec_of(m[kb]) is None,
                    }
                } else {
                    &&& r.0 == status::NOT_FOUND
                    &&& r.1.pending() is None
                }
            }),
    {
        self.advance_session(monotonic_serial_number);
        let encoded_key = key.encode();
        let mut slot = CompletionSlot::<V>::new();
        match find_record(&self.data, &encoded_key) {
            Some(i) => {
                read_callback::<V>(&mut slot, status::OK, self.data[i].value.as_slice());
                (status::OK, slot.into_receiver())
            },
            None => {
                slot.close();
                (status::NOT_FOUND, slot.into_receiver())
            },
        }
    }

    /// Combine the value held under a key (or, for an absent key, the
    /// initial value) with a modification, through the merge function bound
    /// to the value type.
    ///
    /// The denoted map gains the merged encoding under the key, except when
    /// the operation replays already-durable work, in which case the map is
    /// untouched. When the stored bytes do not decode at the requested type
    /// the merge cannot run: the status is `CORRUPTION` and the map is
    /// untouched.
    pub fn rmw<K: FasterKey, V: FasterRmw>(
        &mut self,
        key: &K,
        modification: &V,
        monotonic_serial_number: u64,
    ) -> (r: u8)
        requires
            old(self).wf(),
            serial_ok(*old(self), monotonic_serial_number),
        ensures
            final(self).wf(),
            sessions_advanced(*old(self), *final(self), monotonic_serial_number),
            config_unchanged(*old(self), *final(self)),
            final(self).snaps() == old(self).snaps(),
            ({
                let m = old(self).data_map();
                let kb = K::enc_of(key.model());
                let cur = if m.contains_key(kb) {
                    Some(m[kb])
                } else {
                    None
                };
                if op_replayed(*old(self), monotonic_serial_number) {
                    r == status::OK && final(self).data_map() == m
                } else {
                    match merged_of::<V>(cur, V::enc_of(modification.model())) {
                        Some(out) => r == status::OK && final(self).data_map() == m.insert(
                            kb,
                            out,
                        ),
                        None => r == status::CORRUPTION && final(self).data_map() == m,
                    }
                }
            }),
    {
        let replay = self.is_replay(monotonic_serial_number);
        self.advance_session(monotonic_serial_number);
        if replay {
            return status::OK;
        }
        let encoded_key = key.encode();
        let encoded_modification = modification.encode();
        match find_record(&self.data, &encoded_key) {
            Some(i) => {
                let merged = rmw_merge::<V>(Some(&self.data[i].value), &encoded_modification);
                match merged {
                    Some(out) => {
                        let rec = Record { key: encoded_key, value: out };
                        proof {
                            lemma_records_map_update(self.data@, i as int, rec);
                        }
                        self.data.set(i, rec);
                        status::OK
                    },
                    None => status::CORRUPTION,
                }
            },
            None => {
                let merged = rmw_merge::<V>(None, &encoded_modification);
                match merged {
                    Some(out) => {
                        let rec = Record { key: encoded_key, value: out };
                        proof {
                            lemma_records_map_push(self.data@, rec);
                            lemma_records_map_domain(self.data@, rec.key@);
                        }
                        self.data.push(rec);
                        status::OK
                    },
                    None => status::CORRUPTION,
                }
            },
        }
    }

    /// Delete the value held under a key.
    ///
    /// Returns `OK` and removes the key when it is present, `NOT_FOUND` and
    /// changes nothing when it is absent, and replays without effect in a
    /// reattached session.
    pub fn delete<K: FasterKey>(&mut self, key: &K, monotonic_serial_number: u64) -> (r: u8)
        requires
            old(self).wf(),
            serial_ok(*old(self), monotonic_serial_number),
        ensures
            final(self).wf(),
            sessions_advanced(*old(self), *final(self), monotonic_serial_number),
            config_unchanged(*old(self), *final(self)),
            final(self).snaps() == old(self).snaps(),
            ({
                let m = old(self).data_map();
                let kb = K::enc_of(key.model());
                if op_replayed(*old(self), monotonic_serial_number) {
                    r == status::OK && final(self).data_map() == m
                } else if m.contains_key(kb) {
                    r == status::OK && final(self).data_map() == m.remove(kb)
                } else {
                    r == status::NOT_FOUND && final(self).data_map() == m
                }
            }),
    {
        let replay = self.is_replay(monotonic_serial_number);
        self.advance_session(monotonic_serial_number);
        if replay {
            return status::OK;
        }
        let encoded_key = key.encode();
        match find_record(&self.data, &encoded_key) {
            Some(i) => {
                proof {
                    lemma_records_map_remove(self.data@, i as int);
                }
                self.data.remove(i);
                status::OK
            },
            None => status::NOT_FOUND,
        }
    }

    /// The number of live keys the store holds.
    pub fn size(&self) -> (r: u64)
        requires
            self.wf(),
        ensures
            r == self.data_map().len(),
    {
        proof {
            lemma_records_map_len(self.data@);
        }
        self.data.len() as u64
    }

    /// Begin a new session: a fresh logical stream of serial-numbered
    /// operations, attached to this handle until stopped.
    pub fn start_session(&mut self) -> (r: usize)
        requires
            old(self).wf(),
            old(self).current() is None,
        ensures
            final(self).wf(),
            r == old(self).sessions().len(),
            final(self).sessions() == old(self).sessions().push(
                (SessionRec { last_serial: 0, persisted: 0, stopped: false }),
            ),
            final(self).current() == Some(CurrentSession { id: r, replay_bound: None::<u64> }),
            final(self).data_map() == old(self).data_map(),
            final(self).snaps() == old(self).snaps(),
            config_unchanged(*old(self), *final(self)),
    {
        let id = self.sessions.len();
        self.sessions.push(SessionRec { last_serial: 0, persisted: 0, stopped: false });
        self.current = Some(CurrentSession { id, replay_bound: None });
        id
    }

    /// End the attached session's stream.
    pub fn stop_session(&mut self)
        requires
            old(self).wf(),
            old(self).current() is Some,
        ensures
            final(self).wf(),
            ({
                let c = old(self).current()->Some_0;
                let s = old(self).sessions()[c.id as int];
                final(self).sessions() == old(self).sessions().update(
                    c.id as int,
                    (SessionRec {
                        last_serial: s.last_serial,
                        persisted: s.persisted,
                        stopped: true,
                    }),
                )
            }),
            final(self).current() is None,
            final(self).data_map() == old(self).data_map(),
            final(self).snaps() == old(self).snaps(),
            config_unchanged(*old(self), *final(self)),
    {
        if let Some(c) = self.current {
            let mut rec = self.sessions[c.id];
            rec.stopped = true;
            self.sessions.set(c.id, rec);
        }
        self.current = None;
    }

    /// Reattach to a previously persisted session after recovery.
    ///
    /// Returns the session's persisted serial count: the highest serial
    /// number guaranteed durable. The caller re-issues the stream from the
    /// beginning (the session's stream position starts over) or resumes with
    /// serial numbers strictly greater than the count; operations reissued
    /// at or below the count are replays and do not repeat their effects.
    pub fn continue_session(&mut self, token: usize) -> (r: u64)
        requires
            old(self).wf(),
            old(self).current() is None,
            token < old(self).sessions().len(),
        ensures
            final(self).wf(),
            r == old(self).sessions()[token as int].persisted,
            final(self).current() == Some(CurrentSession { id: token, replay_bound: Some(r) }),
            final(self).sessions() == old(self).sessions().update(
                token as int,
                (SessionRec {
                    last_serial: 0,
                    persisted: old(self).sessions()[token as int].persisted,
                    stopped: old(self).sessions()[token as int].stopped,
                }),
            ),
            final(self).data_map() == old(self).data_map(),
            final(self).snaps() == old(self).snaps(),
            config_unchanged(*old(self), *final(self)),
    {
        let persisted = self.sessions[token].persisted;
        let mut rec = self.sessions[token];
        rec.last_serial = 0;
        self.sessions.set(token, rec);
        self.current = Some(CurrentSession { id: token, replay_bound: Some(persisted) });
        persisted
    }

    /// Take a durable snapshot of both the index and the hybrid log.
    pub fn checkpoint(&mut self) -> (r: Result<CheckPoint, FasterError>)
        requires
            old(self).wf(),
        ensures
            checkpoint_post(*old(self), *final(self), r, true, true),
    {
        self.do_checkpoint(true, true)
    }

    /// Take a durable snapshot of the index alone.
    pub fn checkpoint_index(&mut self) -> (r: Result<CheckPoint, FasterError>)
        requires
            old(self).wf(),
        ensures
            checkpoint_post(*old(self), *final(self), r, true, false),
    {
        self.do_checkpoint(true, false)
    }

    /// Take a durable snapshot of the hybrid log alone.
    pub fn checkpoint_hybrid_log(&mut self) -> (r: Result<CheckPoint, FasterError>)
        requires
            old(self).wf(),
        ensures
            checkpoint_post(*old(self), *final(self), r, false, true),
    {
        self.do_checkpoint(false, true)
    }

    fn do_checkpoint(&mut self, covers_index: bool, covers_log: bool) -> (r: Result<
        CheckPoint,
        FasterError,
    >)
        requires
            old(self).wf(),
        ensures
            checkpoint_post(*old(self), *final(self), r, covers_index, covers_log),
    {
        if self.storage_dir.is_none() {
            return Err(FasterError::InvalidType);
        }
        let n = self.sessions.len();
        let mut i: usize = 0;
        while i < n
            invariant
                n == self.sessions@.len(),
                i <= n,
                forall|j: int|
                    0 <= j < i ==> self.sessions@[j] == (SessionRec {
                        last_serial: old(self).sessions@[j].last_serial,
                        persisted: old(self).sessions@[j].last_serial,
                        stopped: old(self).sessions@[j].stopped,
                    }),
                forall|j: int| i <= j < n ==> self.sessions@[j] == old(self).sessions@[j],
                self.data == old(self).data,
                self.storage_dir == old(self).storage_dir,
                self.table_size == old(self).table_size,
                self.log_size == old(self).log_size,
                self.pre_allocate_log == old(self).pre_allocate_log,
                self.current == old(self).current,
                self.checkpoints == old(self).checkpoints,
            decreases n - i,
        {
            let mut rec = self.sessions[i];
            rec.persisted = rec.last_serial;
            self.sessions.set(i, rec);
            i += 1;
        }
        proof {
            assert(self.sessions@ =~= persist_all(old(self).sessions@));
        }
        let token = self.checkpoints.len();
        let active = match self.current {
            Some(c) => Some(c.id),
            None => None,
        };
        let snap = Snapshot {
            covers_index,
            covers_log,
            version: token as u64,
            data: copy_records(&self.data),
            sessions: copy_sessions(&self.sessions),
            active,
        };
        proof {
            assert(self.checkpoints@.push(snap).map_values(|s: Snapshot| s.model())
                =~= self.checkpoints@.map_values(|s: Snapshot| s.model()).push(snap.model()));
            assert(snap.model() =~= (SnapModel {
                covers_index,
                covers_log,
                version: old(self).snaps().len() as u64,
                map: old(self).data_map(),
                sessions: persist_all(old(self).sessions()),
                active: active_id(old(self).current()),
            }));
        }
        self.checkpoints.push(snap);
        Ok(CheckPoint { checked: true, token })
    }

    /// Reload index and log state from the named snapshot pair.
    ///
    /// Succeeds exactly when the store is persistent, the index token names
    /// an index-covering snapshot and the hybrid-log token a log-covering
    /// one; the store's map and session table then return to the log
    /// snapshot's state, no session is attached, and the result reports the
    /// snapshot's version and the sessions active when it was taken. A
    /// volatile store fails with a configuration error, an unknown token
    /// pair with a recovery error; both leave the store untouched.
    pub fn recover(&mut self, index_token: usize, hybrid_log_token: usize) -> (r: Result<
        Recover,
        FasterError,
    >)
        requires
            old(self).wf(),
        ensures
            final(self).wf(),
            config_unchanged(*old(self), *final(self)),
            final(self).snaps() == old(self).snaps(),
            (r is Ok <==> {
                &&& old(self).persistent()
                &&& index_token < old(self).snaps().len()
                &&& old(self).snaps()[index_token as int].covers_index
                &&& hybrid_log_token < old(self).snaps().len()
                &&& old(self).snaps()[hybrid_log_token as int].covers_log
            }),
            match r {
                Ok(rec) => {
                    let snap = old(self).snaps()[hybrid_log_token as int];
                    &&& final(self).data_map() == snap.map
                    &&& final(self).sessions() == snap.sessions
                    &&& final(self).current() is None
                    &&& rec.status == status::OK
                    &&& rec.version == snap.version
                    &&& rec.session_ids@ == (match snap.active {
                        Some(id) => seq![id],
                        None => Seq::<usize>::empty(),
                    })
                },
                Err(e) => {
                    &&& (e == FasterError::InvalidType || e == FasterError::RecoveryError)
                    &&& (e == FasterError::InvalidType <==> !old(self).persistent())
                    &&& final(self).data_map() == old(self).data_map()
                    &&& final(self).sessions() == old(self).sessions()
                    &&& final(self).current() == old(self).current()
                },
            },
    {
        if self.storage_dir.is_none() {
            return Err(FasterError::InvalidType);
        }
        let n = self.checkpoints.len();
        if index_token >= n || hybrid_log_token >= n {
            return Err(FasterError::RecoveryError);
        }
        if !self.checkpoints[index_token].covers_index
            || !self.checkpoints[hybrid_log_token].covers_log {
            return Err(FasterError::RecoveryError);
        }
        let restored_data = copy_records(&self.checkpoints[hybrid_log_token].data);
        let restored_sessions = copy_sessions(&self.checkpoints[hybrid_log_token].sessions);
        let active = self.checkpoints[hybrid_log_token].active;
        let version = self.checkpoints[hybrid_log_token].version;
        self.data = restored_data;
        self.sessions = restored_sessions;
        self.current = None;
        let mut session_ids: Vec<usize> = Vec::new();
        if let Some(id) = active {
            session_ids.push(id);
        }
        Ok(Recover { status: status::OK, version, session_ids })
    }

    /// Drive completion processing for the attached session. The in-memory
    /// realization resolves every operation at issue time, so there is never
    /// anything left to drive, whether or not the call is asked to wait.
    pub fn complete_pending(&self, b: bool) {
        let _ = b;
    }

    /// Advance the session's safe-memory-reclamation epoch. The in-memory
    /// realization reclaims nothing lazily, so this is a no-op.
    pub fn refresh(&self) {
    }

    /// Diagnostic dump of the index distribution; no return contract.
    pub fn dump_distribution(&self) {
    }

    /// Attempt to double the index's slot count. Succeeds, and doubles the
    /// table size, whenever the doubled size still fits; otherwise reports
    /// failure and leaves the size untouched.
    pub fn grow_index(&mut self) -> (r: bool)
        requires
            old(self).wf(),
        ensures
            final(self).wf(),
            r == (old(self).spec_table_size() <= u64::MAX / 2),
            final(self).spec_table_size() == (if r {
                2 * old(self).spec_table_size()
            } else {
                old(self).spec_table_size() as int
            }),
            final(self).data_map() == old(self).data_map(),
            final(self).sessions() == old(self).sessions(),
            final(self).current() == old(self).current(),
            final(self).snaps() == old(self).snaps(),
            final(self).persistent() == old(self).persistent(),
            final(self).spec_log_size() == old(self).spec_log_size(),
            final(self).spec_pre_allocate_log() == old(self).spec_pre_allocate_log(),
    {
        if self.table_size <= u64::MAX / 2 {
            self.table_size = self.table_size * 2;
            true
        } else {
            false
        }
    }

    /// Discard the persistent artifacts: every snapshot taken so far is
    /// irreversibly dropped. Fails with a configuration error on a store
    /// that is not persistent.
    pub fn clean_storage(&mut self) -> (r: Result<(), FasterError>)
        requires
            old(self).wf(),
        ensures
            final(self).wf(),
            config_unchanged(*old(self), *final(self)),
            final(self).data_map() == old(self).data_map(),
            final(self).sessions() == old(self).sessions(),
            final(self).current() == old(self).current(),
            (r is Ok <==> old(self).persistent()),
            match r {
                Ok(u) => final(self).snaps() == Seq::<SnapModel>::empty(),
                Err(e) => e == FasterError::InvalidType && final(self).snaps() == old(
                    self,
                ).snaps(),
            },
    {
        if self.storage_dir.is_none() {
            return Err(FasterError::InvalidType);
        }
        self.checkpoints.clear();
        proof {
            assert(self.checkpoints@.map_values(|s: Snapshot| s.model()) =~= Seq::<
                SnapModel,
            >::empty());
        }
        Ok(())
    }
}

impl Default for FasterKv {
    /// A volatile store with the stock configuration: a 32768-slot index and
    /// a one-gibibyte log.
    fn default() -> (r: Self)
        ensures
            r.wf(),
            r.data_map() == Map::<Seq<u8>, Seq<u8>>::empty(),
            r.sessions() == Seq::<SessionRec>::empty(),
            r.snaps() == Seq::<SnapModel>::empty(),
            r.current() is None,
            !r.persistent(),
    {
        let b = FasterKvBuilder::new(32768, 1073741824);
        proof {
            assert(32768u64 & 32767u64 == 0u64) by (bit_vector);
            assert(spec_pow2(32768));
        }
        let r = b.build();
        match r {
            Ok(kv) => kv,
            Err(e) => {
                proof {
                    assert(false);
                }
                unreached()
            },
        }
    }
}

} // verus!
