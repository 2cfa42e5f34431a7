//! Builder for store handles: index slot count, log size, optional storage
//! directory (whose presence enables persistence), and eager log allocation.
use vstd::prelude::*;

use crate::faster_error::FasterError;
use crate::FasterKv;

verus! {

/// Whether `n` is a power of two.
pub open spec fn spec_pow2(n: u64) -> bool {
    n != 0 && (n & ((n - 1) as u64)) == 0
}

/// Configuration for a store handle, applied by `build`.
pub struct FasterKvBuilder {
    pub table_size: u64,
    pub log_size: u64,
    pub storage: Option<String>,
    pub pre_allocate_log: bool,
}

impl FasterKvBuilder {
    /// Start from a slot count and a log size, volatile and without eager
    /// log allocation.
    pub fn new(table_size: u64, log_size: u64) -> (r: Self)
        ensures
            r.table_size == table_size,
            r.log_size == log_size,
            r.storage is None,
            !r.pre_allocate_log,
    {
        FasterKvBuilder { table_size, log_size, storage: None, pre_allocate_log: false }
    }

    /// Name a storage directory, putting the store in persistent mode.
    pub fn with_disk(self, storage_dir: &str) -> (r: Self)
        ensures
            r.table_size == self.table_size,
            r.log_size == self.log_size,
            r.storage matches Some(s) && s@ == storage_dir@,
            r.pre_allocate_log == self.pre_allocate_log,
    {
        FasterKvBuilder {
            table_size: self.table_size,
            log_size: self.log_size,
            storage: Some(storage_dir.to_owned()),
            pre_allocate_log: self.pre_allocate_log,
        }
    }

    /// Choose whether log space is reserved eagerly.
    pub fn set_pre_allocate_log(self, pre_allocate_log: bool) -> (r: Self)
        ensures
            r.table_size == self.table_size,
            r.log_size == self.log_size,
            r.storage == self.storage,
            r.pre_allocate_log == pre_allocate_log,
    {
        FasterKvBuilder {
            table_size: self.table_size,
            log_size: self.log_size,
            storage: self.storage,
            pre_allocate_log,
        }
    }

    /// Build the store handle: empty, with no sessions and no snapshots.
    /// Fails with a configuration error when the slot count is not a power
    /// of two or the log size is zero.
    pub fn build(self) -> (r: Result<FasterKv, FasterError>)
        ensures
            (r is Ok <==> spec_pow2(self.table_size) && self.log_size > 0),
            match r {
                Ok(kv) => {
                    &&& kv.wf()
                    &&& kv.data_map() == Map::<Seq<u8>, Seq<u8>>::empty()
                    &&& kv.sessions() == Seq::<crate::SessionRec>::empty()
                    &&& kv.snaps() == Seq::<crate::SnapModel>::empty()
                    &&& kv.current() is None
                    &&& kv.persistent() == (self.storage is Some)
                    &&& kv.spec_table_size() == self.table_size
                    &&& kv.spec_log_size() == self.log_size
                    &&& kv.spec_pre_allocate_log() == self.pre_allocate_log
                },
                Err(e) => e == FasterError::InvalidType,
            },
    {
        let valid = self.table_size != 0 && (self.table_size & (self.table_size - 1)) == 0
            && self.log_size > 0;
        if !valid {
            return Err(FasterError::InvalidType);
        }
        let kv = FasterKv {
            data: Vec::new(),
            storage_dir: self.storage,
            table_size: self.table_size,
            log_size: self.log_size,
            pre_allocate_log: self.pre_allocate_log,
            sessions: Vec::new(),
            current: None,
            checkpoints: Vec::new(),
        };
        proof {
            assert(kv.snaps() =~= Seq::<crate::SnapModel>::empty());
        }
        Ok(kv)
    }
}

} // verus!
