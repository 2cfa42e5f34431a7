use faster_rs::status;
use faster_rs::FasterError;
use faster_rs::FasterKv;
use faster_rs::FasterKvBuilder;
use faster_rs::Receiver;

#[test]
fn builder_rejects_bad_table_size() {
    assert_eq!(
        FasterKvBuilder::new(1000, 1024).build().err(),
        Some(FasterError::InvalidType)
    );
    assert_eq!(
        FasterKvBuilder::new(0, 1024).build().err(),
        Some(FasterError::InvalidType)
    );
    assert_eq!(
        FasterKvBuilder::new(1024, 0).build().err(),
        Some(FasterError::InvalidType)
    );
    assert!(FasterKvBuilder::new(1024, 1024).build().is_ok());
}

#[test]
fn checkpoint_on_volatile_store_is_configuration_error() {
    let mut store = FasterKv::default();
    assert_eq!(store.checkpoint().err(), Some(FasterError::InvalidType));
    assert_eq!(
        store.checkpoint_index().err(),
        Some(FasterError::InvalidType)
    );
    assert_eq!(
        store.checkpoint_hybrid_log().err(),
        Some(FasterError::InvalidType)
    );
    assert_eq!(
        store.recover(0, 0).err(),
        Some(FasterError::InvalidType)
    );
    assert_eq!(store.clean_storage().err(), Some(FasterError::InvalidType));
}

#[test]
fn checkpoint_then_recover_restores_state() {
    let mut store = FasterKvBuilder::new(1 << 10, 1 << 20)
        .with_disk("checkpoint_recover_storage")
        .set_pre_allocate_log(true)
        .build()
        .unwrap();
    let session = store.start_session();
    store.upsert(&1u64, &10u64, 0);
    store.upsert(&2u64, &20u64, 1);
    let cp = store.checkpoint().unwrap();
    assert!(cp.checked);

    store.upsert(&3u64, &30u64, 2);
    store.delete(&1u64, 3);
    assert_eq!(store.size(), 2);
    store.stop_session();

    let rec = store.recover(cp.token, cp.token).unwrap();
    assert_eq!(rec.status, status::OK);
    assert_eq!(rec.session_ids, vec![session]);
    assert_eq!(store.size(), 2);

    let persisted = store.continue_session(session);
    assert_eq!(persisted, 1);

    let (res, mut recv): (u8, Receiver<u64>) = store.read(&1u64, 2);
    assert_eq!(res, status::OK);
    assert_eq!(recv.recv().unwrap(), 10);
    let (res, mut recv): (u8, Receiver<u64>) = store.read(&3u64, 2);
    assert_eq!(res, status::NOT_FOUND);
    assert!(recv.recv().is_none());
}

#[test]
fn recover_with_unknown_token_is_recovery_error() {
    let mut store = FasterKvBuilder::new(64, 1024)
        .with_disk("unknown_token_storage")
        .build()
        .unwrap();
    assert_eq!(store.recover(0, 0).err(), Some(FasterError::RecoveryError));
    let cp = store.checkpoint().unwrap();
    assert_eq!(
        store.recover(cp.token + 1, cp.token).err(),
        Some(FasterError::RecoveryError)
    );
    assert!(store.recover(cp.token, cp.token).is_ok());
}

#[test]
fn index_and_log_checkpoints_pair_for_recovery() {
    let mut store = FasterKvBuilder::new(64, 1024)
        .with_disk("split_checkpoint_storage")
        .build()
        .unwrap();
    store.upsert(&7u64, &70u64, 0);
    let index_cp = store.checkpoint_index().unwrap();
    let log_cp = store.checkpoint_hybrid_log().unwrap();

    // An index-only token cannot serve as the hybrid-log token, nor the
    // other way round.
    assert_eq!(
        store.recover(index_cp.token, index_cp.token).err(),
        Some(FasterError::RecoveryError)
    );
    assert_eq!(
        store.recover(log_cp.token, log_cp.token).err(),
        Some(FasterError::RecoveryError)
    );
    let rec = store.recover(index_cp.token, log_cp.token).unwrap();
    assert_eq!(rec.status, status::OK);
    assert_eq!(store.size(), 1);
}

#[test]
fn continued_session_replay_is_idempotent() {
    let mut store = FasterKvBuilder::new(64, 1024)
        .with_disk("replay_storage")
        .build()
        .unwrap();
    let session = store.start_session();
    store.rmw(&1u64, &5u64, 0);
    store.rmw(&1u64, &5u64, 1);
    let cp = store.checkpoint().unwrap();
    store.stop_session();

    let rec = store.recover(cp.token, cp.token).unwrap();
    let persisted = store.continue_session(rec.session_ids[0]);
    assert_eq!(persisted, 1);
    assert_eq!(rec.session_ids[0], session);

    // Replaying the already-durable serial numbers must not duplicate the
    // increments.
    store.rmw(&1u64, &5u64, 0);
    store.rmw(&1u64, &5u64, 1);
    let (res, mut recv): (u8, Receiver<u64>) = store.read(&1u64, 2);
    assert_eq!(res, status::OK);
    assert_eq!(recv.recv().unwrap(), 10);

    // A fresh serial number past the persisted count takes effect.
    store.rmw(&1u64, &5u64, 2);
    let (res, mut recv): (u8, Receiver<u64>) = store.read(&1u64, 3);
    assert_eq!(res, status::OK);
    assert_eq!(recv.recv().unwrap(), 15);
}

#[test]
fn populate_checkpoint_recover_counts_match() {
    let num_ops: u64 = 4096;
    let num_keys: u64 = 256;
    let checkpoint_interval: u64 = 1024;
    let complete_pending_interval: u64 = 512;
    let refresh_interval: u64 = 64;

    let mut store = FasterKvBuilder::new(1 << 10, 1 << 20)
        .with_disk("sum_store_storage")
        .set_pre_allocate_log(true)
        .build()
        .unwrap();
    let session = store.start_session();
    let mut last_token = None;
    for i in 0..num_ops {
        store.rmw(&(i % num_keys), &1u64, i);
        if i % checkpoint_interval == 0 {
            last_token = Some(store.checkpoint().unwrap().token);
        }
        if i % complete_pending_interval == 0 {
            store.complete_pending(false);
        } else if i % refresh_interval == 0 {
            store.refresh();
        }
    }
    store.complete_pending(true);
    store.stop_session();

    let token = last_token.unwrap();
    let rec = store.recover(token, token).unwrap();
    assert_eq!(rec.session_ids, vec![session]);
    let persisted = store.continue_session(session);
    assert_eq!(persisted, 3072);

    let mut expected = vec![0u64; num_keys as usize];
    for i in 0..(persisted + 1) {
        expected[(i % num_keys) as usize] += 1;
    }
    for k in 0..num_keys {
        let (res, mut recv): (u8, Receiver<u64>) = store.read(&k, persisted + 1);
        assert_eq!(res, status::OK);
        assert_eq!(recv.recv().unwrap(), expected[k as usize]);
    }
}

#[test]
fn clean_storage_discards_snapshots() {
    let mut store = FasterKvBuilder::new(64, 1024)
        .with_disk("clean_storage_dir")
        .build()
        .unwrap();
    let cp = store.checkpoint().unwrap();
    assert!(store.clean_storage().is_ok());
    assert_eq!(
        store.recover(cp.token, cp.token).err(),
        Some(FasterError::RecoveryError)
    );
}

#[test]
fn grow_index_doubles_table_size() {
    let mut store = FasterKv::default();
    assert!(store.grow_index());
    store.dump_distribution();
}

#[test]
fn size_counts_live_keys() {
    let mut store = FasterKv::default();
    assert_eq!(store.size(), 0);
    store.upsert(&1u64, &1u64, 0);
    store.upsert(&2u64, &2u64, 1);
    store.upsert(&2u64, &3u64, 2);
    assert_eq!(store.size(), 2);
    store.delete(&1u64, 3);
    assert_eq!(store.size(), 1);
}
