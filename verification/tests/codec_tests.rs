use faster_rs::status;
use faster_rs::CompletionSlot;
use faster_rs::FasterKv;
use faster_rs::FasterValue;
use faster_rs::Receiver;

#[test]
fn u64_encoding_is_little_endian() {
    let v: u64 = 1337;
    assert_eq!(
        FasterValue::encode(&v),
        vec![0x39, 0x05, 0, 0, 0, 0, 0, 0]
    );
    assert_eq!(<u64 as FasterValue>::decode(&[0x39, 0x05, 0, 0, 0, 0, 0, 0]), Some(1337));
    assert_eq!(<u64 as FasterValue>::decode(&[1, 2, 3]), None);
}

#[test]
fn string_encoding_is_utf8() {
    let s = String::from("Hej, värld");
    let bytes = FasterValue::encode(&s);
    assert_eq!(bytes, s.as_bytes().to_vec());
    assert_eq!(<String as FasterValue>::decode(&bytes), Some(s));
    // An invalid UTF-8 sequence does not decode.
    assert_eq!(<String as FasterValue>::decode(&[0xff, 0xfe]), None);
}

#[test]
fn byte_vec_encoding_is_identity() {
    let v: Vec<u8> = vec![9, 8, 7];
    assert_eq!(FasterValue::encode(&v), v);
    assert_eq!(<Vec<u8> as FasterValue>::decode(&[9, 8, 7]), Some(v));
}

#[test]
fn rmw_callback_reports_required_size() {
    let modification = <u64 as FasterValue>::encode(&5);
    let mut dst: Vec<u8> = Vec::new();

    // Probe with no capacity: the size comes back, nothing is written.
    let size = faster_rs::rmw_callback::<u64>(None, &modification, &mut dst, 0).unwrap();
    assert_eq!(size, 8);
    assert!(dst.is_empty());

    // Retry with enough capacity: the merged encoding is written.
    let size = faster_rs::rmw_callback::<u64>(None, &modification, &mut dst, size).unwrap();
    assert_eq!(size, 8);
    assert_eq!(<u64 as FasterValue>::decode(&dst), Some(5));

    let current = <u64 as FasterValue>::encode(&1000);
    let size = faster_rs::rmw_callback::<u64>(Some(&current), &modification, &mut dst, 8).unwrap();
    assert_eq!(size, 8);
    assert_eq!(<u64 as FasterValue>::decode(&dst), Some(1005));

    // Undecodable stored bytes cannot be merged.
    let garbage: Vec<u8> = vec![1, 2, 3];
    assert_eq!(
        faster_rs::rmw_callback::<u64>(Some(&garbage), &modification, &mut dst, 8),
        None
    );
}

#[test]
fn rmw_on_mismatched_type_reports_corruption() {
    let mut store = FasterKv::default();
    store.upsert(&1u64, &String::from("text"), 0);
    // The stored bytes are not a u64 encoding, so a numeric merge cannot run.
    assert_eq!(store.rmw(&1u64, &5u64, 1), status::CORRUPTION);
    let (res, mut recv): (u8, Receiver<String>) = store.read(&1u64, 2);
    assert_eq!(res, status::OK);
    assert_eq!(recv.recv().unwrap(), "text");
}

#[test]
fn completion_slot_delivers_at_most_once() {
    let mut slot: CompletionSlot<u64> = CompletionSlot::new();
    slot.send(42);
    let mut recv = slot.into_receiver();
    assert_eq!(recv.recv(), Some(42));
    assert_eq!(recv.recv(), None);
    assert_eq!(recv.recv(), None);

    let mut closed: CompletionSlot<u64> = CompletionSlot::new();
    closed.close();
    let mut recv = closed.into_receiver();
    assert_eq!(recv.recv(), None);
}

#[test]
fn read_callback_sends_only_on_success() {
    let value_bytes = <u64 as FasterValue>::encode(&7);

    let mut slot: CompletionSlot<u64> = CompletionSlot::new();
    faster_rs::read_callback::<u64>(&mut slot, status::OK, &value_bytes);
    assert_eq!(slot.into_receiver().recv(), Some(7));

    let mut slot: CompletionSlot<u64> = CompletionSlot::new();
    faster_rs::read_callback::<u64>(&mut slot, status::NOT_FOUND, &value_bytes);
    assert_eq!(slot.into_receiver().recv(), None);

    let mut slot: CompletionSlot<u64> = CompletionSlot::new();
    faster_rs::read_callback::<u64>(&mut slot, status::OK, &[1, 2]);
    assert_eq!(slot.into_receiver().recv(), None);
}

#[test]
fn repeated_reads_each_get_one_outcome() {
    let mut store = FasterKv::default();
    store.upsert(&1u64, &11u64, 0);
    let mut receivers: Vec<Receiver<u64>> = Vec::new();
    for i in 0..3 {
        let (res, recv) = store.read(&1u64, i);
        assert_eq!(res, status::OK);
        receivers.push(recv);
    }
    for recv in receivers.iter_mut() {
        assert_eq!(recv.recv(), Some(11));
        assert_eq!(recv.recv(), None);
    }
}

#[test]
fn upsert_then_rmw_then_read_adds_up() {
    let mut store = FasterKv::default();
    store.upsert(&1u64, &1000u64, 0);
    store.rmw(&1u64, &5u64, 1);
    let (res, mut recv): (u8, Receiver<u64>) = store.read(&1u64, 2);
    assert_eq!(res, status::OK);
    assert_eq!(recv.recv().unwrap(), 1005);
}

#[test]
fn sequential_append_merges_concatenate() {
    let mut store = FasterKv::default();
    store.rmw(&1u64, &vec![0u8, 1, 2], 0);
    store.rmw(&1u64, &vec![3u8, 4, 5], 1);
    store.rmw(&1u64, &vec![6u8, 7, 8, 9, 10], 2);
    let (res, mut recv): (u8, Receiver<Vec<u8>>) = store.read(&1u64, 3);
    assert_eq!(res, status::OK);
    assert_eq!(recv.recv().unwrap(), vec![0, 1, 2, 3, 4, 5, 6, 7, 8, 9, 10]);
}

#[test]
fn numeric_add_merge_wraps() {
    let mut store = FasterKv::default();
    store.upsert(&1u64, &u64::MAX, 0);
    store.rmw(&1u64, &2u64, 1);
    let (res, mut recv): (u8, Receiver<u64>) = store.read(&1u64, 2);
    assert_eq!(res, status::OK);
    assert_eq!(recv.recv().unwrap(), 1);
}
