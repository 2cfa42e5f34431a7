use faster_rs::status;
use faster_rs::FasterKv;
use faster_rs::Receiver;

#[test]
fn faster_check() {
    let mut store = FasterKv::default();
    let key: u64 = 1;
    let value: u64 = 1337;

    let upsert = store.upsert(&key, &value, 1);
    assert_eq!((upsert == status::OK || upsert == status::PENDING), true);

    let rmw = store.rmw(&key, &(5u64), 1);
    assert_eq!(rmw, status::OK);

    assert!(store.size() > 0);
}

#[test]
fn faster_read_inserted_value() {
    let mut store = FasterKv::default();
    let key: u64 = 1;
    let value: u64 = 1337;

    let upsert = store.upsert(&key, &value, 1);
    assert_eq!((upsert == status::OK || upsert == status::PENDING), true);

    let (res, mut recv): (u8, Receiver<u64>) = store.read(&key, 1);
    assert_eq!(res, status::OK);
    assert_eq!(recv.recv().unwrap(), value);
}

#[test]
fn faster_read_missing_value_recv_error() {
    let mut store = FasterKv::default();
    let key: u64 = 1;

    let (res, mut recv): (u8, Receiver<u64>) = store.read(&key, 1);
    assert_eq!(res, status::NOT_FOUND);
    assert!(recv.recv().is_none());
}

#[test]
fn faster_rmw_changes_values() {
    let mut store = FasterKv::default();
    let key: u64 = 1;
    let value: u64 = 1337;
    let modification: u64 = 100;

    let upsert = store.upsert(&key, &value, 1);
    assert_eq!((upsert == status::OK || upsert == status::PENDING), true);

    let (res, mut recv): (u8, Receiver<u64>) = store.read(&key, 1);
    assert_eq!(res, status::OK);
    assert_eq!(recv.recv().unwrap(), value);

    let rmw = store.rmw(&key, &modification, 1);
    assert_eq!((rmw == status::OK || rmw == status::PENDING), true);

    let (res, mut recv): (u8, Receiver<u64>) = store.read(&key, 1);
    assert_eq!(res, status::OK);
    assert_eq!(recv.recv().unwrap(), value + modification);
}

#[test]
fn faster_rmw_without_upsert() {
    let mut store = FasterKv::default();
    let key: u64 = 1;
    let modification: u64 = 100;

    let rmw = store.rmw(&key, &modification, 1);
    assert_eq!((rmw == status::OK || rmw == status::PENDING), true);

    let (res, mut recv): (u8, Receiver<u64>) = store.read(&key, 1);
    assert_eq!(res, status::OK);
    assert_eq!(recv.recv().unwrap(), modification);
}

#[test]
fn faster_rmw_string() {
    let mut store = FasterKv::default();
    let key: u64 = 1;
    let value = String::from("Hello, ");
    let modification = String::from("World!");

    let upsert = store.upsert(&key, &value, 1);
    assert!(upsert == status::OK || upsert == status::PENDING);

    let (res, mut recv): (u8, Receiver<String>) = store.read(&key, 1);
    assert_eq!(res, status::OK);
    assert_eq!(recv.recv().unwrap(), value);

    let rmw = store.rmw(&key, &modification, 1);
    assert!(rmw == status::OK || rmw == status::PENDING);

    let (res, mut recv): (u8, Receiver<String>) = store.read(&key, 1);
    assert_eq!(res, status::OK);
    assert_eq!(recv.recv().unwrap(), String::from("Hello, World!"));
}

#[test]
fn faster_rmw_vec() {
    let mut store = FasterKv::default();
    let key: u64 = 1;
    let value: Vec<u8> = vec![0, 1, 2];
    let modification: Vec<u8> = vec![3, 4, 5];
    let modification2: Vec<u8> = vec![6, 7, 8, 9, 10];

    let upsert = store.upsert(&key, &value, 1);
    assert!(upsert == status::OK || upsert == status::PENDING);

    let (res, mut recv): (u8, Receiver<Vec<u8>>) = store.read(&key, 1);
    assert_eq!(res, status::OK);
    assert_eq!(recv.recv().unwrap(), value);

    let rmw = store.rmw(&key, &modification, 1);
    assert!(rmw == status::OK || rmw == status::PENDING);

    let (res, mut recv): (u8, Receiver<Vec<u8>>) = store.read(&key, 1);
    assert_eq!(res, status::OK);
    assert_eq!(recv.recv().unwrap(), vec![0, 1, 2, 3, 4, 5]);

    let rmw = store.rmw(&key, &modification2, 1);
    assert!(rmw == status::OK || rmw == status::PENDING);

    let (res, mut recv): (u8, Receiver<Vec<u8>>) = store.read(&key, 1);
    assert_eq!(res, status::OK);
    assert_eq!(recv.recv().unwrap(), vec![0, 1, 2, 3, 4, 5, 6, 7, 8, 9, 10]);
}

#[test]
fn faster_rmw_grow_string() {
    let mut store = FasterKv::default();
    let key = String::from("growing_string");
    let final_string = "ABCDEFGHIJKLMNOPQRSTUVWXYZ";
    for i in 0..final_string.len() {
        let letter: String = final_string.get(i..i + 1).unwrap().to_string();
        store.rmw(&key, &letter, 1);
    }

    let (res, mut recv): (u8, Receiver<String>) = store.read(&key, 1);
    assert_eq!(res, status::OK);
    assert_eq!(recv.recv().unwrap(), final_string);
}

#[test]
fn faster_delete_inserted_value() {
    let mut store = FasterKv::default();
    let key: u64 = 1;
    let value: u64 = 1337;

    let upsert = store.upsert(&key, &value, 1);
    assert_eq!((upsert == status::OK || upsert == status::PENDING), true);

    let (res, mut recv): (u8, Receiver<u64>) = store.read(&key, 1);
    assert_eq!(res, status::OK);
    assert_eq!(recv.recv().unwrap(), value);

    let delete = store.delete(&key, 1);
    assert_eq!((delete == status::OK || delete == status::PENDING), true);

    let (res, mut recv): (u8, Receiver<u64>) = store.read(&key, 1);
    assert_eq!(res, status::NOT_FOUND);
    assert!(recv.recv().is_none());
}
