use paas::{get_process, GetError, ProcessId, RpcCode, Store, UserId};

#[test]
fn test_store_get_not_found() {
    let uid = UserId("alice".into());
    let store: Store<()> = Store::new();
    let pid = ProcessId::new_v4();
    assert!(matches!(store.get(pid, &uid), Err(GetError::NotFound)));
}

#[test]
fn test_store_get_unauthorized() {
    let uid1 = UserId("alice".into());
    let uid2 = UserId("eve".into());
    let mut store: Store<()> = Store::new();
    let pid = store.insert(&uid1, ()).expect("fresh id");
    assert!(matches!(store.get(pid, &uid2), Err(GetError::NotFound)))
}

#[test]
fn test_store_get_authorized() {
    let uid = UserId("alice".into());
    let mut store: Store<()> = Store::new();
    let pid = store.insert(&uid, ()).expect("fresh id");
    assert!(store.get(pid, &uid).is_ok())
}

#[test]
fn store_hands_back_the_stored_value() {
    let uid = UserId("alice".into());
    let mut store: Store<String> = Store::new();
    let pid = store.insert(&uid, "echo".to_string()).expect("fresh id");
    let got = store.get(pid, &uid).unwrap();
    assert_eq!(got.as_str(), "echo");
}

#[test]
fn insert_at_refuses_a_taken_id() {
    let alice = UserId("alice".into());
    let eve = UserId("eve".into());
    let mut store: Store<u32> = Store::new();
    assert!(store.insert_at(ProcessId(7), &alice, 1));
    assert!(!store.insert_at(ProcessId(7), &eve, 2));
    assert_eq!(*store.get(ProcessId(7), &alice).unwrap(), 1);
    assert!(matches!(store.get(ProcessId(7), &eve), Err(GetError::NotFound)));
}

#[test]
fn other_user_sees_not_found_for_existing_id() {
    let client_a = UserId("client1".into());
    let client_b = UserId("client2".into());
    let mut store: Store<&str> = Store::new();
    let x = store.insert(&client_a, "echo").unwrap();
    let bytes = x.to_vec();
    assert!(get_process(&store, Some(&bytes), &client_a).is_ok());
    assert_eq!(get_process(&store, Some(&bytes), &client_b).err(), Some(RpcCode::NotFound));
    let unknown = ProcessId(x.0 ^ 1).to_vec();
    assert_eq!(get_process(&store, Some(&unknown), &client_a).err(), Some(RpcCode::NotFound));
}

#[test]
fn malformed_or_missing_id_is_invalid_argument() {
    let uid = UserId("alice".into());
    let store: Store<()> = Store::new();
    assert_eq!(get_process(&store, None, &uid).err(), Some(RpcCode::InvalidArgument));
    let short = vec![1u8, 2, 3];
    assert_eq!(get_process(&store, Some(&short), &uid).err(), Some(RpcCode::InvalidArgument));
}

#[test]
fn get_error_maps_to_not_found() {
    assert_eq!(GetError::NotFound.code(), RpcCode::NotFound);
}

#[test]
fn insert_into_empty_store_succeeds() {
    let uid = UserId("alice".into());
    let mut store: Store<u8> = Store::new();
    let pid = store.insert(&uid, 5).expect("an empty store holds no id to collide with");
    assert_eq!(*store.get(pid, &uid).unwrap(), 5);
    assert_eq!(ProcessId::from_slice(&pid.to_vec()).unwrap(), pid);
}
