use muxrd::notify::devices::{
    handle_prefix, lock_path_for, temp_name_for, validate_device_name, validate_push_handle,
    PushDevice, PushDeviceStore, MAX_HANDLE_LEN, MAX_NAME_LEN, MIN_HANDLE_LEN,
};

fn sample(name: &str, handle_suffix: char) -> PushDevice {
    PushDevice {
        device_name: name.to_owned(),
        push_handle: handle_suffix.to_string().repeat(MIN_HANDLE_LEN),
        platform: "android".to_owned(),
        registered_at: 1_700_000_000,
    }
}

fn names(store: &PushDeviceStore) -> Vec<String> {
    store.list().iter().map(|d| d.device_name.clone()).collect()
}

#[test]
fn upsert_list_round_trip() {
    let mut store = PushDeviceStore::at_path("/tmp/devices.json".to_owned());

    assert_eq!(*store.list(), Vec::new());

    store.upsert(sample("phone-a", 'a'));
    store.upsert(sample("phone-b", 'b'));

    let listed = store.list();
    assert_eq!(listed.len(), 2);
    assert!(listed.iter().any(|d| d.device_name == "phone-a"));
    assert!(listed.iter().any(|d| d.device_name == "phone-b"));
    assert_eq!(store.count(), 2);
}

#[test]
fn same_name_upsert_replaces_existing_entry() {
    let mut store = PushDeviceStore::new();

    store.upsert(sample("phone-a", 'a'));
    let mut refreshed = sample("phone-a", 'c');
    refreshed.registered_at = 1_700_000_999;
    store.upsert(refreshed.clone());

    let listed = store.list();
    assert_eq!(listed.len(), 1, "re-register must replace, not duplicate");
    assert_eq!(listed[0], refreshed);
}

#[test]
fn remove_by_name_and_by_handle() {
    let mut store = PushDeviceStore::new();

    store.upsert(sample("phone-a", 'a'));
    store.upsert(sample("phone-b", 'b'));

    assert!(store.remove_by_name("phone-a"));
    assert!(!store.remove_by_name("phone-a"), "already removed");
    assert_eq!(store.count(), 1);

    let b_handle = "b".repeat(MIN_HANDLE_LEN);
    assert!(store.remove_by_handle(&b_handle));
    assert_eq!(store.count(), 0);
    assert!(!store.remove_by_handle(&b_handle));
}

#[test]
fn registrations_of_distinct_devices_all_persist() {
    let mut store = PushDeviceStore::new();
    for i in 0..24 {
        store.upsert(sample(&format!("device-{i}"), 'a'));
    }
    assert_eq!(store.count(), 24);
    assert!(store.remove_by_handle(&"a".repeat(MIN_HANDLE_LEN)));
    assert_eq!(store.count(), 0, "every device with the handle is forgotten");
}

#[test]
fn replacing_keeps_the_order_of_the_others() {
    let mut store = PushDeviceStore::new();
    store.upsert(sample("a", 'a'));
    store.upsert(sample("b", 'b'));
    store.upsert(sample("c", 'c'));
    store.upsert(sample("b", 'd'));
    assert_eq!(names(&store), vec!["a", "b", "c"]);
    assert!(store.remove_by_name("b"));
    assert_eq!(names(&store), vec!["a", "c"]);
}

#[test]
fn a_loaded_registry_is_what_the_file_held() {
    let mut store = PushDeviceStore::default();
    store.load(vec![sample("x", '1'), sample("y", '2')]);
    assert_eq!(names(&store), vec!["x", "y"]);
    store.load(Vec::new());
    assert_eq!(store.count(), 0);
}

#[test]
fn the_registry_is_in_the_data_directory_unless_told_otherwise() {
    assert_eq!(
        PushDeviceStore::new().resolve_path("/data/muxrd"),
        "/data/muxrd/push_devices.json"
    );
    assert_eq!(
        PushDeviceStore::at_path("/x/y.json".to_owned()).resolve_path("/data/muxrd"),
        "/x/y.json"
    );
    assert_eq!(PushDeviceStore::new().resolve_path(""), "push_devices.json");
    assert_eq!(PushDeviceStore::new().resolve_path("/data/"), "/data/push_devices.json");
    assert_eq!(lock_path_for("/x/y.json"), "/x/y.json.lock");
    assert_eq!(temp_name_for("y.json"), ".y.json.tmp");
}

#[test]
fn validate_push_handle_accepts_valid_hex() {
    assert!(validate_push_handle(&"a".repeat(MIN_HANDLE_LEN)).is_ok());
    assert!(validate_push_handle(&"0123456789abcdef".repeat(4)).is_ok()); // 64 chars
    assert!(validate_push_handle(&"f".repeat(MAX_HANDLE_LEN)).is_ok());
}

#[test]
fn validate_push_handle_rejects_bad_input() {
    assert!(
        validate_push_handle(&"a".repeat(MIN_HANDLE_LEN - 1)).is_err(),
        "too short"
    );
    assert!(
        validate_push_handle(&"a".repeat(MAX_HANDLE_LEN + 1)).is_err(),
        "too long"
    );
    assert!(
        validate_push_handle(&"A".repeat(MIN_HANDLE_LEN)).is_err(),
        "uppercase hex rejected"
    );
    assert!(
        validate_push_handle(&"g".repeat(MIN_HANDLE_LEN)).is_err(),
        "non-hex char rejected"
    );
}

#[test]
fn validate_device_name_accepts_valid_names() {
    assert!(validate_device_name("phone").is_ok());
    assert!(validate_device_name("My Phone_2.local-01").is_ok());
    assert!(validate_device_name(&"a".repeat(MAX_NAME_LEN)).is_ok());
}

#[test]
fn validate_device_name_rejects_bad_input() {
    assert!(validate_device_name("").is_err(), "empty rejected");
    assert!(
        validate_device_name(&"a".repeat(MAX_NAME_LEN + 1)).is_err(),
        "too long"
    );
    assert!(
        validate_device_name("evil\x1b[2Jname").is_err(),
        "control chars rejected"
    );
    assert!(
        validate_device_name("name/with/slash").is_err(),
        "path-ish characters rejected"
    );
}

#[test]
fn validation_says_what_is_wrong() {
    assert_eq!(
        validate_push_handle("abc").unwrap_err(),
        "must be 32-128 characters (got 3)"
    );
    assert_eq!(
        validate_push_handle(&"é".repeat(100)).unwrap_err(),
        "must be 32-128 characters (got 200)",
        "lengths are in bytes"
    );
    assert_eq!(
        validate_push_handle(&"Z".repeat(40)).unwrap_err(),
        "must be lowercase hex ([0-9a-f])"
    );
    assert_eq!(
        validate_device_name("").unwrap_err(),
        "must be 1-64 characters (got 0)"
    );
    assert_eq!(
        validate_device_name("naïve").unwrap_err(),
        "must contain only [A-Za-z0-9 _.-]"
    );
}

#[test]
fn only_the_start_of_a_handle_is_shown() {
    assert_eq!(handle_prefix("0123456789abcdef"), "01234567");
    assert_eq!(handle_prefix("0123"), "0123");
    assert_eq!(handle_prefix(""), "");
}
