use muxrd::multiplexer::backend::{space_unsupported_ack, BackendKind, BackendSet};

#[test]
fn a_set_keeps_its_order_and_finds_by_kind() {
    let set = BackendSet::new(vec![
        (BackendKind::Zellij, "z"),
        (BackendKind::Herdr, "h"),
        (BackendKind::Herdr, "h2"),
    ]);
    assert_eq!(*set.primary(), "z");
    assert_eq!(set.get(BackendKind::Herdr), Some(&"h"), "the first of its kind");
    assert_eq!(set.len(), 3);
    assert!(!set.is_empty());
    assert_eq!(
        set.kinds(),
        vec![BackendKind::Zellij, BackendKind::Herdr, BackendKind::Herdr]
    );
    assert_eq!(set.iter()[1], (BackendKind::Herdr, &"h"));
}

#[test]
fn a_single_set_has_one_backend() {
    let set = BackendSet::single(BackendKind::Herdr, 5u8);
    assert_eq!(set.len(), 1);
    assert_eq!(*set.primary(), 5);
    assert_eq!(set.get(BackendKind::Zellij), None);
}

#[test]
fn spaces_are_refused_where_there_are_none() {
    let ack = space_unsupported_ack("create_space");
    assert!(!ack.ok);
    assert_eq!(
        ack.error.as_deref(),
        Some("create_space: spaces are not supported on this backend")
    );
}
