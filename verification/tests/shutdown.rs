use typhon::shutdown::{Registry, Shutdown};

#[test]
fn registries_are_shut_down_in_order() {
    let mut shutdown = Shutdown::new();
    assert!(!shutdown.is_done());
    assert_eq!(shutdown.next(), Some(Registry::Runs));
    assert_eq!(shutdown.next(), Some(Registry::Evaluations));
    assert_eq!(shutdown.next(), Some(Registry::Actions));
    assert!(!shutdown.is_done());
    assert_eq!(shutdown.next(), Some(Registry::Builds));
    assert!(shutdown.is_done());
    assert_eq!(shutdown.next(), None);
    assert_eq!(shutdown.next(), None);
    assert!(shutdown.is_done());
}
