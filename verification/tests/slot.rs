use credential_rotation::slot::OpaqueData;

#[test]
fn default_slot_is_empty() {
    assert_eq!(OpaqueData::default(), OpaqueData::Empty);
    assert!(OpaqueData::default().is_empty());
}

#[test]
fn take_hands_out_and_clears() {
    let mut slot = OpaqueData::Login(vec![1, 2, 3]);
    assert!(!slot.is_empty());
    assert_eq!(slot.take(), OpaqueData::Login(vec![1, 2, 3]));
    assert_eq!(slot, OpaqueData::Empty);
    assert_eq!(slot.take(), OpaqueData::Empty);
    assert_eq!(slot, OpaqueData::Empty);
}

#[test]
fn store_fills_an_empty_slot() {
    let mut slot = OpaqueData::Empty;
    assert!(slot.store(OpaqueData::Registration(vec![9])));
    assert_eq!(slot, OpaqueData::Registration(vec![9]));
}

#[test]
fn store_refuses_an_occupied_slot() {
    let mut slot = OpaqueData::Login(vec![1]);
    assert!(!slot.store(OpaqueData::Registration(vec![2])));
    assert_eq!(slot, OpaqueData::Login(vec![1]));
}
