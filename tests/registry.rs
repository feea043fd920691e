use boards::registry::PublishOnce;

#[test]
fn cell_starts_empty() {
    let cell: PublishOnce<u32> = PublishOnce::new();
    assert!(!cell.is_published());
    assert_eq!(cell.borrow(), None);
}

#[test]
fn first_publication_is_kept() {
    let mut cell = PublishOnce::new();
    assert_eq!(cell.publish(17u32), Ok(()));
    assert!(cell.is_published());
    assert_eq!(cell.borrow(), Some(&17));
}

#[test]
fn second_publication_is_refused() {
    let mut cell = PublishOnce::new();
    assert_eq!(cell.publish(String::from("led")), Ok(()));
    assert_eq!(cell.publish(String::from("uart")), Err(String::from("uart")));
    assert_eq!(cell.borrow().map(|s| s.as_str()), Some("led"));
}
