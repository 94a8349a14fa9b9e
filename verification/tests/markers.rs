use musicbrainz::entities::OnRequest;

#[test]
fn marker_of_an_optional_payload() {
    // toggle off: never anything, whatever the payload
    assert_eq!(OnRequest::from_option(Some(5), false), OnRequest::NotRequested);
    assert_eq!(OnRequest::<u8>::from_option(None, false), OnRequest::NotRequested);
    // toggle on
    assert_eq!(OnRequest::<u8>::from_option(None, true), OnRequest::NotAvailable);
    assert_eq!(OnRequest::from_option(Some(5), true), OnRequest::Present(5));
}

#[test]
fn marker_of_a_payload() {
    assert_eq!(OnRequest::from_value(5, true), OnRequest::Present(5));
    assert_eq!(OnRequest::from_value(5, false), OnRequest::NotRequested);
}

#[test]
fn absent_states_differ() {
    assert_ne!(OnRequest::<u8>::NotAvailable, OnRequest::NotRequested);
    assert_ne!(OnRequest::<u8>::NotRequested, OnRequest::NotAvailable);
    assert_ne!(OnRequest::Present(0), OnRequest::NotRequested);
    assert_ne!(OnRequest::Present(0), OnRequest::NotAvailable);
    assert_ne!(OnRequest::NotRequested, OnRequest::Present(0));
    assert_ne!(OnRequest::Present(1), OnRequest::Present(2));
    assert_eq!(OnRequest::Present("a".to_string()), OnRequest::Present("a".to_string()));
    assert_eq!(OnRequest::<u8>::NotAvailable, OnRequest::NotAvailable);
}

#[test]
fn unwrap_gives_the_payload() {
    assert_eq!(OnRequest::Present(7).unwrap(), 7);
    assert!(OnRequest::Present(7).is_some());
    assert!(!OnRequest::<u8>::NotAvailable.is_some());
    assert!(!OnRequest::<u8>::NotRequested.is_some());
    let cloned = OnRequest::Present("x".to_string()).clone();
    assert_eq!(cloned.unwrap(), "x");
}
