use switchlink::transport::{
    classify, find_switch, select_endpoints, DeviceId, Direction, Endpoint, EndpointError,
    Endpoints, Recovery, TimeoutClass, TransportError, RESET_SETTLE_MILLIS, SWITCH_CONFIGURATION,
    SWITCH_INTERFACE, SWITCH_PRODUCT_ID, SWITCH_VENDOR_ID, TIMEOUT_LONG_MILLIS, TIMEOUT_MILLIS,
};

fn device(vendor_id: u16, product_id: u16) -> DeviceId {
    DeviceId { vendor_id, product_id }
}

fn endpoint(address: u8, direction: Direction) -> Endpoint {
    Endpoint { address, direction }
}

#[test]
fn transport_constants() {
    assert_eq!(SWITCH_VENDOR_ID, 0x057e);
    assert_eq!(SWITCH_PRODUCT_ID, 0x3000);
    assert_eq!(SWITCH_INTERFACE, 0);
    assert_eq!(SWITCH_CONFIGURATION, 1);
    assert_eq!(RESET_SETTLE_MILLIS, 500);
    assert_eq!(TIMEOUT_MILLIS, 100);
    assert_eq!(TIMEOUT_LONG_MILLIS, 30_000);
    assert_eq!(TimeoutClass::Short.millis(), 100);
    assert_eq!(TimeoutClass::Long.millis(), 30_000);
}

#[test]
fn switch_is_known_by_vendor_and_product() {
    assert!(device(0x057e, 0x3000).is_switch());
    assert!(!device(0x057e, 0x2000).is_switch());
    assert!(!device(0x057e, 0x201d).is_switch());
    assert!(!device(0x3000, 0x057e).is_switch());
    assert!(!device(0, 0x3000).is_switch());
}

#[test]
fn first_switch_in_the_enumeration_is_chosen() {
    let devices = vec![
        device(0x1d6b, 0x0002),
        device(0x057e, 0x2000),
        device(0x057e, 0x3000),
        device(0x8087, 0x0024),
        device(0x057e, 0x3000),
    ];
    assert_eq!(find_switch(&devices), Some(2));
    assert_eq!(find_switch(&vec![device(0x057e, 0x3000)]), Some(0));
}

#[test]
fn no_switch_is_found_where_none_is_plugged_in() {
    assert_eq!(find_switch(&vec![]), None);
    assert_eq!(find_switch(&vec![device(0x1d6b, 2), device(0x057e, 0x2000)]), None);
}

#[test]
fn first_endpoint_of_each_direction_is_chosen() {
    let endpoints = vec![
        endpoint(0x81, Direction::In),
        endpoint(0x01, Direction::Out),
        endpoint(0x82, Direction::In),
        endpoint(0x02, Direction::Out),
    ];
    assert_eq!(
        select_endpoints(&endpoints),
        Ok(Endpoints { in_endpoint: 0x81, out_endpoint: 0x01 })
    );
    let endpoints = vec![
        endpoint(0x03, Direction::Out),
        endpoint(0x04, Direction::Out),
        endpoint(0x85, Direction::In),
    ];
    assert_eq!(
        select_endpoints(&endpoints),
        Ok(Endpoints { in_endpoint: 0x85, out_endpoint: 0x03 })
    );
}

#[test]
fn missing_endpoint_is_reported() {
    assert_eq!(select_endpoints(&vec![]), Err(EndpointError::InEndpointNotFound));
    assert_eq!(
        select_endpoints(&vec![endpoint(0x01, Direction::Out)]),
        Err(EndpointError::InEndpointNotFound)
    );
    assert_eq!(
        select_endpoints(&vec![endpoint(0x81, Direction::In)]),
        Err(EndpointError::OutEndpointNotFound)
    );
}

#[test]
fn each_kind_of_failure_has_its_recovery() {
    assert_eq!(classify(TransportError::Timeout), Recovery::Resume);
    assert_eq!(classify(TransportError::Pipe), Recovery::Retry);
    assert_eq!(classify(TransportError::Io), Recovery::Retry);
    assert_eq!(classify(TransportError::NoDevice), Recovery::Reconnect);
    assert_eq!(classify(TransportError::Other), Recovery::Retry);
}
