use usb_console::{
    validate_endpoints, Direction, EndpointDescriptor, EndpointError, EndpointPair,
    InterfaceDescriptor, TransferType,
};

fn endpoint(address: u8, direction: Direction, transfer_type: TransferType) -> EndpointDescriptor {
    EndpointDescriptor { address, direction, transfer_type }
}

fn bulk_out() -> EndpointDescriptor {
    endpoint(0x01, Direction::Out, TransferType::Bulk)
}

fn bulk_in() -> EndpointDescriptor {
    endpoint(0x81, Direction::In, TransferType::Bulk)
}

fn with_endpoints(endpoints: Vec<EndpointDescriptor>) -> InterfaceDescriptor {
    InterfaceDescriptor { interface_number: 0, class_code: 0xFF, sub_class_code: 0x00, endpoints }
}

#[test]
fn bulk_out_then_bulk_in_is_valid() {
    let pair = validate_endpoints(&with_endpoints(vec![bulk_out(), bulk_in()]));
    assert_eq!(pair, Ok(EndpointPair { endpoint_out: bulk_out(), endpoint_in: bulk_in() }));
    assert_eq!(pair.unwrap().endpoint_in.address, 0x81);
    assert_eq!(pair.unwrap().endpoint_out.address, 0x01);
}

#[test]
fn third_endpoint_is_rejected() {
    let extra = endpoint(0x82, Direction::In, TransferType::Interrupt);
    assert_eq!(
        validate_endpoints(&with_endpoints(vec![bulk_out(), bulk_in(), extra])),
        Err(EndpointError::ExtraEndpoint)
    );
}

#[test]
fn reversed_endpoints_are_rejected() {
    assert_eq!(
        validate_endpoints(&with_endpoints(vec![bulk_in(), bulk_out()])),
        Err(EndpointError::WrongDirection)
    );
}

#[test]
fn single_endpoint_is_rejected() {
    assert_eq!(
        validate_endpoints(&with_endpoints(vec![bulk_out()])),
        Err(EndpointError::MissingEndpoint)
    );
    assert_eq!(
        validate_endpoints(&with_endpoints(vec![bulk_in()])),
        Err(EndpointError::MissingEndpoint)
    );
}

#[test]
fn no_endpoints_are_rejected() {
    assert_eq!(validate_endpoints(&with_endpoints(vec![])), Err(EndpointError::MissingEndpoint));
}

#[test]
fn two_out_endpoints_are_rejected() {
    let second = endpoint(0x02, Direction::Out, TransferType::Bulk);
    assert_eq!(
        validate_endpoints(&with_endpoints(vec![bulk_out(), second])),
        Err(EndpointError::WrongDirection)
    );
}

#[test]
fn two_in_endpoints_are_rejected() {
    let first = endpoint(0x82, Direction::In, TransferType::Bulk);
    assert_eq!(
        validate_endpoints(&with_endpoints(vec![first, bulk_in()])),
        Err(EndpointError::WrongDirection)
    );
}

#[test]
fn interrupt_out_endpoint_is_rejected() {
    let out = endpoint(0x01, Direction::Out, TransferType::Interrupt);
    assert_eq!(
        validate_endpoints(&with_endpoints(vec![out, bulk_in()])),
        Err(EndpointError::WrongTransferType)
    );
}

#[test]
fn non_bulk_in_endpoint_is_rejected() {
    for transfer_type in [TransferType::Control, TransferType::Isochronous, TransferType::Interrupt]
    {
        let input = endpoint(0x81, Direction::In, transfer_type);
        assert_eq!(
            validate_endpoints(&with_endpoints(vec![bulk_out(), input])),
            Err(EndpointError::WrongTransferType)
        );
    }
}

#[test]
fn count_is_checked_before_direction_and_direction_before_type() {
    let out = endpoint(0x01, Direction::Out, TransferType::Control);
    let input = endpoint(0x81, Direction::In, TransferType::Control);
    assert_eq!(
        validate_endpoints(&with_endpoints(vec![input, out, input])),
        Err(EndpointError::ExtraEndpoint)
    );
    assert_eq!(
        validate_endpoints(&with_endpoints(vec![input, out])),
        Err(EndpointError::WrongDirection)
    );
    assert_eq!(
        validate_endpoints(&with_endpoints(vec![out, input])),
        Err(EndpointError::WrongTransferType)
    );
}

#[test]
fn addresses_play_no_part() {
    let out = endpoint(0x85, Direction::Out, TransferType::Bulk);
    let input = endpoint(0x02, Direction::In, TransferType::Bulk);
    assert_eq!(
        validate_endpoints(&with_endpoints(vec![out, input])),
        Ok(EndpointPair { endpoint_out: out, endpoint_in: input })
    );
}
