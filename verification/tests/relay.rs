use usb_console::{
    received, Action, Direction, EndpointDescriptor, EndpointPair, Event, Fatal, Session, Step,
    Target, TransferType, UsbError, BUFFER_SIZE,
};

fn streaming() -> Session {
    let endpoint_out = EndpointDescriptor {
        address: 0x01,
        direction: Direction::Out,
        transfer_type: TransferType::Bulk,
    };
    let endpoint_in = EndpointDescriptor {
        address: 0x81,
        direction: Direction::In,
        transfer_type: TransferType::Bulk,
    };
    Session::Claimed {
        target: Target {
            device: 0,
            interface_number: 0,
            endpoints: EndpointPair { endpoint_out, endpoint_in },
        },
    }
}

/// Feeds a claimed session from a transfer source that returns `transfers` in
/// turn, writing to a sink what the session says to write. Returns the sink
/// and the failure that ended the run, if it ended.
fn relay(transfers: Vec<Result<Vec<u8>, UsbError>>) -> (Vec<u8>, Option<Fatal>) {
    let mut session = streaming();
    let mut sink = Vec::new();
    for transfer in transfers {
        let mut buffer = vec![0xEE_u8; BUFFER_SIZE];
        let outcome = transfer.map(|bytes| {
            buffer[..bytes.len()].copy_from_slice(&bytes);
            bytes.len()
        });
        match session.step(Event::Transferred(outcome)).action {
            Action::Write { len } => {
                sink.extend_from_slice(received(&buffer, len).unwrap());
                let next = session.step(Event::Written(Ok(())));
                assert_eq!(
                    next.action,
                    Action::Transfer { endpoint: 0x81, capacity: 0x8000, timeout_secs: 10000 }
                );
            }
            Action::Abort { fatal } => return (sink, Some(fatal)),
            other => panic!("unexpected call {:?}", other),
        }
    }
    (sink, None)
}

#[test]
fn chunks_are_written_in_order_then_the_error_surfaces() {
    let (sink, fatal) = relay(vec![
        Ok(b"boot: ".to_vec()),
        Ok(b"ok\n".to_vec()),
        Ok(vec![0x00, 0xFF, 0x7F]),
        Err(UsbError::NoDevice),
    ]);
    assert_eq!(sink, b"boot: ok\n\x00\xFF\x7F".to_vec());
    assert_eq!(fatal, Some(Fatal::Transfer(UsbError::NoDevice)));
}

#[test]
fn output_is_the_concatenation_of_the_transfers() {
    let chunks: Vec<Vec<u8>> = vec![
        vec![1, 2, 3],
        vec![],
        vec![4],
        (0..=255).collect(),
        vec![5, 5, 5, 5],
    ];
    let (sink, fatal) = relay(chunks.iter().cloned().map(Ok).collect());
    assert_eq!(sink, chunks.concat());
    assert_eq!(fatal, None);
}

#[test]
fn nothing_is_written_after_the_first_failure() {
    let (sink, fatal) =
        relay(vec![Ok(vec![1, 2]), Err(UsbError::Timeout), Ok(vec![3, 4]), Err(UsbError::Io)]);
    assert_eq!(sink, vec![1, 2]);
    assert_eq!(fatal, Some(Fatal::Transfer(UsbError::Timeout)));
}

#[test]
fn immediate_failure_writes_nothing() {
    let (sink, fatal) = relay(vec![Err(UsbError::Pipe)]);
    assert_eq!(sink, Vec::<u8>::new());
    assert_eq!(fatal, Some(Fatal::Transfer(UsbError::Pipe)));
}

#[test]
fn full_buffer_is_written_whole() {
    let chunk: Vec<u8> = (0..BUFFER_SIZE).map(|i| (i % 251) as u8).collect();
    let (sink, fatal) = relay(vec![Ok(chunk.clone()), Ok(vec![9])]);
    assert_eq!(sink.len(), BUFFER_SIZE + 1);
    assert_eq!(&sink[..BUFFER_SIZE], &chunk[..]);
    assert_eq!(sink[BUFFER_SIZE], 9);
    assert_eq!(fatal, None);
}

#[test]
fn empty_transfer_is_written_as_nothing() {
    let mut session = streaming();
    let step = session.step(Event::Transferred(Ok(0)));
    assert_eq!(step, Step { notice: None, action: Action::Write { len: 0 } });
    assert_eq!(received(&[7, 8, 9], 0), Some(&[][..]));
}

#[test]
fn count_beyond_the_buffer_is_an_overflow() {
    let mut session = streaming();
    let step = session.step(Event::Transferred(Ok(BUFFER_SIZE + 1)));
    assert_eq!(step.action, Action::Abort { fatal: Fatal::Transfer(UsbError::Overflow) });
    assert_eq!(session, Session::Failed { fatal: Fatal::Transfer(UsbError::Overflow) });
}

#[test]
fn count_of_a_full_buffer_is_accepted() {
    let mut session = streaming();
    let step = session.step(Event::Transferred(Ok(BUFFER_SIZE)));
    assert_eq!(step.action, Action::Write { len: 0x8000 });
}

#[test]
fn failed_write_ends_the_session() {
    let mut session = streaming();
    session.step(Event::Transferred(Ok(4)));
    let step = session.step(Event::Written(Err(())));
    assert_eq!(step.action, Action::Abort { fatal: Fatal::Output });
    assert_eq!(session, Session::Failed { fatal: Fatal::Output });
}

#[test]
fn transfer_is_not_repeated_before_the_write_is_done() {
    let mut session = streaming();
    session.step(Event::Transferred(Ok(4)));
    let step = session.step(Event::Transferred(Ok(4)));
    assert_eq!(step.action, Action::Abort { fatal: Fatal::UnexpectedEvent });
}

#[test]
fn received_is_the_prefix_of_the_buffer() {
    let buffer = [10u8, 20, 30, 40];
    assert_eq!(received(&buffer, 0), Some(&buffer[..0]));
    assert_eq!(received(&buffer, 1), Some(&[10u8][..]));
    assert_eq!(received(&buffer, 3), Some(&[10u8, 20, 30][..]));
    assert_eq!(received(&buffer, 4), Some(&buffer[..]));
}

#[test]
fn received_refuses_more_than_the_buffer_holds() {
    let buffer = [10u8, 20, 30, 40];
    assert_eq!(received(&buffer, 5), None);
    assert_eq!(received(&[], 1), None);
}
