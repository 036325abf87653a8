use iceberg_scan::physical_plan::bridge::{
    read_runtime, BridgeAction, BridgeEvent, BridgeState, ReadRuntime, CHANNEL_BUFFER_SIZE,
};

/// Runs the forwarding task against a reader and a receiver that takes `accepts` items.
fn forward(reader: Result<Vec<u32>, u32>, accepts: usize) -> Vec<u32> {
    let mut state = BridgeState::Opening;
    let mut sent = Vec::new();
    let (event, items) = match reader {
        Ok(items) => (BridgeEvent::Opened, items),
        Err(error) => (BridgeEvent::OpenFailed(error), vec![]),
    };
    let mut items = items.into_iter();
    let mut action = state.step(event);
    loop {
        let event = match action {
            BridgeAction::ReadNext => match items.next() {
                Some(item) => BridgeEvent::Item(item),
                None => BridgeEvent::EndOfStream,
            },
            BridgeAction::Send(item) => {
                sent.push(item);
                if sent.len() <= accepts {
                    BridgeEvent::Sent
                } else {
                    BridgeEvent::ReceiverDropped
                }
            }
            BridgeAction::Stop => break,
        };
        action = state.step(event);
    }
    assert_eq!(state, BridgeState::Closed);
    sent
}

#[test]
fn all_items_are_forwarded_in_order() {
    assert_eq!(forward(Ok(vec![1, 2, 3]), 100), vec![1, 2, 3]);
    assert_eq!(forward(Ok(vec![1, 2, 3]), 3), vec![1, 2, 3]);
    assert_eq!(forward(Ok(vec![]), 3), Vec::<u32>::new());
}

#[test]
fn a_dropped_receiver_stops_the_task() {
    assert_eq!(forward(Ok(vec![1, 2, 3, 4]), 1), vec![1, 2]);
    assert_eq!(forward(Ok(vec![1, 2, 3, 4]), 0), vec![1]);
}

#[test]
fn a_reader_that_cannot_be_opened_sends_its_error_alone() {
    assert_eq!(forward(Err(7), 0), vec![7]);
    assert_eq!(forward(Err(7), 5), vec![7]);
}

#[test]
fn reads_run_on_the_attached_runtime() {
    assert!(matches!(read_runtime(&None), ReadRuntime::Caller));
    let runtime = tokio::runtime::Builder::new_current_thread().build().unwrap();
    let attached = Some(runtime.handle().clone());
    match read_runtime(&attached) {
        ReadRuntime::Io {
            handle,
            channel_capacity,
        } => {
            assert_eq!(channel_capacity, 32);
            assert_eq!(channel_capacity, CHANNEL_BUFFER_SIZE);
            assert_eq!(handle.id(), runtime.handle().id());
        }
        ReadRuntime::Caller => panic!("the attached runtime is not used"),
    }
}
