use mina_recorder::params::{
    ConnectionRecord, Coordinate, Direction, KindFilter, Params, ParamsValidateError, StreamFilter,
    filter_connections_by_addr,
};
use mina_recorder::meshsub_stats::Event;
use mina_recorder::types::{Addr, ConnectionId, MessageType, StreamId, StreamKind, TimePoint};

fn addr(last: u8, port: u16) -> Addr {
    let mut ip = [0u8; 16];
    ip[15] = last;
    Addr { ip, port }
}

fn stamped(secs: u64) -> Event {
    Event {
        incoming: true,
        message_kind: MessageType::Subscribe,
        producer_id: Vec::new(),
        hash: mina_recorder::meshsub_stats::Hash([0; 32]),
        message_id: 0,
        block_height: 0,
        global_slot: 0,
        time: TimePoint { secs, nanos: 0 },
        sender_addr: String::new(),
        receiver_addr: String::new(),
        latency: None,
    }
}

#[test]
fn stream_id_filter_needs_connection_id() {
    let mut p = Params::default();
    p.stream_id = Some(StreamId::Forward(0));
    assert!(matches!(p.validate(), Err(ParamsValidateError::StreamIdWithoutConnectionId)));
    // An address filter does not substitute for the missing connection id.
    let mut p = Params::default();
    p.stream_id = Some(StreamId::Forward(0));
    p.addr = Some(addr(1, 10));
    assert!(matches!(p.validate(), Err(ParamsValidateError::StreamIdWithoutConnectionId)));
}

#[test]
fn filters_resolve() {
    let mut p = Params::default();
    p.connection_id = Some(4);
    p.stream_id = Some(StreamId::Backward(1));
    let v = p.validate().unwrap();
    match v.stream_filter {
        Some(StreamFilter::Stream(f)) => {
            assert_eq!(f.cn, ConnectionId(4));
            assert_eq!(f.id, StreamId::Backward(1));
        },
        _ => panic!("expected a single-stream filter"),
    }
    let mut p = Params::default();
    p.addr = Some(addr(9, 1000));
    p.connection_id = Some(4);
    let v = p.validate().unwrap();
    assert!(matches!(v.stream_filter, Some(StreamFilter::AnyStreamByAddr(_))));
}

#[test]
fn message_kind_wins_over_stream_kind() {
    let mut p = Params::default().with_stream_kind(StreamKind::Meshsub);
    p.message_kind = Some(vec![MessageType::Subscribe]);
    let v = p.validate().unwrap();
    assert!(matches!(v.kind_filter, Some(KindFilter::Message(_))));
}

#[test]
fn coordinate_defaults() {
    let p = Params::default();
    let c = p.validate_coordinate();
    assert!(matches!(c.start, Coordinate::ByTimestamp { timestamp: 0, explicit: false }));
    assert_eq!(c.limit, 16);
    let mut p = Params::default();
    p.direction = Direction::Reverse;
    p.limit_timestamp = Some(500);
    let c = p.validate_coordinate();
    assert!(matches!(c.start, Coordinate::ByTimestamp { timestamp: u64::MAX, explicit: false }));
    assert_eq!(c.limit, usize::MAX);
}

#[test]
fn limit_stops_at_count_and_timestamp() {
    let mut p = Params::default().with_limit(3);
    p.limit_timestamp = Some(40);
    let v = p.validate_connection();
    let items: Vec<(u64, Event)> =
        vec![(0, stamped(10)), (1, stamped(20)), (2, stamped(50)), (3, stamped(30))];
    // Forward: records stop at the first timestamp past the bound.
    let r = v.limit(items.clone());
    assert_eq!(r.iter().map(|(k, _)| *k).collect::<Vec<_>>(), vec![0, 1]);
    // The count limit caps the result.
    let mut p = Params::default().with_limit(2);
    p.limit_timestamp = Some(100);
    let r = p.validate_connection().limit(items);
    assert_eq!(r.iter().map(|(k, _)| *k).collect::<Vec<_>>(), vec![0, 1]);
}

#[test]
fn connections_filtered_by_address_exactly() {
    let a = addr(1, 10);
    let b = addr(2, 10);
    let items = vec![
        ConnectionRecord { id: ConnectionId(0), addr: a, timestamp: TimePoint { secs: 1, nanos: 0 } },
        ConnectionRecord { id: ConnectionId(1), addr: b, timestamp: TimePoint { secs: 2, nanos: 0 } },
        ConnectionRecord { id: ConnectionId(2), addr: a, timestamp: TimePoint { secs: 3, nanos: 0 } },
    ];
    let r = filter_connections_by_addr(&items, &a);
    assert_eq!(r.len(), 2);
    assert_eq!(r[0].id, ConnectionId(0));
    assert_eq!(r[1].id, ConnectionId(2));
    assert!(r.iter().all(|c| c.addr.matches(&a)));
}

#[test]
fn builders_set_fields() {
    let p = Params::default().with_limit(7).with_stream_kind(StreamKind::Rpc);
    let v = p.validate().unwrap();
    assert_eq!(v.coordinate.limit, 7);
    match v.kind_filter {
        Some(KindFilter::AnyMessageInStream(ks)) => assert_eq!(ks, vec![StreamKind::Rpc]),
        _ => panic!("expected a stream-kind filter"),
    }
}
