use sxutil::api::{
    Content, GatewayType, Mbus, MbusStatus, MbusType, MsgOneof, MsgType, Target, Timestamp,
};
use sxutil::clock::{timestamp_of, WallClock};
use sxutil::idgen::{reinterpret, IdGenerator};
use sxutil::nodeapi::{KeepAliveCommand, NodeId, NodeType, NodeUpdate};

#[test]
fn mbus_type_names() {
    assert_eq!(MbusType::Public.as_str_name(), "PUBLIC");
    assert_eq!(MbusType::Private.as_str_name(), "PRIVATE");
    assert_eq!(MbusType::from_str_name("PUBLIC"), Some(MbusType::Public));
    assert_eq!(MbusType::from_str_name("PRIVATE"), Some(MbusType::Private));
    assert_eq!(MbusType::from_str_name("public"), None);
    assert_eq!(MbusType::from_str_name(""), None);
}

#[test]
fn mbus_status_names() {
    assert_eq!(MbusStatus::Intialized.as_str_name(), "INTIALIZED");
    assert_eq!(MbusStatus::Subscribers.as_str_name(), "SUBSCRIBERS");
    assert_eq!(MbusStatus::Closed.as_str_name(), "CLOSED");
    assert_eq!(MbusStatus::Invalid.as_str_name(), "INVALID");
    assert_eq!(MbusStatus::from_str_name("INTIALIZED"), Some(MbusStatus::Intialized));
    assert_eq!(MbusStatus::from_str_name("SUBSCRIBERS"), Some(MbusStatus::Subscribers));
    assert_eq!(MbusStatus::from_str_name("CLOSED"), Some(MbusStatus::Closed));
    assert_eq!(MbusStatus::from_str_name("INVALID"), Some(MbusStatus::Invalid));
    assert_eq!(MbusStatus::from_str_name("INITIALIZED"), None);
}

#[test]
fn gateway_type_names() {
    assert_eq!(GatewayType::Bidirectional.as_str_name(), "BIDIRECTIONAL");
    assert_eq!(GatewayType::WriteOnly.as_str_name(), "WRITE_ONLY");
    assert_eq!(GatewayType::ReadOnly.as_str_name(), "READ_ONLY");
    assert_eq!(GatewayType::from_str_name("BIDIRECTIONAL"), Some(GatewayType::Bidirectional));
    assert_eq!(GatewayType::from_str_name("WRITE_ONLY"), Some(GatewayType::WriteOnly));
    assert_eq!(GatewayType::from_str_name("READ_ONLY"), Some(GatewayType::ReadOnly));
    assert_eq!(GatewayType::from_str_name("READONLY"), None);
}

#[test]
fn msg_type_names() {
    assert_eq!(MsgType::Demand.as_str_name(), "DEMAND");
    assert_eq!(MsgType::Supply.as_str_name(), "SUPPLY");
    assert_eq!(MsgType::Target.as_str_name(), "TARGET");
    assert_eq!(MsgType::Mbus.as_str_name(), "MBUS");
    assert_eq!(MsgType::Mbusmsg.as_str_name(), "MBUSMSG");
    assert_eq!(MsgType::from_str_name("DEMAND"), Some(MsgType::Demand));
    assert_eq!(MsgType::from_str_name("SUPPLY"), Some(MsgType::Supply));
    assert_eq!(MsgType::from_str_name("TARGET"), Some(MsgType::Target));
    assert_eq!(MsgType::from_str_name("MBUS"), Some(MsgType::Mbus));
    assert_eq!(MsgType::from_str_name("MBUSMSG"), Some(MsgType::Mbusmsg));
    assert_eq!(MsgType::from_str_name("MBUS "), None);
}

#[test]
fn node_type_names() {
    assert_eq!(NodeType::Provider.as_str_name(), "PROVIDER");
    assert_eq!(NodeType::Server.as_str_name(), "SERVER");
    assert_eq!(NodeType::Gateway.as_str_name(), "GATEWAY");
    assert_eq!(NodeType::from_str_name("PROVIDER"), Some(NodeType::Provider));
    assert_eq!(NodeType::from_str_name("SERVER"), Some(NodeType::Server));
    assert_eq!(NodeType::from_str_name("GATEWAY"), Some(NodeType::Gateway));
    assert_eq!(NodeType::from_str_name("server"), None);
}

#[test]
fn keep_alive_command_names() {
    assert_eq!(KeepAliveCommand::NoCommand.as_str_name(), "NONE");
    assert_eq!(KeepAliveCommand::Reconnect.as_str_name(), "RECONNECT");
    assert_eq!(KeepAliveCommand::ServerChange.as_str_name(), "SERVER_CHANGE");
    assert_eq!(KeepAliveCommand::ProviderDisconnect.as_str_name(), "PROVIDER_DISCONNECT");
    assert_eq!(KeepAliveCommand::from_str_name("NONE"), Some(KeepAliveCommand::NoCommand));
    assert_eq!(KeepAliveCommand::from_str_name("RECONNECT"), Some(KeepAliveCommand::Reconnect));
    assert_eq!(
        KeepAliveCommand::from_str_name("SERVER_CHANGE"),
        Some(KeepAliveCommand::ServerChange)
    );
    assert_eq!(
        KeepAliveCommand::from_str_name("PROVIDER_DISCONNECT"),
        Some(KeepAliveCommand::ProviderDisconnect)
    );
    assert_eq!(KeepAliveCommand::from_str_name("SERVERCHANGE"), None);
}

#[test]
fn gateway_message_kinds() {
    let tg = Target { id: 1, sender_id: 2, target_id: 3, channel_type: 4, wait: None, mbus_id: 5 };
    assert_eq!(MsgOneof::Target(tg).msg_type(), MsgType::Target);
    let mb = Mbus { client_id: 1, mbus_id: 2, arg_json: String::new() };
    assert_eq!(MsgOneof::Mbus(mb).msg_type(), MsgType::Mbus);
}

#[test]
fn copies_hold_the_same_value() {
    let c = Content { entity: vec![1, 2, 3] };
    assert_eq!(c.duplicate(), c);
    let id = NodeId { node_id: 1, secret: 2, server_info: String::from("s"), keepalive_duration: 3 };
    assert_eq!(id.duplicate(), id);
    let up = NodeUpdate {
        node_id: 1,
        secret: 2,
        update_count: 3,
        node_status: 4,
        node_arg: String::from("a"),
        status: None,
    };
    assert_eq!(up.duplicate(), up);
}

#[test]
fn calendar_fields_become_seconds_since_the_epoch() {
    let t = WallClock {
        year: 2020,
        month: 2,
        day: 3,
        hour: 1,
        minute: 2,
        second: 3,
        nanosecond: 123_456_789,
    };
    assert_eq!(timestamp_of(t), Some(Timestamp { seconds: 1580691723, nanos: 123_456_789 }));
    let epoch =
        WallClock { year: 1970, month: 1, day: 1, hour: 0, minute: 0, second: 0, nanosecond: 0 };
    assert_eq!(timestamp_of(epoch), Some(Timestamp { seconds: 0, nanos: 0 }));
    let old = WallClock {
        year: 1985,
        month: 4,
        day: 12,
        hour: 23,
        minute: 20,
        second: 50,
        nanosecond: 520_000_000,
    };
    assert_eq!(timestamp_of(old), Some(Timestamp { seconds: 482196050, nanos: 520_000_000 }));
}

#[test]
fn fields_that_name_no_instant_give_no_timestamp() {
    let feb30 =
        WallClock { year: 2021, month: 2, day: 30, hour: 0, minute: 0, second: 0, nanosecond: 0 };
    assert_eq!(timestamp_of(feb30), None);
    let leap = WallClock {
        year: 2021,
        month: 6,
        day: 30,
        hour: 23,
        minute: 59,
        second: 59,
        nanosecond: 1_500_000_000,
    };
    assert_eq!(timestamp_of(leap), None);
    let month13 =
        WallClock { year: 2021, month: 13, day: 1, hour: 0, minute: 0, second: 0, nanosecond: 0 };
    assert_eq!(timestamp_of(month13), None);
}

#[test]
fn generator_keeps_its_node_number_and_hands_out_distinct_ids() {
    let mut g = IdGenerator::new(5);
    assert_eq!(g.node_number(), 5);
    let a = g.generate();
    let b = g.generate();
    assert_ne!(a, b);
    assert_eq!(g.node_number(), 5);
    g.reseed(6);
    assert_eq!(g.node_number(), 6);
    assert_ne!(g.generate(), 0);
}

#[test]
fn signed_bits_read_as_unsigned() {
    assert_eq!(reinterpret(0), 0);
    assert_eq!(reinterpret(5), 5);
    assert_eq!(reinterpret(-1), u64::MAX);
    assert_eq!(reinterpret(i64::MIN), 1u64 << 63);
    assert_eq!(reinterpret(i64::MAX), (1u64 << 63) - 1);
}

#[test]
fn identifier_carries_sequence_and_node_number() {
    let mut g = IdGenerator::new(7);
    let a = g.generate();
    let b = g.generate();
    let c = g.generate();
    assert_eq!(a & 0xfff, 1);
    assert_eq!(b & 0xfff, 2);
    assert_eq!(c & 0xfff, 3);
    assert_eq!((a >> 12) & 0x1f, 7);
    assert_eq!((c >> 12) & 0x1f, 7);
    g.reseed(31);
    let d = g.generate();
    assert_eq!(d & 0xfff, 1);
    assert_eq!((d >> 12) & 0x1f, 31);
}

#[test]
fn node_number_shows_modulo_32() {
    let mut g = IdGenerator::new(39);
    assert_eq!(g.node_number(), 39);
    assert_eq!((g.generate() >> 12) & 0x1f, 7);
    let mut h = IdGenerator::new(-1);
    assert_eq!(h.node_number(), -1);
    assert_eq!((h.generate() >> 12) & 0x1f, 31);
    let mut z = IdGenerator::new(0);
    assert_eq!((z.generate() >> 12) & 0x1f, 0);
}

#[test]
fn sequence_wraps_after_4096_identifiers() {
    let mut g = IdGenerator::new(3);
    let mut last: u64 = 0;
    for _ in 0..4095 {
        last = g.generate();
    }
    assert_eq!(last & 0xfff, 4095);
    let wrapped = g.generate();
    assert_eq!(wrapped & 0xfff, 0);
    assert_eq!((wrapped >> 12) & 0x1f, 3);
    assert_eq!(g.generate() & 0xfff, 1);
}
