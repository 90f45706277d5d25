use sxutil::api::{
    Channel, ConfirmResponse, Content, Demand, Mbus, MbusMsg, MbusOpt, MbusType, Response,
    Supply, Target,
};
use sxutil::nodeapi::NodeId;
use sxutil::nodeservinfo::NodeServInfo;
use sxutil::sxserviceclient::{
    contains_id, ConfirmError, DemandOpts, SXServiceClient, SXSynerexClient, StreamAction,
    StreamEvent, SupplyOpts, MSG_TIME_OUT,
};

fn registered() -> NodeServInfo {
    let mut ni = NodeServInfo::new(String::from("pb"), String::from("bin"));
    ni.register_node_with_cmd(true, String::from("A"), vec![1, 2], None).unwrap();
    ni.register_node_reply(Some(NodeId {
        node_id: 7,
        secret: 42,
        server_info: String::from("exchange:10000"),
        keepalive_duration: 10,
    }))
    .unwrap();
    ni
}

fn client(ni: &mut NodeServInfo) -> SXServiceClient {
    sxutil::new_sx_service_client(
        ni,
        SXSynerexClient { server_address: String::from("exchange:10000") },
        1,
        String::from("{}"),
    )
}

fn ok() -> Option<Response> {
    Some(Response { ok: true, err: String::new() })
}

fn refused() -> Option<Response> {
    Some(Response { ok: false, err: String::from("no") })
}

fn supply_opts(target: u64, name: &str) -> SupplyOpts {
    SupplyOpts {
        id: 0,
        target,
        name: String::from(name),
        json: String::from("{\"k\":1}"),
        cdata: Content { entity: vec![9, 8, 7] },
    }
}

fn demand_opts(target: u64, name: &str) -> DemandOpts {
    DemandOpts {
        id: 0,
        target,
        name: String::from(name),
        json: String::from("{\"d\":2}"),
        cdata: Content { entity: vec![1] },
    }
}

fn bus_msg() -> MbusMsg {
    MbusMsg {
        msg_id: 0,
        sender_id: 0,
        target_id: 5,
        mbus_id: 0,
        msg_type: 2,
        msg_info: String::from("info"),
        arg_json: String::from("{}"),
        cdata: None,
    }
}

#[test]
fn new_client_has_a_fresh_id_and_no_bus() {
    let mut ni = registered();
    let a = client(&mut ni);
    let b = client(&mut ni);
    assert_ne!(a.client_id, b.client_id);
    assert_eq!(a.channel_type, 1);
    assert_eq!(a.arg_json, "{}");
    assert!(a.mbus_ids.is_empty());
    assert_eq!(a.sxclient, Some(SXSynerexClient { server_address: String::from("exchange:10000") }));
    assert_eq!(
        a.get_channel(),
        Channel { client_id: a.client_id, channel_type: 1, arg_json: String::from("{}") }
    );
}

#[test]
fn drawn_ids_differ() {
    let mut ni = registered();
    let a = ni.generate_int_id();
    let b = ni.generate_int_id();
    let c = ni.generate_int_id();
    assert!(a != b && b != c && a != c);
}

#[test]
fn target_checks() {
    let mut ni = registered();
    let c = client(&mut ni);
    let sp = c.new_supply(1, None, 30, supply_opts(30, "x"));
    assert!(c.is_supply_target(&sp, vec![10, 30]));
    assert!(!c.is_supply_target(&sp, vec![10, 20]));
    assert!(!c.is_supply_target(&sp, vec![]));
    let dm = c.new_demand(1, None, 11, demand_opts(11, "d"));
    assert!(c.is_demand_target(&dm, vec![11]));
    assert!(!c.is_demand_target(&dm, vec![12, 13]));
    assert!(contains_id(&vec![1, 2, 3], 3));
    assert!(!contains_id(&vec![1, 2, 3], 4));
}

#[test]
fn built_records_hold_the_senders_choices() {
    let mut ni = registered();
    let c = client(&mut ni);
    let ts = Some(sxutil::api::Timestamp { seconds: 5, nanos: 6 });
    let sp = c.new_supply(77, ts, 30, supply_opts(30, "x"));
    assert_eq!(
        sp,
        Supply {
            id: 77,
            sender_id: c.client_id,
            target_id: 30,
            channel_type: 1,
            supply_name: String::from("x"),
            ts,
            arg_json: String::from("{\"k\":1}"),
            mbus_id: u64::MAX,
            cdata: Some(Content { entity: vec![9, 8, 7] }),
        }
    );
    let dm = c.new_demand(78, None, 0, demand_opts(4, "d"));
    assert_eq!(
        dm,
        Demand {
            id: 78,
            sender_id: c.client_id,
            target_id: 0,
            channel_type: 1,
            demand_name: String::from("d"),
            ts: None,
            arg_json: String::from("{\"d\":2}"),
            mbus_id: u64::MAX,
            cdata: Some(Content { entity: vec![1] }),
        }
    );
}

#[test]
fn notify_supply_is_a_broadcast_and_keeps_nothing() {
    let mut ni = registered();
    let c = client(&mut ni);
    let sp = c.notify_supply(&mut ni, supply_opts(99, "x")).unwrap();
    assert_eq!(sp.target_id, 0);
    assert_eq!(sp.sender_id, c.client_id);
    assert_eq!(sp.channel_type, 1);
    assert_eq!(sp.supply_name, "x");
    assert_eq!(sp.mbus_id, u64::MAX);
    assert_eq!(sp.cdata, Some(Content { entity: vec![9, 8, 7] }));
    assert_eq!(c.notify_supply_reply(&sp, ok()), Some(sp.id));
    assert_eq!(c.notify_supply_reply(&sp, refused()), None);
    assert_eq!(c.notify_supply_reply(&sp, None), None);
    assert!(ni.node_state.is_safe_state());
}

#[test]
fn notify_demand_is_a_broadcast_and_keeps_nothing() {
    let mut ni = registered();
    let c = client(&mut ni);
    let dm = c.notify_demand(&mut ni, demand_opts(99, "d")).unwrap();
    assert_eq!(dm.target_id, 0);
    assert_eq!(dm.sender_id, c.client_id);
    assert_eq!(dm.demand_name, "d");
    assert_eq!(dm.arg_json, "{\"d\":2}");
    assert_eq!(c.notify_demand_reply(&dm, ok()), Some(dm.id));
    assert_eq!(c.notify_demand_reply(&dm, refused()), None);
    assert_eq!(c.notify_demand_reply(&dm, None), None);
    assert!(ni.node_state.is_safe_state());
}

#[test]
fn calls_without_connection_send_nothing() {
    let mut ni = registered();
    let mut c = client(&mut ni);
    c.sxclient = None;
    c.mbus_ids.push(4);
    assert_eq!(c.notify_supply(&mut ni, supply_opts(0, "x")), None);
    assert_eq!(c.notify_demand(&mut ni, demand_opts(0, "d")), None);
    assert_eq!(c.propose_supply(&mut ni, &supply_opts(1, "x")), None);
    assert_eq!(c.propose_demand(&mut ni, demand_opts(1, "d")), None);
    let sp = c.new_supply(1, None, 0, supply_opts(0, "x"));
    let dm = c.new_demand(2, None, 0, demand_opts(0, "d"));
    assert_eq!(c.select_supply(&mut ni, &sp), None);
    assert_eq!(c.select_demand(&mut ni, &dm), None);
    assert_eq!(c.confirm(&mut ni, 5), Err(ConfirmError::NoClient));
    assert_eq!(c.close_mbus(4), None);
    assert_eq!(c.send_mbus_msg(&mut ni, 4, bus_msg()), None);
    assert_eq!(c.create_mbus(MbusOpt { mbus_type: MbusType::Public, subscribers: vec![] }), None);
    assert_eq!(
        c.get_mbus_status(Mbus { client_id: 1, mbus_id: 4, arg_json: String::new() }),
        None
    );
    assert!(ni.node_state.is_safe_state());
}

#[test]
fn propose_supply_is_kept_only_when_accepted() {
    let mut ni = registered();
    let c = client(&mut ni);
    let sp = c.propose_supply(&mut ni, &supply_opts(55, "x")).unwrap();
    assert_eq!(sp.target_id, 55);
    assert_eq!(sp.supply_name, "x");
    assert_eq!(sp.arg_json, "{\"k\":1}");
    assert!(sp.ts.is_some());
    assert!(ni.node_state.is_safe_state());
    assert_eq!(c.propose_supply_reply(&mut ni, sp.clone(), None), 0);
    assert_eq!(c.propose_supply_reply(&mut ni, sp.clone(), refused()), 0);
    assert!(ni.node_state.is_safe_state());
    let id = sp.id;
    assert_eq!(c.propose_supply_reply(&mut ni, sp, ok()), id);
    assert_eq!(ni.node_state.proposed_supply.len(), 1);
    assert_eq!(ni.node_state.proposed_supply_index(id), 0);
    assert_eq!(MSG_TIME_OUT, 20);
}

#[test]
fn propose_demand_is_kept_only_when_accepted() {
    let mut ni = registered();
    let c = client(&mut ni);
    let dm = c.propose_demand(&mut ni, demand_opts(66, "d")).unwrap();
    assert_eq!(dm.target_id, 66);
    assert_eq!(c.propose_demand_reply(&mut ni, dm.clone(), None), 0);
    assert_eq!(c.propose_demand_reply(&mut ni, dm.clone(), refused()), 0);
    assert!(ni.node_state.proposed_demand.is_empty());
    let id = dm.id;
    assert_eq!(c.propose_demand_reply(&mut ni, dm, ok()), id);
    assert_eq!(ni.node_state.proposed_demand.len(), 1);
    assert_eq!(ni.node_state.proposed_demand[0].id, id);
}

#[test]
fn select_supply_points_at_the_record_and_joins_the_bus() {
    let mut ni = registered();
    let mut c = client(&mut ni);
    let sp = Supply {
        id: 500,
        sender_id: 9,
        target_id: 0,
        channel_type: 8,
        supply_name: String::new(),
        ts: None,
        arg_json: String::new(),
        mbus_id: u64::MAX,
        cdata: None,
    };
    let tg = c.select_supply(&mut ni, &sp).unwrap();
    assert_eq!(
        tg,
        Target {
            id: tg.id,
            sender_id: c.client_id,
            target_id: 500,
            channel_type: 8,
            wait: None,
            mbus_id: u64::MAX,
        }
    );
    assert_eq!(c.select_supply_reply(None), None);
    assert_eq!(
        c.select_supply_reply(Some(ConfirmResponse {
            ok: false,
            mbus_id: 3,
            wait: None,
            err: String::from("late"),
        })),
        None
    );
    assert!(c.mbus_ids.is_empty());
    let answer = ConfirmResponse { ok: true, mbus_id: 900, wait: None, err: String::new() };
    assert_eq!(c.select_supply_reply(Some(answer.clone())), Some(900));
    assert_eq!(c.mbus_ids, vec![900]);
    assert_eq!(c.select_supply_reply(Some(answer)), Some(900));
    assert_eq!(c.mbus_ids, vec![900]);
}

#[test]
fn select_demand_points_at_the_record_and_joins_the_bus() {
    let mut ni = registered();
    let mut c = client(&mut ni);
    let dm = c.new_demand(600, None, 0, demand_opts(0, "d"));
    let tg = c.select_demand(&mut ni, &dm).unwrap();
    assert_eq!(tg.target_id, 600);
    assert_eq!(tg.channel_type, 1);
    assert_eq!(tg.sender_id, c.client_id);
    assert_eq!(tg.mbus_id, u64::MAX);
    assert_eq!(tg.wait, None);
    let answer = ConfirmResponse { ok: true, mbus_id: 901, wait: None, err: String::new() };
    assert_eq!(c.select_demand_reply(Some(answer)), Some(901));
    assert_eq!(c.select_demand_reply(None), None);
    assert_eq!(c.mbus_ids, vec![901]);
}

#[test]
fn confirm_errors() {
    let mut ni = registered();
    let mut c = client(&mut ni);
    ni.node_state.propose_supply(c.new_supply(11, None, 1, supply_opts(1, "x")));
    assert_eq!(c.confirm_reply(&mut ni, 70, 11, None), Err(ConfirmError::Rpc));
    assert_eq!(c.confirm_reply(&mut ni, 70, 11, refused()), Err(ConfirmError::Rejected));
    assert!(c.mbus_ids.is_empty());
    assert_eq!(ni.node_state.proposed_supply.len(), 1);
    let tg = c.confirm(&mut ni, 70).unwrap();
    assert_eq!(tg.target_id, 70);
    assert_eq!(tg.mbus_id, 70);
    assert_eq!(tg.channel_type, 1);
    assert_eq!(tg.sender_id, c.client_id);
    assert_eq!(c.confirm_reply(&mut ni, 70, 12, ok()), Ok(()));
    assert_eq!(c.mbus_ids, vec![70]);
    assert_eq!(ni.node_state.proposed_supply.len(), 1);
    assert_eq!(c.confirm_reply(&mut ni, 70, 11, ok()), Ok(()));
    assert_eq!(c.mbus_ids, vec![70]);
    assert!(ni.node_state.is_safe_state());
}

#[test]
fn register_propose_select_confirm() {
    // node "A" on channels 1 and 2; the directory answers node 7, secret 42, keep-alive 10
    let mut ni = registered();
    assert_eq!(ni.nid.node_id, 7);
    assert_eq!(ni.nid.secret, 42);
    assert_eq!(ni.nid.keepalive_duration, 10);
    let mut provider = client(&mut ni);
    let sp = provider.propose_supply(&mut ni, &supply_opts(0, "x")).unwrap();
    assert_eq!(sp.target_id, 0);
    assert_eq!(sp.supply_name, "x");
    let pid = provider.propose_supply_reply(&mut ni, sp.clone(), ok());
    assert_eq!(pid, sp.id);
    assert_eq!(ni.node_state.proposed_supply.len(), 1);
    // the counterpart selects that supply and is given a bus
    let mut other_node = registered();
    let mut counterpart = client(&mut other_node);
    let tg = counterpart.select_supply(&mut other_node, &sp).unwrap();
    assert_eq!(tg.target_id, pid);
    let mbus_id = counterpart
        .select_supply_reply(Some(ConfirmResponse {
            ok: true,
            mbus_id: 4711,
            wait: None,
            err: String::new(),
        }))
        .unwrap();
    assert_eq!(mbus_id, 4711);
    // the provider confirms
    let ctg = provider.confirm(&mut ni, mbus_id).unwrap();
    assert_eq!(ctg.target_id, 4711);
    assert_eq!(provider.confirm_reply(&mut ni, mbus_id, pid, ok()), Ok(()));
    assert!(ni.node_state.proposed_supply.is_empty());
    assert_eq!(provider.mbus_ids, vec![4711]);
    assert_eq!(counterpart.mbus_ids, vec![4711]);
}

#[test]
fn created_bus_is_not_joined_and_closing_it_spares_other_buses() {
    let mut ni = registered();
    let mut c = client(&mut ni);
    c.join_mbus(50);
    let opt = MbusOpt { mbus_type: MbusType::Private, subscribers: vec![1, 2] };
    assert_eq!(c.create_mbus(opt.clone()), Some(opt));
    let made = c
        .create_mbus_reply(Some(Mbus { client_id: 0, mbus_id: 60, arg_json: String::from("a") }))
        .unwrap();
    assert_eq!(made, Mbus { client_id: c.client_id, mbus_id: 60, arg_json: String::from("a") });
    assert_eq!(c.create_mbus_reply(None), None);
    // the created bus was never joined: closing it sends nothing
    assert_eq!(c.close_mbus(60), None);
    assert!(!c.mbus_ids.contains(&60));
    // join and close it: it is gone and the other bus is untouched
    c.join_mbus(60);
    assert_eq!(c.mbus_ids, vec![50, 60]);
    let mb = c.close_mbus(60).unwrap();
    assert_eq!(mb, Mbus { client_id: c.client_id, mbus_id: 60, arg_json: String::new() });
    assert!(c.close_mbus_reply(60, ok()));
    assert_eq!(c.mbus_ids, vec![50]);
    assert!(c.close_mbus(50).is_some());
    assert!(c.close_mbus_reply(50, ok()));
    assert!(c.mbus_ids.is_empty());
}

#[test]
fn close_mbus_that_fails_keeps_the_membership() {
    let mut ni = registered();
    let mut c = client(&mut ni);
    c.join_mbus(1);
    c.join_mbus(2);
    assert!(!c.close_mbus_reply(1, None));
    assert!(!c.close_mbus_reply(1, refused()));
    assert_eq!(c.mbus_ids, vec![1, 2]);
    assert!(c.close_mbus_reply(3, ok()));
    assert_eq!(c.mbus_ids, vec![1, 2]);
}

#[test]
fn mbus_positions() {
    let mut ni = registered();
    let mut c = client(&mut ni);
    assert_eq!(c.mbus_index(1), -1);
    c.join_mbus(10);
    c.join_mbus(20);
    c.join_mbus(10);
    c.join_mbus(30);
    assert_eq!(c.mbus_ids, vec![10, 20, 30]);
    assert_eq!(c.mbus_index(10), 0);
    assert_eq!(c.mbus_index(30), 2);
    assert_eq!(c.mbus_index(40), -1);
    assert_eq!(c.find_mbus(20), Some(1));
    assert_eq!(c.find_mbus(21), None);
    c.remove_mbus_index(1);
    assert_eq!(c.mbus_ids, vec![10, 30]);
}

#[test]
fn send_mbus_msg_without_membership_sends_nothing() {
    let mut ni = registered();
    let c = client(&mut ni);
    assert!(c.mbus_ids.is_empty());
    assert_eq!(c.send_mbus_msg(&mut ni, 5, bus_msg()), None);
}

#[test]
fn send_mbus_msg_on_a_joined_bus() {
    let mut ni = registered();
    let mut c = client(&mut ni);
    c.join_mbus(5);
    assert_eq!(c.send_mbus_msg(&mut ni, 6, bus_msg()), None);
    let m = c.send_mbus_msg(&mut ni, 5, bus_msg()).unwrap();
    assert_eq!(
        m,
        MbusMsg {
            msg_id: m.msg_id,
            sender_id: c.client_id,
            target_id: 5,
            mbus_id: 5,
            msg_type: 2,
            msg_info: String::from("info"),
            arg_json: String::from("{}"),
            cdata: None,
        }
    );
    assert_ne!(m.msg_id, 0);
    assert_eq!(c.send_mbus_msg_reply(5, ok()), Some(5));
    assert_eq!(c.send_mbus_msg_reply(5, refused()), None);
    assert_eq!(c.send_mbus_msg_reply(5, None), None);
}

#[test]
fn mbus_status_request() {
    let mut ni = registered();
    let c = client(&mut ni);
    let mb = Mbus { client_id: 3, mbus_id: 8, arg_json: String::from("q") };
    assert_eq!(c.get_mbus_status(mb.clone()), Some(mb));
}

#[test]
fn supply_subscription_steps() {
    let mut ni = registered();
    let mut c = client(&mut ni);
    let sp = c.new_supply(1, None, 0, supply_opts(0, "x"));
    assert_eq!(
        c.subscribe_supply(&ni.node_state, StreamEvent::Start),
        StreamAction::Open(c.get_channel())
    );
    assert_eq!(c.subscribe_supply(&ni.node_state, StreamEvent::Opened), StreamAction::Receive);
    assert_eq!(
        c.subscribe_supply(&ni.node_state, StreamEvent::OpenFailed),
        StreamAction::Return(false)
    );
    assert_eq!(
        c.subscribe_supply(&ni.node_state, StreamEvent::Message(sp.clone())),
        StreamAction::Deliver(sp.clone())
    );
    ni.node_state.locked = true;
    assert_eq!(
        c.subscribe_supply(&ni.node_state, StreamEvent::Message(sp)),
        StreamAction::Discard
    );
    assert_eq!(c.subscribe_supply(&ni.node_state, StreamEvent::Ended), StreamAction::Return(true));
    c.sxclient = None;
    assert_eq!(c.subscribe_supply(&ni.node_state, StreamEvent::Start), StreamAction::Return(false));
}

#[test]
fn demand_subscription_steps() {
    let mut ni = registered();
    let mut c = client(&mut ni);
    let dm = c.new_demand(1, None, 0, demand_opts(0, "d"));
    assert_eq!(
        c.subscribe_demand(&ni.node_state, StreamEvent::Start),
        StreamAction::Open(c.get_channel())
    );
    assert_eq!(c.subscribe_demand(&ni.node_state, StreamEvent::Opened), StreamAction::Receive);
    assert_eq!(
        c.subscribe_demand(&ni.node_state, StreamEvent::OpenFailed),
        StreamAction::Return(false)
    );
    assert_eq!(
        c.subscribe_demand(&ni.node_state, StreamEvent::Message(dm.clone())),
        StreamAction::Deliver(dm.clone())
    );
    ni.node_state.locked = true;
    assert_eq!(
        c.subscribe_demand(&ni.node_state, StreamEvent::Message(dm)),
        StreamAction::Discard
    );
    assert_eq!(c.subscribe_demand(&ni.node_state, StreamEvent::Ended), StreamAction::Return(true));
    c.sxclient = None;
    assert_eq!(c.subscribe_demand(&ni.node_state, StreamEvent::Start), StreamAction::Return(false));
}

#[test]
fn mbus_subscription_steps() {
    let mut ni = registered();
    let mut c = client(&mut ni);
    assert_eq!(
        c.subscribe_mbus(&ni.node_state, 9, StreamEvent::Start),
        StreamAction::Open(Mbus { client_id: c.client_id, mbus_id: 9, arg_json: String::new() })
    );
    assert_eq!(c.subscribe_mbus(&ni.node_state, 9, StreamEvent::Opened), StreamAction::Receive);
    assert_eq!(
        c.subscribe_mbus(&ni.node_state, 9, StreamEvent::OpenFailed),
        StreamAction::Return(false)
    );
    assert_eq!(
        c.subscribe_mbus(&ni.node_state, 9, StreamEvent::Message(bus_msg())),
        StreamAction::Deliver(bus_msg())
    );
    ni.node_state.locked = true;
    assert_eq!(
        c.subscribe_mbus(&ni.node_state, 9, StreamEvent::Message(bus_msg())),
        StreamAction::Discard
    );
    assert_eq!(c.subscribe_mbus(&ni.node_state, 9, StreamEvent::Ended), StreamAction::Return(true));
    c.sxclient = None;
    assert_eq!(
        c.subscribe_mbus(&ni.node_state, 9, StreamEvent::Start),
        StreamAction::Return(false)
    );
}

#[test]
fn records_carry_the_identifier_just_drawn() {
    let mut ni = registered();
    let mut c = client(&mut ni);
    assert_eq!(c.client_id & 0xfff, 1);
    assert_eq!((c.client_id >> 12) & 0x1f, 7);
    let sp = c.propose_supply(&mut ni, &supply_opts(5, "x")).unwrap();
    assert_eq!(sp.id & 0xfff, 2);
    assert_eq!((sp.id >> 12) & 0x1f, 7);
    let dm = c.propose_demand(&mut ni, demand_opts(5, "d")).unwrap();
    assert_eq!(dm.id & 0xfff, 3);
    let sp2 = c.notify_supply(&mut ni, supply_opts(0, "x")).unwrap();
    assert_eq!(sp2.id & 0xfff, 4);
    let dm2 = c.notify_demand(&mut ni, demand_opts(0, "d")).unwrap();
    assert_eq!(dm2.id & 0xfff, 5);
    let tg = c.select_supply(&mut ni, &sp).unwrap();
    assert_eq!(tg.id & 0xfff, 6);
    let tg = c.select_demand(&mut ni, &dm).unwrap();
    assert_eq!(tg.id & 0xfff, 7);
    let tg = c.confirm(&mut ni, 70).unwrap();
    assert_eq!(tg.id & 0xfff, 8);
    assert_eq!((tg.id >> 12) & 0x1f, 7);
    // a message on a bus that is not joined draws nothing
    assert_eq!(c.send_mbus_msg(&mut ni, 5, bus_msg()), None);
    c.join_mbus(5);
    let m = c.send_mbus_msg(&mut ni, 5, bus_msg()).unwrap();
    assert_eq!(m.msg_id & 0xfff, 9);
    assert_eq!((m.msg_id >> 12) & 0x1f, 7);
    // without a connection an identifier is drawn all the same, but not for a bus
    // message on a bus that is not joined
    c.sxclient = None;
    assert_eq!(c.notify_supply(&mut ni, supply_opts(0, "x")), None);
    assert_eq!(c.send_mbus_msg(&mut ni, 6, bus_msg()), None);
    assert_eq!(ni.generate_int_id() & 0xfff, 11);
}

#[test]
fn records_are_stamped_with_a_time_of_today() {
    let mut ni = registered();
    let c = client(&mut ni);
    let sp = c.notify_supply(&mut ni, supply_opts(0, "x")).unwrap();
    let ts = sp.ts.unwrap();
    // later than the first of January 2020, and with nanoseconds of one second
    assert!(ts.seconds > 1_577_836_800);
    assert!(ts.nanos >= 0 && ts.nanos < 1_000_000_000);
    let again = sxutil::clock::current_timestamp().unwrap();
    assert!(again.seconds > 1_577_836_800);
}
