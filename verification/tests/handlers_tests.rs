use sxutil::api::{Content, Demand, Supply};
use sxutil::handlers::{
    demand_handler_callback, generate_demand_callback, DemandRoute, HandlerAction, HandlerEvent,
};
use sxutil::nodestate::NodeState;
use sxutil::signal::{call_defer_functions, register_defer_function, DeferFunction, DeferFunctions};
use sxutil::sxserviceclient::{ConfirmError, SupplyOpts};

fn demand(id: u64, target: u64) -> Demand {
    Demand {
        id,
        sender_id: 1,
        target_id: target,
        channel_type: 3,
        demand_name: String::from("d"),
        ts: None,
        arg_json: String::new(),
        mbus_id: u64::MAX,
        cdata: None,
    }
}

fn state_with_supply(id: u64) -> NodeState {
    let mut st = NodeState::new();
    st.propose_supply(Supply {
        id,
        sender_id: 1,
        target_id: 0,
        channel_type: 3,
        supply_name: String::from("x"),
        ts: None,
        arg_json: String::new(),
        mbus_id: u64::MAX,
        cdata: None,
    });
    st
}

#[test]
fn demands_are_routed_by_their_target() {
    let st = state_with_supply(40);
    assert_eq!(generate_demand_callback(&st, &demand(1, 0)), DemandRoute::Notify);
    assert_eq!(generate_demand_callback(&st, &demand(1, 40)), DemandRoute::Select);
    assert_eq!(generate_demand_callback(&st, &demand(1, 41)), DemandRoute::Foreign);
    assert_eq!(generate_demand_callback(&NodeState::new(), &demand(1, 40)), DemandRoute::Foreign);
}

#[test]
fn broadcast_demand_may_be_answered_with_a_proposal() {
    let st = state_with_supply(40);
    let dm = demand(9, 0);
    assert_eq!(demand_handler_callback(&st, &dm, HandlerEvent::Received), HandlerAction::AskNotify);
    assert_eq!(demand_handler_callback(&st, &dm, HandlerEvent::Offered(None)), HandlerAction::Done);
    let offer = SupplyOpts {
        id: 3,
        target: 0,
        name: String::from("x"),
        json: String::from("{}"),
        cdata: Content { entity: vec![5] },
    };
    assert_eq!(
        demand_handler_callback(&st, &dm, HandlerEvent::Offered(Some(offer))),
        HandlerAction::Propose(SupplyOpts {
            id: 3,
            target: 9,
            name: String::from("x"),
            json: String::from("{}"),
            cdata: Content { entity: vec![5] },
        })
    );
}

#[test]
fn selection_of_an_own_proposal_may_be_confirmed() {
    let st = state_with_supply(40);
    let dm = demand(9, 40);
    assert_eq!(demand_handler_callback(&st, &dm, HandlerEvent::Received), HandlerAction::AskSelect);
    assert_eq!(
        demand_handler_callback(&st, &dm, HandlerEvent::Decided(true)),
        HandlerAction::Confirm { id: 9, pid: 40 }
    );
    assert_eq!(demand_handler_callback(&st, &dm, HandlerEvent::Decided(false)), HandlerAction::Done);
    assert_eq!(
        demand_handler_callback(&st, &dm, HandlerEvent::Confirmed(Ok(()))),
        HandlerAction::Report { id: 9, error: None }
    );
    assert_eq!(
        demand_handler_callback(&st, &dm, HandlerEvent::Confirmed(Err(ConfirmError::Rpc))),
        HandlerAction::Report { id: 9, error: Some(ConfirmError::Rpc) }
    );
}

#[test]
fn selection_of_a_foreign_proposal_is_left_alone() {
    let st = state_with_supply(40);
    let dm = demand(9, 77);
    assert_eq!(demand_handler_callback(&st, &dm, HandlerEvent::Received), HandlerAction::Done);
}

#[test]
fn cleanup_actions_come_out_once_in_registration_order() {
    let mut reg: DeferFunctions<u32> = DeferFunctions::new();
    assert!(call_defer_functions(&reg).is_empty());
    register_defer_function(&mut reg, DeferFunction { func: 3 });
    register_defer_function(&mut reg, DeferFunction { func: 1 });
    register_defer_function(&mut reg, DeferFunction { func: 2 });
    assert_eq!(reg.functions.len(), 3);
    let order: Vec<u32> = call_defer_functions(&reg).iter().map(|f| f.func).collect();
    assert_eq!(order, vec![3, 1, 2]);
    // the actions stay registered
    assert_eq!(reg.functions.len(), 3);
    let again: Vec<u32> = reg.functions.iter().map(|f| f.func).collect();
    assert_eq!(again, vec![3, 1, 2]);
}
