use sxutil::api::{Content, Demand, Supply};
use sxutil::nodestate::NodeState;

fn supply(id: u64) -> Supply {
    Supply {
        id,
        sender_id: 1,
        target_id: 0,
        channel_type: 3,
        supply_name: String::from("x"),
        ts: None,
        arg_json: String::new(),
        mbus_id: u64::MAX,
        cdata: Some(Content { entity: vec![] }),
    }
}

fn demand(id: u64) -> Demand {
    Demand {
        id,
        sender_id: 1,
        target_id: 0,
        channel_type: 3,
        demand_name: String::from("d"),
        ts: None,
        arg_json: String::new(),
        mbus_id: u64::MAX,
        cdata: None,
    }
}

#[test]
fn new_state_is_safe_and_unlocked() {
    let st = NodeState::new();
    assert!(st.is_safe_state());
    assert!(!st.locked);
    assert_eq!(st.proposed_supply_index(1), -1);
}

#[test]
fn proposed_supplies_are_found_at_their_positions() {
    let mut st = NodeState::new();
    st.propose_supply(supply(10));
    st.propose_supply(supply(20));
    st.propose_supply(supply(30));
    assert_eq!(st.proposed_supply_index(10), 0);
    assert_eq!(st.proposed_supply_index(20), 1);
    assert_eq!(st.proposed_supply_index(30), 2);
    assert_eq!(st.proposed_supply_index(40), -1);
    assert!(!st.is_safe_state());
}

#[test]
fn selected_supply_is_gone_and_later_ones_move_up() {
    let mut st = NodeState::new();
    st.propose_supply(supply(10));
    st.propose_supply(supply(20));
    st.propose_supply(supply(30));
    assert!(st.select_supply(20));
    assert_eq!(st.proposed_supply_index(20), -1);
    assert_eq!(st.proposed_supply_index(10), 0);
    assert_eq!(st.proposed_supply_index(30), 1);
    assert!(!st.select_supply(20));
    assert_eq!(st.proposed_supply.len(), 2);
}

#[test]
fn select_supply_removes_the_first_of_two_equal_ids() {
    let mut st = NodeState::new();
    let mut a = supply(7);
    a.supply_name = String::from("first");
    let mut b = supply(7);
    b.supply_name = String::from("second");
    st.propose_supply(a);
    st.propose_supply(b);
    assert!(st.select_supply(7));
    assert_eq!(st.proposed_supply.len(), 1);
    assert_eq!(st.proposed_supply[0].supply_name, "second");
}

#[test]
fn select_demand_removes_the_first_match() {
    let mut st = NodeState::new();
    let mut a = demand(7);
    a.demand_name = String::from("first");
    let mut b = demand(7);
    b.demand_name = String::from("second");
    st.propose_demand(a);
    st.propose_demand(demand(8));
    st.propose_demand(b);
    assert!(st.select_demand(7));
    assert_eq!(st.proposed_demand.len(), 2);
    assert_eq!(st.proposed_demand[0].id, 8);
    assert_eq!(st.proposed_demand[1].demand_name, "second");
    assert!(!st.select_demand(9));
    assert_eq!(st.proposed_demand.len(), 2);
}

#[test]
fn safe_state_needs_both_lists_empty() {
    let mut st = NodeState::new();
    st.propose_demand(demand(1));
    assert!(!st.is_safe_state());
    assert!(st.select_demand(1));
    assert!(st.is_safe_state());
    st.propose_supply(supply(2));
    assert!(!st.is_safe_state());
}

#[test]
fn init_clears_lists_and_lock() {
    let mut st = NodeState::new();
    st.propose_supply(supply(1));
    st.propose_demand(demand(2));
    st.locked = true;
    st.init();
    assert!(st.is_safe_state());
    assert!(!st.locked);
    assert_eq!(st.proposed_supply.len(), 0);
    assert_eq!(st.proposed_demand.len(), 0);
}

#[test]
fn remove_proposed_supply_index_takes_that_position() {
    let mut st = NodeState::new();
    st.propose_supply(supply(10));
    st.propose_supply(supply(20));
    st.remove_proposed_supply_index(0);
    assert_eq!(st.proposed_supply.len(), 1);
    assert_eq!(st.proposed_supply[0].id, 20);
    assert_eq!(st.find_supply(20), Some(0));
    assert_eq!(st.find_demand(20), None);
}
