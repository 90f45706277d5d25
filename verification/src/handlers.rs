//! What a client does with a demand that comes in on its channel: a broadcast demand
//! may be answered with a proposal, and a demand that selects one of the node's own
//! proposals may be confirmed.
use vstd::prelude::*;
use crate::api::Demand;
use crate::nodestate::{lemma_position_of, NodeState};
use crate::sxserviceclient::{ConfirmError, SupplyOpts, SupplyOptsView};

verus! {

/// Where a demand that came in belongs.
#[derive(Clone, Copy, Debug, PartialEq, Eq, Structural)]
pub enum DemandRoute {
    /// It is a broadcast: the application's notification handler takes it.
    Notify,
    /// It selects a supply that this node proposed: the selection handler takes it.
    Select,
    /// It selects a proposal of somebody else: nobody here takes it.
    Foreign,
}

/// Where a demand with this target belongs, given the supplies a node has proposed.
pub open spec fn route_of(target_id: u64, proposed: Seq<u64>) -> DemandRoute {
    if target_id == 0 {
        DemandRoute::Notify
    } else if proposed.contains(target_id) {
        DemandRoute::Select
    } else {
        DemandRoute::Foreign
    }
}

/// Says which of two handlers takes a demand, if any.
pub fn generate_demand_callback(state: &NodeState, dm: &Demand) -> (r: DemandRoute)
    ensures
        r == route_of(dm.target_id, state.supply_ids()),
{
    if dm.target_id == 0 {
        DemandRoute::Notify
    } else {
        proof {
            lemma_position_of(state.supply_ids(), dm.target_id);
        }
        match state.find_supply(dm.target_id) {
            Some(_) => DemandRoute::Select,
            None => DemandRoute::Foreign,
        }
    }
}

/// What happened since the handling of a demand last said what to do.
#[derive(Debug, PartialEq)]
pub enum HandlerEvent {
    /// The demand came in.
    Received,
    /// The application answered a broadcast demand, with a supply to propose or not.
    Offered(Option<SupplyOpts>),
    /// The application accepted or refused the selection.
    Decided(bool),
    /// The confirmation went through, or did not.
    Confirmed(Result<(), ConfirmError>),
}

/// What the handling of a demand wants done next.
#[derive(Debug, PartialEq)]
pub enum HandlerAction {
    /// Ask the application whether it answers the broadcast, then report `Offered`.
    AskNotify,
    /// Ask the application whether it accepts the selection, then report `Decided`.
    AskSelect,
    /// Propose this supply; the demand is then dealt with.
    Propose(SupplyOpts),
    /// Confirm the selection `id` of proposal `pid`, then report `Confirmed`.
    Confirm { id: u64, pid: u64 },
    /// Tell the application how the confirmation of `id` went; the demand is then dealt
    /// with.
    Report { id: u64, error: Option<ConfirmError> },
    /// The demand is dealt with.
    Done,
}

/// Mathematical value of a [`HandlerAction`].
pub ghost enum HandlerActionView {
    AskNotify,
    AskSelect,
    Propose(SupplyOptsView),
    Confirm { id: u64, pid: u64 },
    Report { id: u64, error: Option<ConfirmError> },
    Done,
}

impl View for HandlerAction {
    type V = HandlerActionView;

    open spec fn view(&self) -> HandlerActionView {
        match self {
            HandlerAction::AskNotify => HandlerActionView::AskNotify,
            HandlerAction::AskSelect => HandlerActionView::AskSelect,
            HandlerAction::Propose(spo) => HandlerActionView::Propose(spo@),
            HandlerAction::Confirm { id, pid } => HandlerActionView::Confirm { id: *id, pid: *pid },
            HandlerAction::Report { id, error } => HandlerActionView::Report {
                id: *id,
                error: *error,
            },
            HandlerAction::Done => HandlerActionView::Done,
        }
    }
}

/// Mathematical value of a [`HandlerEvent`].
pub ghost enum HandlerEventView {
    Received,
    Offered(Option<SupplyOptsView>),
    Decided(bool),
    Confirmed(Option<ConfirmError>),
}

impl View for HandlerEvent {
    type V = HandlerEventView;

    open spec fn view(&self) -> HandlerEventView {
        match self {
            HandlerEvent::Received => HandlerEventView::Received,
            HandlerEvent::Offered(spo) => HandlerEventView::Offered(
                match spo {
                    Some(s) => Some(s@),
                    None => None,
                },
            ),
            HandlerEvent::Decided(ok) => HandlerEventView::Decided(*ok),
            HandlerEvent::Confirmed(res) => HandlerEventView::Confirmed(
                match res {
                    Ok(_) => None,
                    Err(e) => Some(*e),
                },
            ),
        }
    }
}

/// What the handling of a demand asks for after an event. A broadcast demand goes to
/// the application, and a supply it offers is proposed to the demand's sender. A demand
/// that selects one of the node's own proposals goes to the application too, and is
/// confirmed where the application accepts; how the confirmation went is reported back.
pub open spec fn handler_action(
    proposed: Seq<u64>,
    dm_id: u64,
    dm_target: u64,
    event: HandlerEventView,
) -> HandlerActionView {
    match event {
        HandlerEventView::Received => match route_of(dm_target, proposed) {
            DemandRoute::Notify => HandlerActionView::AskNotify,
            DemandRoute::Select => HandlerActionView::AskSelect,
            DemandRoute::Foreign => HandlerActionView::Done,
        },
        HandlerEventView::Offered(spo) => match spo {
            Some(s) => HandlerActionView::Propose(SupplyOptsView { target: dm_id, ..s }),
            None => HandlerActionView::Done,
        },
        HandlerEventView::Decided(ok) => if ok {
            HandlerActionView::Confirm { id: dm_id, pid: dm_target }
        } else {
            HandlerActionView::Done
        },
        HandlerEventView::Confirmed(error) => HandlerActionView::Report { id: dm_id, error },
    }
}

/// One step of the handling of the demand `dm`.
pub fn demand_handler_callback(state: &NodeState, dm: &Demand, event: HandlerEvent) -> (r:
    HandlerAction)
    ensures
        r@ == handler_action(state.supply_ids(), dm.id, dm.target_id, event@),
{
    match event {
        HandlerEvent::Received => {
            match generate_demand_callback(state, dm) {
                DemandRoute::Notify => HandlerAction::AskNotify,
                DemandRoute::Select => HandlerAction::AskSelect,
                DemandRoute::Foreign => HandlerAction::Done,
            }
        },
        HandlerEvent::Offered(spo) => {
            match spo {
                Some(s) => {
                    let mut s = s;
                    s.target = dm.id;
                    HandlerAction::Propose(s)
                },
                None => HandlerAction::Done,
            }
        },
        HandlerEvent::Decided(ok) => {
            if ok {
                HandlerAction::Confirm { id: dm.id, pid: dm.target_id }
            } else {
                HandlerAction::Done
            }
        },
        HandlerEvent::Confirmed(res) => {
            match res {
                Ok(_) => HandlerAction::Report { id: dm.id, error: None },
                Err(e) => HandlerAction::Report { id: dm.id, error: Some(e) },
            }
        },
    }
}

} // verus!
