//! Client-side runtime of a resource-exchange protocol: nodes advertise demands and
//! supplies on channels, settle a match by propose, select and confirm, and then talk
//! over message buses. The library holds the rules of that runtime as verified
//! transitions on plain values; the caller owns the connections and the clock.
use vstd::prelude::*;

pub mod api;
pub mod clock;
pub mod handlers;
pub mod idgen;
pub mod nodeapi;
pub mod nodeservinfo;
pub mod nodestate;
pub mod resilience;
pub mod signal;
pub mod sxserviceclient;

pub use crate::handlers::{demand_handler_callback, generate_demand_callback};
pub use crate::nodeservinfo::{NodeServInfo, SxServerOpt, WAIT_TIME};
pub use crate::resilience::{
    grpc_connect_server, reconnect_client, subscribe_demand, subscribe_supply, RECONNECT_WAIT,
};
pub use crate::signal::{
    call_defer_functions, register_defer_function, DeferFunction, DeferFunctions,
};
pub use crate::sxserviceclient::{
    DemandOpts, SXServiceClient, SXSynerexClient, SupplyOpts, MSG_TIME_OUT,
};

verus! {

/// Reseeds the node's generator of identifiers with a new node number: its sequence
/// starts at zero again. Nothing else of the node changes.
pub fn init_node_num(ni: &mut NodeServInfo, n: i32)
    ensures
        final(ni)@ == (crate::nodeservinfo::NodeServInfoView { node: n, sequence: 0, ..old(ni)@ }),
{
    ni.node.reseed(n);
}

/// A client of the exchange on a channel of the node `ni`, over the given connection,
/// under an identifier drawn from the node's generator.
pub fn new_sx_service_client(
    ni: &mut NodeServInfo,
    clt: SXSynerexClient,
    mtype: u32,
    arg_json: String,
) -> (r: SXServiceClient)
    ensures
        final(ni)@ == old(ni)@.drawn(),
        final(ni)@.issued(r.client_id),
        r@ == (crate::sxserviceclient::SXServiceClientView {
            client_id: r.client_id,
            channel_type: mtype,
            server_address: Some(clt.server_address@),
            arg_json: arg_json@,
            mbus_ids: Seq::<u64>::empty(),
        }),
        r.wf(),
{
    ni.new_sx_service_client(clt, mtype, arg_json)
}

} // verus!
