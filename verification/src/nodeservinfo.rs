//! A node's life with the directory service: registration, keep-alive, the commands the
//! directory sends back, and unregistration. Each transition takes what the directory
//! answered as a plain value and says what to send next.
use vstd::prelude::*;
use crate::api::{Supply, Demand};
use crate::idgen::{carries, IdGenerator};
use crate::nodeapi::{
    KeepAliveCommand, NodeId, NodeIdView, NodeInfo, NodeInfoView, NodeType, NodeUpdate,
    NodeUpdateView, Response, ServerStatus,
};
use crate::nodestate::NodeState;
use crate::sxserviceclient::{SXServiceClient, SXServiceClientView, SXSynerexClient};

verus! {

/// Seconds a locked node waits before it forgets its proposals on its own.
pub const WAIT_TIME: u64 = 30;

/// Mathematical value of an [`SxServerOpt`].
pub ghost struct SxServerOptView {
    pub node_type: NodeType,
    pub server_info: Seq<char>,
    pub cluster_id: i32,
    pub area_id: Seq<char>,
    pub gw_info: Seq<char>,
}

/// What a server or gateway adds to its registration.
#[derive(Clone, Debug, PartialEq)]
pub struct SxServerOpt {
    pub node_type: NodeType,
    pub server_info: String,
    pub cluster_id: i32,
    pub area_id: String,
    pub gw_info: String,
}

impl View for SxServerOpt {
    type V = SxServerOptView;

    open spec fn view(&self) -> SxServerOptView {
        SxServerOptView {
            node_type: self.node_type,
            server_info: self.server_info@,
            cluster_id: self.cluster_id,
            area_id: self.area_id@,
            gw_info: self.gw_info@,
        }
    }
}

/// The value of optional server options.
pub open spec fn server_opt_view(serv: Option<&SxServerOpt>) -> Option<SxServerOptView> {
    match serv {
        Some(s) => Some(s@),
        None => None,
    }
}

/// Where a node stands with the directory.
#[derive(Clone, Copy, Debug, PartialEq, Eq, Structural)]
pub enum LifecyclePhase {
    Unregistered,
    Registering,
    Active,
    Reconnecting,
}

/// Why a registration did not succeed.
#[derive(Clone, Copy, Debug, PartialEq, Eq, Structural)]
pub enum RegisterError {
    /// No connection to the directory could be opened.
    NodeConnection,
    /// The directory did not answer, or refused the node.
    Registration,
}

impl RegisterError {
    /// The wording of the error, as a sequence of characters.
    pub open spec fn text(&self) -> Seq<char> {
        match self {
            RegisterError::NodeConnection => "register_node_with_cmd: node connection error"@,
            RegisterError::Registration => "register_node error"@,
        }
    }

    /// The wording of the error.
    pub fn message(&self) -> (r: &'static str)
        ensures
            r@ == self.text(),
    {
        match self {
            RegisterError::NodeConnection => "register_node_with_cmd: node connection error",
            RegisterError::Registration => "register_node error",
        }
    }
}

/// The identity of a node that is not registered.
pub open spec fn blank_identity() -> NodeIdView {
    NodeIdView {
        node_id: -1i32,
        secret: 0,
        server_info: Seq::<char>::empty(),
        keepalive_duration: 0,
    }
}

/// The identity a node is left with when the directory did not answer a registration.
pub open spec fn failed_identity() -> NodeIdView {
    NodeIdView {
        node_id: -1i32,
        secret: 0,
        server_info: Seq::<char>::empty(),
        keepalive_duration: -1i32,
    }
}

/// The health record of a node that has just been given an identity.
pub open spec fn fresh_update(node_id: i32, secret: u64) -> NodeUpdateView {
    NodeUpdateView {
        node_id,
        secret,
        update_count: 0,
        node_status: 0,
        node_arg: Seq::<char>::empty(),
        status: None,
    }
}

/// The registration request of a node: that of a provider in the default area, with the
/// server options laid over it where there are any.
pub open spec fn registration_info(
    name: Seq<char>,
    channels: Seq<u32>,
    with_node_id: i32,
    serv: Option<SxServerOptView>,
    pbase_version: Seq<char>,
    bin_version: Seq<char>,
) -> NodeInfoView {
    NodeInfoView {
        node_name: name,
        node_type: match serv {
            Some(s) => s.node_type,
            None => NodeType::Provider,
        },
        server_info: match serv {
            Some(s) => s.server_info,
            None => Seq::<char>::empty(),
        },
        node_pbase_version: pbase_version,
        with_node_id,
        cluster_id: match serv {
            Some(s) => s.cluster_id,
            None => 0i32,
        },
        area_id: match serv {
            Some(s) => s.area_id,
            None => "Default"@,
        },
        channel_types: channels,
        gw_info: match serv {
            Some(s) => s.gw_info,
            None => Seq::<char>::empty(),
        },
        bin_version,
        count: 0,
        last_alive_time: None,
        keepalive_arg: Seq::<char>::empty(),
    }
}

/// Mathematical value of a [`NodeServInfo`].
pub ghost struct NodeServInfoView {
    pub node: i32,
    pub sequence: nat,
    pub nid: NodeIdView,
    pub nupd: NodeUpdateView,
    pub my_node_name: Seq<char>,
    pub my_server_info: Seq<char>,
    pub my_node_type: NodeType,
    pub pbase_version: Seq<char>,
    pub bin_version: Seq<char>,
    pub connected: bool,
    pub msg_count: u64,
    pub proposed_supply: Seq<Supply>,
    pub proposed_demand: Seq<Demand>,
    pub locked: bool,
    pub phase: LifecyclePhase,
}

impl NodeServInfoView {
    /// A node that is marked unregistered has no secret.
    pub open spec fn coherent(self) -> bool {
        self.phase == LifecyclePhase::Unregistered ==> self.nid.secret == 0
    }

    /// Nothing is outstanding.
    pub open spec fn safe(self) -> bool {
        self.proposed_supply.len() == 0 && self.proposed_demand.len() == 0
    }

    /// The same node with no proposals, unlocked.
    pub open spec fn reset(self) -> NodeServInfoView {
        NodeServInfoView {
            proposed_supply: Seq::<Supply>::empty(),
            proposed_demand: Seq::<Demand>::empty(),
            locked: false,
            ..self
        }
    }

    /// The same node under a new identity: the generator reseeded with the identity's
    /// node number and the health record started anew.
    pub open spec fn identified(self, nid: NodeIdView) -> NodeServInfoView {
        NodeServInfoView {
            node: nid.node_id,
            sequence: 0,
            nid,
            nupd: fresh_update(nid.node_id, nid.secret),
            phase: LifecyclePhase::Active,
            ..self
        }
    }

    /// The same node after its generator has handed out one more identifier.
    pub open spec fn drawn(self) -> NodeServInfoView {
        NodeServInfoView { sequence: (self.sequence + 1) % 4096, ..self }
    }

    /// Whether `id` shows the state of the node's generator: its sequence number in
    /// the lowest 12 bits and its node number, modulo 32, in bits 12 to 16. The
    /// identifier that the generator handed out last does.
    pub open spec fn issued(self, id: u64) -> bool {
        carries(id, self.node, self.sequence)
    }

    /// The same node after the directory answered a request for a new identity in
    /// place of the current one. An identity whose keep-alive duration is not -1 is
    /// taken. Without an answer, or with one that refuses, the node goes on as it was.
    pub open spec fn reconnected(self, reply: Option<NodeIdView>) -> NodeServInfoView {
        match granted(reply) {
            Some(nid) => self.identified(nid),
            None => NodeServInfoView { phase: LifecyclePhase::Active, ..self },
        }
    }

    /// The same node after it has let go of its identity.
    pub open spec fn disconnected(self) -> NodeServInfoView {
        NodeServInfoView {
            nid: NodeIdView { secret: 0, ..self.nid },
            phase: LifecyclePhase::Unregistered,
            ..self
        }
    }

    /// The request by which the node asks the directory for a new identity in place of
    /// its current one.
    pub open spec fn reconnect_info(self) -> NodeInfoView {
        NodeInfoView {
            node_name: self.my_node_name,
            node_type: self.my_node_type,
            server_info: self.my_server_info,
            node_pbase_version: self.pbase_version,
            with_node_id: self.nid.node_id,
            cluster_id: 0,
            area_id: Seq::<char>::empty(),
            channel_types: Seq::<u32>::empty(),
            gw_info: Seq::<char>::empty(),
            bin_version: self.bin_version,
            count: 0,
            last_alive_time: Some(crate::api::Timestamp { seconds: 0, nanos: 0 }),
            keepalive_arg: Seq::<char>::empty(),
        }
    }

    /// The node after one more keep-alive was counted, with the host load where one was
    /// read.
    pub open spec fn counted(self, load: Option<(u64, u64)>) -> NodeServInfoView {
        NodeServInfoView {
            nupd: NodeUpdateView {
                update_count: (self.nupd.update_count + 1) as i32,
                status: match load {
                    Some(l) => Some(
                        ServerStatus { cpu: l.0, memory: l.1, msg_count: self.msg_count },
                    ),
                    None => self.nupd.status,
                },
                ..self.nupd
            },
            ..self
        }
    }
}

/// Letting go of an identity twice is the same as letting go of it once: the node has
/// no secret after the first time, and the second changes nothing.
pub proof fn lemma_unregister_twice(node: NodeServInfoView)
    ensures
        node.disconnected().nid.secret == 0,
        node.disconnected().disconnected() == node.disconnected(),
{
}

/// A reset node has nothing outstanding and is not locked, whatever it held before.
pub proof fn lemma_reset_is_safe(node: NodeServInfoView)
    ensures
        node.reset().safe(),
        !node.reset().locked,
        node.reset().reset() == node.reset(),
{
}

/// The identity that the directory granted, if it granted one: an answer whose
/// keep-alive duration is -1 is a refusal.
pub open spec fn granted(reply: Option<NodeIdView>) -> Option<NodeIdView> {
    match reply {
        Some(nid) => if nid.keepalive_duration == -1 {
            None
        } else {
            Some(nid)
        },
        None => None,
    }
}

/// The identity a node is left with when the directory refused it or did not answer:
/// the refused identity without its secret, or no identity at all.
pub open spec fn refused_identity(reply: Option<NodeIdView>) -> NodeIdView {
    match reply {
        Some(nid) => NodeIdView { secret: 0, ..nid },
        None => failed_identity(),
    }
}

/// No event of the keep-alive loop makes a node that is marked unregistered hold a
/// secret, and letting go of an identity or failing to register never does.
pub proof fn lemma_unregistered_has_no_secret(
    pre: NodeServInfoView,
    event: KeepAliveEventView,
    reply: Option<NodeIdView>,
    has_cmd_func: bool,
)
    requires
        pre.coherent(),
    ensures
        keep_alive_next(pre, event, has_cmd_func).coherent(),
        pre.disconnected().coherent(),
        pre.reconnected(reply).coherent(),
        granted(reply) is None ==> (NodeServInfoView {
            nid: refused_identity(reply),
            phase: LifecyclePhase::Unregistered,
            ..pre
        }).coherent(),
{
}

/// A registration that fails leaves the node without a secret, so that a keep-alive
/// loop run on it ends at its first check.
pub proof fn lemma_failed_registration_has_no_secret(
    pre: NodeServInfoView,
    reply: Option<NodeIdView>,
    has_cmd_func: bool,
)
    requires
        granted(reply) is None,
    ensures
        ({
            let next = NodeServInfoView {
                nid: refused_identity(reply),
                phase: LifecyclePhase::Unregistered,
                ..pre
            };
            &&& next.nid.secret == 0
            &&& keep_alive_action(next, KeepAliveEventView::Elapsed, has_cmd_func) is Finish
        }),
{
}

/// A request for a new identity that fails, by silence or by refusal, changes nothing
/// of the node but its phase, and the keep-alive loop goes on: a node that had a secret
/// still has it, and the loop does not end at its next check.
pub proof fn lemma_failed_reconnect_goes_on(
    pre: NodeServInfoView,
    reply: Option<NodeIdView>,
    has_cmd_func: bool,
)
    requires
        granted(reply) is None,
        pre.nid.secret != 0,
    ensures
        ({
            let ev = KeepAliveEventView::Registered { reply };
            let next = keep_alive_next(pre, ev, has_cmd_func);
            &&& next == NodeServInfoView { phase: LifecyclePhase::Active, ..pre }
            &&& keep_alive_action(pre, ev, has_cmd_func) is Continue
            &&& !(keep_alive_action(next, KeepAliveEventView::Elapsed, has_cmd_func) is Finish)
        }),
{
}

/// The value of an optional identity.
pub open spec fn identity_view(reply: Option<NodeId>) -> Option<NodeIdView> {
    match reply {
        Some(n) => Some(n@),
        None => None,
    }
}

/// Whether the directory acknowledged a call.
pub open spec fn acknowledged(reply: Option<Response>) -> bool {
    match reply {
        Some(r) => r.ok,
        None => false,
    }
}

/// A keep-alive interval in seconds. A negative duration reads as the unsigned number
/// with the same bits, as wide as a 64-bit counter.
pub open spec fn interval_seconds(duration: i32) -> u64 {
    if duration >= 0 {
        duration as u64
    } else {
        (duration + 0x1_0000_0000_0000_0000) as u64
    }
}

/// What happened since the keep-alive loop last said what to do.
#[derive(Debug, PartialEq)]
pub enum KeepAliveEvent {
    /// A round begins.
    Begin,
    /// The interval of the round has passed.
    Elapsed,
    /// The host load was read: the bit patterns of the two percentages.
    Sampled { cpu: u64, memory: u64 },
    /// The directory answered the keep-alive.
    Replied { command: KeepAliveCommand, err: String },
    /// The keep-alive did not get through.
    Failed,
    /// The directory answered a registration, or did not.
    Registered { reply: Option<NodeId> },
    /// The unregistration was sent; `answer` is what the directory said, if anything.
    Unregistered { answer: Option<Response>, command: KeepAliveCommand, err: String },
    /// The application was told of the command that made the node unregister.
    Notified,
}

/// Mathematical value of a [`KeepAliveEvent`].
pub ghost enum KeepAliveEventView {
    Begin,
    Elapsed,
    Sampled { cpu: u64, memory: u64 },
    Replied { command: KeepAliveCommand, err: Seq<char> },
    Failed,
    Registered { reply: Option<NodeIdView> },
    Unregistered { acknowledged: bool, command: KeepAliveCommand, err: Seq<char> },
    Notified,
}

impl View for KeepAliveEvent {
    type V = KeepAliveEventView;

    open spec fn view(&self) -> KeepAliveEventView {
        match self {
            KeepAliveEvent::Begin => KeepAliveEventView::Begin,
            KeepAliveEvent::Elapsed => KeepAliveEventView::Elapsed,
            KeepAliveEvent::Sampled { cpu, memory } => KeepAliveEventView::Sampled {
                cpu: *cpu,
                memory: *memory,
            },
            KeepAliveEvent::Replied { command, err } => KeepAliveEventView::Replied {
                command: *command,
                err: err@,
            },
            KeepAliveEvent::Failed => KeepAliveEventView::Failed,
            KeepAliveEvent::Registered { reply } => KeepAliveEventView::Registered {
                reply: identity_view(*reply),
            },
            KeepAliveEvent::Unregistered { answer, command, err } => {
                KeepAliveEventView::Unregistered {
                    acknowledged: acknowledged(*answer),
                    command: *command,
                    err: err@,
                }
            },
            KeepAliveEvent::Notified => KeepAliveEventView::Notified,
        }
    }
}

/// What the keep-alive loop wants done next.
#[derive(Debug, PartialEq)]
pub enum KeepAliveAction {
    /// Wait this many seconds, then report `Elapsed`.
    Sleep { seconds: u64 },
    /// The node is disconnected: leave the loop.
    Finish,
    /// Read the host load, then report `Sampled`.
    SampleHost,
    /// Send this keep-alive, then report `Replied` or `Failed`.
    Send { update: NodeUpdate },
    /// Ask the directory for a new identity, then report `Registered`.
    Register { info: NodeInfo },
    /// Unregister this identity, then report `Unregistered` with the same command and
    /// text.
    Unregister { identity: NodeId, command: KeepAliveCommand, err: String },
    /// Tell the application of the command; report `Notified` where `then_reset` is
    /// set, else begin the next round.
    Notify { command: KeepAliveCommand, err: String, then_reset: bool },
    /// Start the timer after which the node resets itself (see
    /// [`NodeServInfo::migration_timeout`]), and begin the next round.
    ArmUnlock { seconds: u64 },
    /// Begin the next round.
    Continue,
}

/// Mathematical value of a [`KeepAliveAction`].
pub ghost enum KeepAliveActionView {
    Sleep { seconds: u64 },
    Finish,
    SampleHost,
    Send { update: NodeUpdateView },
    Register { info: NodeInfoView },
    Unregister { identity: NodeIdView, command: KeepAliveCommand, err: Seq<char> },
    Notify { command: KeepAliveCommand, err: Seq<char>, then_reset: bool },
    ArmUnlock { seconds: u64 },
    Continue,
}

impl View for KeepAliveAction {
    type V = KeepAliveActionView;

    open spec fn view(&self) -> KeepAliveActionView {
        match self {
            KeepAliveAction::Sleep { seconds } => KeepAliveActionView::Sleep { seconds: *seconds },
            KeepAliveAction::Finish => KeepAliveActionView::Finish,
            KeepAliveAction::SampleHost => KeepAliveActionView::SampleHost,
            KeepAliveAction::Send { update } => KeepAliveActionView::Send { update: update@ },
            KeepAliveAction::Register { info } => KeepAliveActionView::Register { info: info@ },
            KeepAliveAction::Unregister { identity, command, err } => {
                KeepAliveActionView::Unregister {
                    identity: identity@,
                    command: *command,
                    err: err@,
                }
            },
            KeepAliveAction::Notify { command, err, then_reset } => KeepAliveActionView::Notify {
                command: *command,
                err: err@,
                then_reset: *then_reset,
            },
            KeepAliveAction::ArmUnlock { seconds } => KeepAliveActionView::ArmUnlock {
                seconds: *seconds,
            },
            KeepAliveAction::Continue => KeepAliveActionView::Continue,
        }
    }
}

/// The node after an event of the keep-alive loop.
pub open spec fn keep_alive_next(
    pre: NodeServInfoView,
    event: KeepAliveEventView,
    has_cmd_func: bool,
) -> NodeServInfoView {
    match event {
        KeepAliveEventView::Begin => NodeServInfoView { msg_count: 0, ..pre },
        KeepAliveEventView::Elapsed => {
            if pre.nid.secret == 0 || pre.my_node_type == NodeType::Server {
                pre
            } else {
                pre.counted(None)
            }
        },
        KeepAliveEventView::Sampled { cpu, memory } => pre.counted(Some((cpu, memory))),
        KeepAliveEventView::Replied { command, err } => match command {
            KeepAliveCommand::NoCommand => pre,
            KeepAliveCommand::Reconnect => NodeServInfoView {
                phase: LifecyclePhase::Reconnecting,
                ..pre
            },
            KeepAliveCommand::ServerChange => {
                if pre.safe() {
                    pre
                } else {
                    NodeServInfoView { locked: true, ..pre }
                }
            },
            KeepAliveCommand::ProviderDisconnect => pre,
        },
        KeepAliveEventView::Failed => pre,
        KeepAliveEventView::Registered { reply } => pre.reconnected(reply),
        KeepAliveEventView::Unregistered { acknowledged, command, err } => {
            if has_cmd_func {
                pre.disconnected()
            } else {
                pre.disconnected().reset()
            }
        },
        KeepAliveEventView::Notified => pre.reset(),
    }
}

/// What the keep-alive loop asks for after an event.
pub open spec fn keep_alive_action(
    pre: NodeServInfoView,
    event: KeepAliveEventView,
    has_cmd_func: bool,
) -> KeepAliveActionView {
    match event {
        KeepAliveEventView::Begin => KeepAliveActionView::Sleep {
            seconds: interval_seconds(pre.nid.keepalive_duration),
        },
        KeepAliveEventView::Elapsed => {
            if pre.nid.secret == 0 {
                KeepAliveActionView::Finish
            } else if pre.my_node_type == NodeType::Server {
                KeepAliveActionView::SampleHost
            } else {
                KeepAliveActionView::Send { update: pre.counted(None).nupd }
            }
        },
        KeepAliveEventView::Sampled { cpu, memory } => KeepAliveActionView::Send {
            update: pre.counted(Some((cpu, memory))).nupd,
        },
        KeepAliveEventView::Replied { command, err } => match command {
            KeepAliveCommand::NoCommand => KeepAliveActionView::Continue,
            KeepAliveCommand::Reconnect => KeepAliveActionView::Register {
                info: pre.reconnect_info(),
            },
            KeepAliveCommand::ServerChange => {
                if pre.safe() {
                    KeepAliveActionView::Unregister { identity: pre.nid, command, err }
                } else if !pre.locked {
                    KeepAliveActionView::ArmUnlock { seconds: WAIT_TIME }
                } else {
                    KeepAliveActionView::Continue
                }
            },
            KeepAliveCommand::ProviderDisconnect => {
                if pre.my_node_type == NodeType::Server && has_cmd_func {
                    KeepAliveActionView::Notify { command, err, then_reset: false }
                } else {
                    KeepAliveActionView::Continue
                }
            },
        },
        KeepAliveEventView::Failed => KeepAliveActionView::Continue,
        KeepAliveEventView::Registered { reply } => KeepAliveActionView::Continue,
        KeepAliveEventView::Unregistered { acknowledged, command, err } => {
            if has_cmd_func {
                KeepAliveActionView::Notify { command, err, then_reset: true }
            } else {
                KeepAliveActionView::Continue
            }
        },
        KeepAliveEventView::Notified => KeepAliveActionView::Continue,
    }
}

/// A server change never unregisters a node that has proposals outstanding. The node
/// is locked instead; it keeps its identity and its proposals, and the reset timer is
/// armed exactly if the node was not locked already.
pub proof fn lemma_server_change_while_busy(
    pre: NodeServInfoView,
    err: Seq<char>,
    has_cmd_func: bool,
)
    requires
        !pre.safe(),
    ensures
        ({
            let ev = KeepAliveEventView::Replied { command: KeepAliveCommand::ServerChange, err };
            let next = keep_alive_next(pre, ev, has_cmd_func);
            let act = keep_alive_action(pre, ev, has_cmd_func);
            &&& next == NodeServInfoView { locked: true, ..pre }
            &&& !(act is Unregister)
            &&& (act is ArmUnlock) == !pre.locked
            &&& (act is ArmUnlock) ==> act == KeepAliveActionView::ArmUnlock { seconds: 30 }
        }),
{
}

/// The keep-alive loop asks to unregister only on a server change that finds nothing
/// outstanding, and it locks a node only on a server change that finds it busy.
pub proof fn lemma_migration_rules(
    pre: NodeServInfoView,
    event: KeepAliveEventView,
    has_cmd_func: bool,
)
    ensures
        keep_alive_action(pre, event, has_cmd_func) is Unregister <==> (event matches KeepAliveEventView::Replied {
            command: KeepAliveCommand::ServerChange,
            ..
        } && pre.safe()),
        keep_alive_next(pre, event, has_cmd_func).locked && !pre.locked ==> (event matches KeepAliveEventView::Replied {
            command: KeepAliveCommand::ServerChange,
            ..
        } && !pre.safe()),
{
}

/// The keep-alive loop ends only when an interval has passed and the node has no
/// secret; no answer of the directory and no failure ends it.
pub proof fn lemma_loop_ends_without_secret(
    pre: NodeServInfoView,
    event: KeepAliveEventView,
    has_cmd_func: bool,
)
    ensures
        keep_alive_action(pre, event, has_cmd_func) is Finish <==> (event is Elapsed
            && pre.nid.secret == 0),
        event is Failed ==> keep_alive_next(pre, event, has_cmd_func) == pre && keep_alive_action(
            pre,
            event,
            has_cmd_func,
        ) is Continue,
{
}

/// Whether an event makes the loop count one more keep-alive.
pub open spec fn counts_keep_alive(pre: NodeServInfoView, event: KeepAliveEventView) -> bool {
    match event {
        KeepAliveEventView::Elapsed => pre.nid.secret != 0 && pre.my_node_type != NodeType::Server,
        KeepAliveEventView::Sampled { cpu, memory } => true,
        _ => false,
    }
}

/// A node as the directory service knows it, with the generator of its identifiers and
/// the proposals it has outstanding.
#[derive(Debug)]
pub struct NodeServInfo {
    pub node: IdGenerator,
    pub nid: NodeId,
    pub nupd: NodeUpdate,
    pub my_node_name: String,
    pub my_server_info: String,
    pub my_node_type: NodeType,
    /// Version of the protocol base that the node speaks.
    pub pbase_version: String,
    /// Version of the program that the node runs.
    pub bin_version: String,
    /// Whether a connection to the directory is open.
    pub connected: bool,
    pub msg_count: u64,
    pub node_state: NodeState,
    pub phase: LifecyclePhase,
}

impl View for NodeServInfo {
    type V = NodeServInfoView;

    open spec fn view(&self) -> NodeServInfoView {
        NodeServInfoView {
            node: self.node.node(),
            sequence: self.node.sequence(),
            nid: self.nid@,
            nupd: self.nupd@,
            my_node_name: self.my_node_name@,
            my_server_info: self.my_server_info@,
            my_node_type: self.my_node_type,
            pbase_version: self.pbase_version@,
            bin_version: self.bin_version@,
            connected: self.connected,
            msg_count: self.msg_count,
            proposed_supply: self.node_state.proposed_supply@,
            proposed_demand: self.node_state.proposed_demand@,
            locked: self.node_state.locked,
            phase: self.phase,
        }
    }
}

impl NodeServInfo {
    /// A node that has not registered: no identity, no connection, nothing proposed.
    pub fn new(pbase_version: String, bin_version: String) -> (r: NodeServInfo)
        ensures
            r@ == (NodeServInfoView {
                node: 0,
                sequence: 0,
                nid: blank_identity(),
                nupd: fresh_update(0, 0),
                my_node_name: Seq::<char>::empty(),
                my_server_info: Seq::<char>::empty(),
                my_node_type: NodeType::Provider,
                pbase_version: pbase_version@,
                bin_version: bin_version@,
                connected: false,
                msg_count: 0,
                proposed_supply: Seq::<Supply>::empty(),
                proposed_demand: Seq::<Demand>::empty(),
                locked: false,
                phase: LifecyclePhase::Unregistered,
            }),
    {
        NodeServInfo {
            node_state: NodeState::new(),
            node: IdGenerator::new(0),
            nid: NodeId {
                node_id: -1,
                secret: 0,
                server_info: String::new(),
                keepalive_duration: 0,
            },
            nupd: NodeUpdate {
                node_id: 0,
                secret: 0,
                update_count: 0,
                node_status: 0,
                node_arg: String::new(),
                status: None,
            },
            my_node_name: String::new(),
            my_server_info: String::new(),
            my_node_type: NodeType::Provider,
            pbase_version,
            bin_version,
            connected: false,
            msg_count: 0,
            phase: LifecyclePhase::Unregistered,
        }
    }

    /// The identity to ask the directory about when the name of node `n` is wanted.
    pub fn get_node_name(&self, n: i32) -> (r: NodeId)
        ensures
            r@ == (NodeIdView {
                node_id: n,
                secret: 0,
                server_info: Seq::<char>::empty(),
                keepalive_duration: 60,
            }),
    {
        NodeId { node_id: n, secret: 0, server_info: String::new(), keepalive_duration: 60 }
    }

    /// The name in the directory's answer, or "Unknown" where it gave none.
    pub fn get_node_name_reply(reply: Option<NodeInfo>) -> (r: String)
        ensures
            r@ == match reply {
                Some(info) => info.node_name@,
                None => "Unknown"@,
            },
    {
        match reply {
            Some(info) => info.node_name,
            None => "Unknown".to_owned(),
        }
    }

    /// Sets the status that goes out with the next keep-alive.
    pub fn set_node_status(&mut self, status: i32, arg: String)
        ensures
            final(self)@ == (NodeServInfoView {
                nupd: NodeUpdateView { node_status: status, node_arg: arg@, ..old(self)@.nupd },
                ..old(self)@
            }),
    {
        self.nupd.node_status = status;
        self.nupd.node_arg = arg;
    }

    /// Counts one more message handled in this keep-alive round.
    pub fn msg_count_up(&mut self)
        requires
            old(self).msg_count < u64::MAX,
        ensures
            final(self)@ == (NodeServInfoView {
                msg_count: (old(self).msg_count + 1) as u64,
                ..old(self)@
            }),
    {
        self.msg_count = self.msg_count + 1;
    }

    /// Draws the next identifier from the node's generator. The generator's sequence
    /// moves on by one; nothing else of the node changes. The lowest 12 bits of the
    /// identifier are the new sequence number, and its bits 12 to 16 are the node number
    /// modulo 32.
    pub fn generate_int_id(&mut self) -> (id: u64)
        ensures
            final(self)@ == old(self)@.drawn(),
            id & 0xfff == final(self)@.sequence,
            (id >> 12) & 0x1f == (old(self)@.node as int) % 32,
            final(self)@.issued(id),
    {
        self.node.generate()
    }

    /// A client of the exchange on a channel, over the given connection, under a fresh
    /// identifier and with no bus joined.
    pub fn new_sx_service_client(
        &mut self,
        clt: SXSynerexClient,
        mtype: u32,
        arg_json: String,
    ) -> (r: SXServiceClient)
        ensures
            final(self)@ == old(self)@.drawn(),
            final(self)@.issued(r.client_id),
            r@ == (SXServiceClientView {
                client_id: r.client_id,
                channel_type: mtype,
                server_address: Some(clt.server_address@),
                arg_json: arg_json@,
                mbus_ids: Seq::<u64>::empty(),
            }),
            r.wf(),
    {
        let client_id = self.generate_int_id();
        SXServiceClient {
            client_id,
            channel_type: mtype,
            sxclient: Some(clt),
            arg_json,
            mbus_ids: Vec::new(),
        }
    }

    /// Makes the node take an identity: stores it, reseeds the generator with its node
    /// number and starts the health record anew.
    fn take_identity(&mut self, nid: NodeId)
        ensures
            final(self)@ == old(self)@.identified(nid@),
    {
        self.node.reseed(nid.node_id);
        self.nupd = NodeUpdate {
            node_id: nid.node_id,
            secret: nid.secret,
            update_count: 0,
            node_status: 0,
            node_arg: String::new(),
            status: None,
        };
        self.nid = nid;
        self.phase = LifecyclePhase::Active;
    }

    /// First half of a registration, after the caller has tried to open a connection to
    /// the directory. Without a connection the registration fails at once and the node
    /// is unregistered: a secret it had is struck out. With a connection the node
    /// remembers its name and kind and the request to send is returned.
    pub fn register_node_with_cmd(
        &mut self,
        connected: bool,
        nm: String,
        channels: Vec<u32>,
        serv: Option<&SxServerOpt>,
    ) -> (r: Result<NodeInfo, RegisterError>)
        ensures
            !connected ==> r == Err::<NodeInfo, RegisterError>(RegisterError::NodeConnection)
                && final(self)@ == (NodeServInfoView {
                connected: false,
                ..old(self)@.disconnected()
            }),
            connected ==> r is Ok && r->Ok_0@ == registration_info(
                nm@,
                channels@,
                old(self).nid.node_id,
                server_opt_view(serv),
                old(self).pbase_version@,
                old(self).bin_version@,
            ) && final(self)@ == (NodeServInfoView {
                connected: true,
                phase: LifecyclePhase::Registering,
                my_node_name: nm@,
                my_node_type: match serv {
                    Some(s) => s.node_type,
                    None => NodeType::Provider,
                },
                my_server_info: match serv {
                    Some(s) => s.server_info@,
                    None => old(self).my_server_info@,
                },
                ..old(self)@
            }),
    {
        self.connected = connected;
        if !connected {
            self.nid.secret = 0;
            self.phase = LifecyclePhase::Unregistered;
            return Err(RegisterError::NodeConnection);
        }
        self.phase = LifecyclePhase::Registering;
        self.my_node_type = NodeType::Provider;
        self.my_node_name = nm.clone();
        let mut nif = NodeInfo {
            node_name: nm,
            node_type: NodeType::Provider,
            server_info: String::new(),
            node_pbase_version: self.pbase_version.clone(),
            with_node_id: self.nid.node_id,
            cluster_id: 0,
            area_id: "Default".to_owned(),
            channel_types: channels,
            gw_info: String::new(),
            bin_version: self.bin_version.clone(),
            count: 0,
            last_alive_time: None,
            keepalive_arg: String::new(),
        };
        match serv {
            Some(s) => {
                self.my_node_type = s.node_type;
                self.my_server_info = s.server_info.clone();
                nif.node_type = s.node_type;
                nif.server_info = s.server_info.clone();
                nif.cluster_id = s.cluster_id;
                nif.area_id = s.area_id.clone();
                nif.gw_info = s.gw_info.clone();
            },
            None => {},
        }
        Ok(nif)
    }

    /// Second half of a registration: what the directory answered, `None` where the
    /// call did not get through. The node is registered exactly when an identity came
    /// back whose keep-alive duration is not -1; the address of the server it names is
    /// then returned, and the generator starts anew under the identity's node number.
    /// Otherwise the node stays unregistered and without a secret: it keeps the refused
    /// identity with the secret struck out or, where none came, no identity at all; the
    /// generator is left as it was.
    pub fn register_node_reply(&mut self, reply: Option<NodeId>) -> (r: Result<
        String,
        RegisterError,
    >)
        ensures
            match granted(identity_view(reply)) {
                Some(nid) => {
                    &&& r is Ok
                    &&& r->Ok_0@ == nid.server_info
                    &&& final(self)@ == old(self)@.identified(nid)
                },
                None => {
                    &&& r == Err::<String, RegisterError>(RegisterError::Registration)
                    &&& final(self)@ == (NodeServInfoView {
                        nid: refused_identity(identity_view(reply)),
                        phase: LifecyclePhase::Unregistered,
                        ..old(self)@
                    })
                    &&& final(self)@.nid.secret == 0
                },
            },
    {
        let mut nid = match reply {
            Some(nid) => nid,
            None => NodeId {
                node_id: -1,
                secret: 0,
                server_info: String::new(),
                keepalive_duration: -1,
            },
        };
        if nid.keepalive_duration == -1 {
            nid.secret = 0;
            self.nid = nid;
            self.phase = LifecyclePhase::Unregistered;
            return Err(RegisterError::Registration);
        }
        let server_info = nid.server_info.clone();
        self.take_identity(nid);
        Ok(server_info)
    }

    /// The request by which the node, told to reconnect, asks for an identity again.
    pub fn reconnect_node_serv(&mut self) -> (r: NodeInfo)
        ensures
            r@ == old(self)@.reconnect_info(),
            final(self)@ == (NodeServInfoView {
                phase: LifecyclePhase::Reconnecting,
                ..old(self)@
            }),
    {
        self.phase = LifecyclePhase::Reconnecting;
        NodeInfo {
            node_name: self.my_node_name.clone(),
            node_type: self.my_node_type,
            server_info: self.my_server_info.clone(),
            node_pbase_version: self.pbase_version.clone(),
            with_node_id: self.nid.node_id,
            bin_version: self.bin_version.clone(),
            cluster_id: 0,
            area_id: String::new(),
            channel_types: Vec::new(),
            gw_info: String::new(),
            count: 0,
            last_alive_time: Some(crate::api::Timestamp { seconds: 0, nanos: 0 }),
            keepalive_arg: String::new(),
        }
    }

    /// What the directory answered to a reconnection, `None` where the call did not get
    /// through. An identity whose keep-alive duration is not -1 is taken, and the
    /// generator starts anew under its node number. Without an answer, or with one that
    /// refuses, the node goes on under the old identity, with its health record and its
    /// generator as they were.
    pub fn reconnect_node_serv_reply(&mut self, reply: Option<NodeId>) -> (r: Result<
        (),
        RegisterError,
    >)
        ensures
            r == match granted(identity_view(reply)) {
                Some(_) => Ok::<(), RegisterError>(()),
                None => Err::<(), RegisterError>(RegisterError::Registration),
            },
            final(self)@ == old(self)@.reconnected(identity_view(reply)),
    {
        match reply {
            Some(nid) => {
                if nid.keepalive_duration == -1 {
                    self.phase = LifecyclePhase::Active;
                    Err(RegisterError::Registration)
                } else {
                    self.take_identity(nid);
                    Ok(())
                }
            },
            None => {
                self.phase = LifecyclePhase::Active;
                Err(RegisterError::Registration)
            },
        }
    }

    /// The identity to unregister: the current one.
    pub fn un_register_node(&self) -> (r: NodeId)
        ensures
            r@ == self.nid@,
    {
        self.nid.duplicate()
    }

    /// The unregistration was sent. Whatever the directory answered, or if it did not,
    /// the node lets go of its secret. Returns whether the directory acknowledged.
    pub fn un_register_node_reply(&mut self, reply: Option<Response>) -> (r: bool)
        ensures
            r == acknowledged(reply),
            final(self)@ == old(self)@.disconnected(),
            final(self).nid.secret == 0,
    {
        self.nid.secret = 0;
        self.phase = LifecyclePhase::Unregistered;
        match reply {
            Some(resp) => resp.ok,
            None => false,
        }
    }

    /// The timer armed when a server change found the node busy has run out: the node
    /// forgets its proposals and unlocks, whether or not they were settled meanwhile.
    pub fn migration_timeout(&mut self)
        ensures
            final(self)@ == old(self)@.reset(),
    {
        self.node_state.init();
    }

    /// One more keep-alive: counts it, notes the host load where one was read, and
    /// returns the record to send.
    fn count_keep_alive(&mut self, load: Option<(u64, u64)>) -> (r: NodeUpdate)
        requires
            old(self).nupd.update_count < i32::MAX,
        ensures
            final(self)@ == old(self)@.counted(load),
            r@ == final(self)@.nupd,
    {
        match load {
            Some(l) => {
                self.nupd.status = Some(
                    ServerStatus { cpu: l.0, memory: l.1, msg_count: self.msg_count },
                );
            },
            None => {},
        }
        self.nupd.update_count = self.nupd.update_count + 1;
        self.nupd.duplicate()
    }

    /// Whether the keep-alive loop can take this event: always, unless the event makes
    /// it count one more keep-alive and the counter has reached its last value.
    pub fn keep_alive_ready(&self, event: &KeepAliveEvent) -> (r: bool)
        ensures
            r == (counts_keep_alive(self@, event@) ==> self.nupd.update_count < i32::MAX),
    {
        let counts = match event {
            KeepAliveEvent::Elapsed => self.nid.secret != 0 && self.my_node_type
                != NodeType::Server,
            KeepAliveEvent::Sampled { .. } => true,
            _ => false,
        };
        !counts || self.nupd.update_count < i32::MAX
    }

    /// One step of the keep-alive loop: takes what happened and says what to do next.
    ///
    /// A round begins by clearing the message counter and sleeping for the keep-alive
    /// interval. After it the loop ends if the node has no secret; a server first has
    /// its host load read; then the keep-alive is counted and sent. A keep-alive that
    /// fails is dropped and the next round begins. The directory's answer may carry a
    /// command: on `Reconnect` the node registers again; on `ServerChange` it
    /// unregisters, tells the application and resets if nothing is outstanding, and
    /// otherwise locks itself and arms the reset timer once; on `ProviderDisconnect` a
    /// server tells the application.
    pub fn start_keep_alive_with_cmd(&mut self, event: KeepAliveEvent, has_cmd_func: bool) -> (r:
        KeepAliveAction)
        requires
            counts_keep_alive(old(self)@, event@) ==> old(self).nupd.update_count < i32::MAX,
        ensures
            final(self)@ == keep_alive_next(old(self)@, event@, has_cmd_func),
            r@ == keep_alive_action(old(self)@, event@, has_cmd_func),
    {
        match event {
            KeepAliveEvent::Begin => {
                self.msg_count = 0;
                KeepAliveAction::Sleep { seconds: seconds_of(self.nid.keepalive_duration) }
            },
            KeepAliveEvent::Elapsed => {
                if self.nid.secret == 0 {
                    KeepAliveAction::Finish
                } else if self.my_node_type == NodeType::Server {
                    KeepAliveAction::SampleHost
                } else {
                    let update = self.count_keep_alive(None);
                    KeepAliveAction::Send { update }
                }
            },
            KeepAliveEvent::Sampled { cpu, memory } => {
                let update = self.count_keep_alive(Some((cpu, memory)));
                KeepAliveAction::Send { update }
            },
            KeepAliveEvent::Replied { command, err } => {
                match command {
                    KeepAliveCommand::NoCommand => KeepAliveAction::Continue,
                    KeepAliveCommand::Reconnect => {
                        let info = self.reconnect_node_serv();
                        KeepAliveAction::Register { info }
                    },
                    KeepAliveCommand::ServerChange => {
                        if self.node_state.is_safe_state() {
                            KeepAliveAction::Unregister {
                                identity: self.un_register_node(),
                                command,
                                err,
                            }
                        } else if !self.node_state.locked {
                            self.node_state.locked = true;
                            KeepAliveAction::ArmUnlock { seconds: WAIT_TIME }
                        } else {
                            KeepAliveAction::Continue
                        }
                    },
                    KeepAliveCommand::ProviderDisconnect => {
                        if self.my_node_type == NodeType::Server && has_cmd_func {
                            KeepAliveAction::Notify { command, err, then_reset: false }
                        } else {
                            KeepAliveAction::Continue
                        }
                    },
                }
            },
            KeepAliveEvent::Failed => KeepAliveAction::Continue,
            KeepAliveEvent::Registered { reply } => {
                let _ = self.reconnect_node_serv_reply(reply);
                KeepAliveAction::Continue
            },
            KeepAliveEvent::Unregistered { answer, command, err } => {
                let _ = self.un_register_node_reply(answer);
                if has_cmd_func {
                    KeepAliveAction::Notify { command, err, then_reset: true }
                } else {
                    self.node_state.init();
                    KeepAliveAction::Continue
                }
            },
            KeepAliveEvent::Notified => {
                self.node_state.init();
                KeepAliveAction::Continue
            },
        }
    }
}

/// A keep-alive duration as a number of seconds to sleep.
pub fn seconds_of(duration: i32) -> (r: u64)
    ensures
        r == interval_seconds(duration),
{
    #[verifier::truncate]
    let r: u64 = duration as u64;
    assert(r == interval_seconds(duration)) by (bit_vector)
        requires
            r == duration as u64,
    ;
    r
}

} // verus!
