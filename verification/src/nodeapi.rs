//! Plain records of the directory service: registration, identity and keep-alive.
use vstd::prelude::*;
use crate::api::{Timestamp, same_text};

verus! {

/// What kind of node registers.
#[derive(Clone, Copy, Debug, PartialEq, Eq, Structural)]
pub enum NodeType {
    Provider,
    Server,
    Gateway,
}

/// The name of a node kind, as a sequence of characters.
pub open spec fn node_type_name(t: NodeType) -> Seq<char> {
    match t {
        NodeType::Provider => "PROVIDER"@,
        NodeType::Server => "SERVER"@,
        NodeType::Gateway => "GATEWAY"@,
    }
}

/// The node kind that a name stands for, if any.
pub open spec fn node_type_named(name: Seq<char>) -> Option<NodeType> {
    if name == "PROVIDER"@ {
        Some(NodeType::Provider)
    } else if name == "SERVER"@ {
        Some(NodeType::Server)
    } else if name == "GATEWAY"@ {
        Some(NodeType::Gateway)
    } else {
        None
    }
}

impl NodeType {
    pub fn as_str_name(&self) -> (r: &'static str)
        ensures
            r@ == node_type_name(*self),
    {
        match self {
            NodeType::Provider => "PROVIDER",
            NodeType::Server => "SERVER",
            NodeType::Gateway => "GATEWAY",
        }
    }

    pub fn from_str_name(value: &str) -> (r: Option<NodeType>)
        ensures
            r == node_type_named(value@),
    {
        if same_text(value, "PROVIDER") {
            Some(NodeType::Provider)
        } else if same_text(value, "SERVER") {
            Some(NodeType::Server)
        } else if same_text(value, "GATEWAY") {
            Some(NodeType::Gateway)
        } else {
            None
        }
    }
}

/// What the directory asks of a node in its answer to a keep-alive.
#[derive(Clone, Copy, Debug, PartialEq, Eq, Structural)]
pub enum KeepAliveCommand {
    NoCommand,
    Reconnect,
    ServerChange,
    ProviderDisconnect,
}

/// The name of a directory command, as a sequence of characters.
pub open spec fn keep_alive_command_name(c: KeepAliveCommand) -> Seq<char> {
    match c {
        KeepAliveCommand::NoCommand => "NONE"@,
        KeepAliveCommand::Reconnect => "RECONNECT"@,
        KeepAliveCommand::ServerChange => "SERVER_CHANGE"@,
        KeepAliveCommand::ProviderDisconnect => "PROVIDER_DISCONNECT"@,
    }
}

/// The directory command that a name stands for, if any.
pub open spec fn keep_alive_command_named(name: Seq<char>) -> Option<KeepAliveCommand> {
    if name == "NONE"@ {
        Some(KeepAliveCommand::NoCommand)
    } else if name == "RECONNECT"@ {
        Some(KeepAliveCommand::Reconnect)
    } else if name == "SERVER_CHANGE"@ {
        Some(KeepAliveCommand::ServerChange)
    } else if name == "PROVIDER_DISCONNECT"@ {
        Some(KeepAliveCommand::ProviderDisconnect)
    } else {
        None
    }
}

impl KeepAliveCommand {
    pub fn as_str_name(&self) -> (r: &'static str)
        ensures
            r@ == keep_alive_command_name(*self),
    {
        match self {
            KeepAliveCommand::NoCommand => "NONE",
            KeepAliveCommand::Reconnect => "RECONNECT",
            KeepAliveCommand::ServerChange => "SERVER_CHANGE",
            KeepAliveCommand::ProviderDisconnect => "PROVIDER_DISCONNECT",
        }
    }

    pub fn from_str_name(value: &str) -> (r: Option<KeepAliveCommand>)
        ensures
            r == keep_alive_command_named(value@),
    {
        if same_text(value, "NONE") {
            Some(KeepAliveCommand::NoCommand)
        } else if same_text(value, "RECONNECT") {
            Some(KeepAliveCommand::Reconnect)
        } else if same_text(value, "SERVER_CHANGE") {
            Some(KeepAliveCommand::ServerChange)
        } else if same_text(value, "PROVIDER_DISCONNECT") {
            Some(KeepAliveCommand::ProviderDisconnect)
        } else {
            None
        }
    }
}

/// Mathematical value of a [`NodeInfo`].
pub ghost struct NodeInfoView {
    pub node_name: Seq<char>,
    pub node_type: NodeType,
    pub server_info: Seq<char>,
    pub node_pbase_version: Seq<char>,
    pub with_node_id: i32,
    pub cluster_id: i32,
    pub area_id: Seq<char>,
    pub channel_types: Seq<u32>,
    pub gw_info: Seq<char>,
    pub bin_version: Seq<char>,
    pub count: i32,
    pub last_alive_time: Option<Timestamp>,
    pub keepalive_arg: Seq<char>,
}

/// What a node tells the directory when it registers.
#[derive(Clone, Debug, PartialEq)]
pub struct NodeInfo {
    pub node_name: String,
    pub node_type: NodeType,
    pub server_info: String,
    pub node_pbase_version: String,
    pub with_node_id: i32,
    pub cluster_id: i32,
    pub area_id: String,
    pub channel_types: Vec<u32>,
    pub gw_info: String,
    pub bin_version: String,
    pub count: i32,
    pub last_alive_time: Option<Timestamp>,
    pub keepalive_arg: String,
}

impl View for NodeInfo {
    type V = NodeInfoView;

    open spec fn view(&self) -> NodeInfoView {
        NodeInfoView {
            node_name: self.node_name@,
            node_type: self.node_type,
            server_info: self.server_info@,
            node_pbase_version: self.node_pbase_version@,
            with_node_id: self.with_node_id,
            cluster_id: self.cluster_id,
            area_id: self.area_id@,
            channel_types: self.channel_types@,
            gw_info: self.gw_info@,
            bin_version: self.bin_version@,
            count: self.count,
            last_alive_time: self.last_alive_time,
            keepalive_arg: self.keepalive_arg@,
        }
    }
}

/// Mathematical value of a [`NodeId`].
pub ghost struct NodeIdView {
    pub node_id: i32,
    pub secret: u64,
    pub server_info: Seq<char>,
    pub keepalive_duration: i32,
}

/// The identity the directory assigns. `secret == 0` stands for "not registered".
#[derive(Clone, Debug, PartialEq)]
pub struct NodeId {
    pub node_id: i32,
    pub secret: u64,
    pub server_info: String,
    pub keepalive_duration: i32,
}

impl View for NodeId {
    type V = NodeIdView;

    open spec fn view(&self) -> NodeIdView {
        NodeIdView {
            node_id: self.node_id,
            secret: self.secret,
            server_info: self.server_info@,
            keepalive_duration: self.keepalive_duration,
        }
    }
}

impl NodeId {
    /// A copy with the same value.
    pub fn duplicate(&self) -> (r: NodeId)
        ensures
            r@ == self@,
    {
        NodeId {
            node_id: self.node_id,
            secret: self.secret,
            server_info: self.server_info.clone(),
            keepalive_duration: self.keepalive_duration,
        }
    }
}

/// Load of the host a server node runs on. The two percentages are carried as the bit
/// patterns of double-precision numbers; the library never looks inside them.
#[derive(Clone, Copy, Debug, PartialEq, Eq, Structural)]
pub struct ServerStatus {
    pub cpu: u64,
    pub memory: u64,
    pub msg_count: u64,
}

/// Mathematical value of a [`NodeUpdate`].
pub ghost struct NodeUpdateView {
    pub node_id: i32,
    pub secret: u64,
    pub update_count: i32,
    pub node_status: i32,
    pub node_arg: Seq<char>,
    pub status: Option<ServerStatus>,
}

/// What a node reports of itself with each keep-alive.
#[derive(Clone, Debug, PartialEq)]
pub struct NodeUpdate {
    pub node_id: i32,
    pub secret: u64,
    pub update_count: i32,
    pub node_status: i32,
    pub node_arg: String,
    pub status: Option<ServerStatus>,
}

impl View for NodeUpdate {
    type V = NodeUpdateView;

    open spec fn view(&self) -> NodeUpdateView {
        NodeUpdateView {
            node_id: self.node_id,
            secret: self.secret,
            update_count: self.update_count,
            node_status: self.node_status,
            node_arg: self.node_arg@,
            status: self.status,
        }
    }
}

impl NodeUpdate {
    /// A copy with the same value.
    pub fn duplicate(&self) -> (r: NodeUpdate)
        ensures
            r@ == self@,
    {
        NodeUpdate {
            node_id: self.node_id,
            secret: self.secret,
            update_count: self.update_count,
            node_status: self.node_status,
            node_arg: self.node_arg.clone(),
            status: self.status,
        }
    }
}

/// The directory's answer to a keep-alive or an unregistration.
#[derive(Clone, Debug, PartialEq)]
pub struct Response {
    pub ok: bool,
    pub command: KeepAliveCommand,
    pub err: String,
}

} // verus!
