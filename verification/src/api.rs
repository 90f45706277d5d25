//! Plain records of the exchange service: what is sent to it and what it sends back.
use vstd::prelude::*;

verus! {

/// A point in time: seconds since the Unix epoch and the nanoseconds within that second.
#[derive(Clone, Copy, Debug, PartialEq, Eq, Structural)]
pub struct Timestamp {
    pub seconds: i64,
    pub nanos: i32,
}

/// A span of time, as the exchange reports a waiting time.
#[derive(Clone, Copy, Debug, PartialEq, Eq, Structural)]
pub struct Duration {
    pub seconds: i64,
    pub nanos: i32,
}

/// Opaque payload bytes carried by a demand, a supply or a bus message.
#[derive(Clone, Debug, PartialEq)]
pub struct Content {
    pub entity: Vec<u8>,
}

impl View for Content {
    type V = Seq<u8>;

    open spec fn view(&self) -> Seq<u8> {
        self.entity@
    }
}

impl Content {
    /// A copy with the same bytes.
    pub fn duplicate(&self) -> (r: Content)
        ensures
            r@ == self@,
    {
        Content { entity: self.entity.clone() }
    }
}

/// The bytes of an optional payload.
pub open spec fn content_view(c: Option<Content>) -> Option<Seq<u8>> {
    match c {
        Some(c) => Some(c@),
        None => None,
    }
}

/// Mathematical value of a [`Supply`].
pub ghost struct SupplyView {
    pub id: u64,
    pub sender_id: u64,
    pub target_id: u64,
    pub channel_type: u32,
    pub supply_name: Seq<char>,
    pub ts: Option<Timestamp>,
    pub arg_json: Seq<char>,
    pub mbus_id: u64,
    pub cdata: Option<Seq<u8>>,
}

/// An offer on a channel. `target_id == 0` means broadcast; `mbus_id == u64::MAX` means unset.
#[derive(Clone, Debug, PartialEq)]
pub struct Supply {
    pub id: u64,
    pub sender_id: u64,
    pub target_id: u64,
    pub channel_type: u32,
    pub supply_name: String,
    pub ts: Option<Timestamp>,
    pub arg_json: String,
    pub mbus_id: u64,
    pub cdata: Option<Content>,
}

impl View for Supply {
    type V = SupplyView;

    open spec fn view(&self) -> SupplyView {
        SupplyView {
            id: self.id,
            sender_id: self.sender_id,
            target_id: self.target_id,
            channel_type: self.channel_type,
            supply_name: self.supply_name@,
            ts: self.ts,
            arg_json: self.arg_json@,
            mbus_id: self.mbus_id,
            cdata: content_view(self.cdata),
        }
    }
}

/// Mathematical value of a [`Demand`].
pub ghost struct DemandView {
    pub id: u64,
    pub sender_id: u64,
    pub target_id: u64,
    pub channel_type: u32,
    pub demand_name: Seq<char>,
    pub ts: Option<Timestamp>,
    pub arg_json: Seq<char>,
    pub mbus_id: u64,
    pub cdata: Option<Seq<u8>>,
}

/// A request on a channel. `target_id == 0` means broadcast; `mbus_id == u64::MAX` means unset.
#[derive(Clone, Debug, PartialEq)]
pub struct Demand {
    pub id: u64,
    pub sender_id: u64,
    pub target_id: u64,
    pub channel_type: u32,
    pub demand_name: String,
    pub ts: Option<Timestamp>,
    pub arg_json: String,
    pub mbus_id: u64,
    pub cdata: Option<Content>,
}

impl View for Demand {
    type V = DemandView;

    open spec fn view(&self) -> DemandView {
        DemandView {
            id: self.id,
            sender_id: self.sender_id,
            target_id: self.target_id,
            channel_type: self.channel_type,
            demand_name: self.demand_name@,
            ts: self.ts,
            arg_json: self.arg_json@,
            mbus_id: self.mbus_id,
            cdata: content_view(self.cdata),
        }
    }
}

/// The record that selects or confirms a counterpart's demand or supply.
#[derive(Clone, Copy, Debug, PartialEq, Eq, Structural)]
pub struct Target {
    pub id: u64,
    pub sender_id: u64,
    pub target_id: u64,
    pub channel_type: u32,
    pub wait: Option<Duration>,
    pub mbus_id: u64,
}

/// Mathematical value of a [`Channel`].
pub ghost struct ChannelView {
    pub client_id: u64,
    pub channel_type: u32,
    pub arg_json: Seq<char>,
}

/// A topic: a numeric type, an argument, and the client that listens on it.
#[derive(Clone, Debug, PartialEq)]
pub struct Channel {
    pub client_id: u64,
    pub channel_type: u32,
    pub arg_json: String,
}

impl View for Channel {
    type V = ChannelView;

    open spec fn view(&self) -> ChannelView {
        ChannelView {
            client_id: self.client_id,
            channel_type: self.channel_type,
            arg_json: self.arg_json@,
        }
    }
}

/// Mathematical value of a [`Mbus`].
pub ghost struct MbusView {
    pub client_id: u64,
    pub mbus_id: u64,
    pub arg_json: Seq<char>,
}

/// A message bus as one client names it.
#[derive(Clone, Debug, PartialEq)]
pub struct Mbus {
    pub client_id: u64,
    pub mbus_id: u64,
    pub arg_json: String,
}

impl View for Mbus {
    type V = MbusView;

    open spec fn view(&self) -> MbusView {
        MbusView { client_id: self.client_id, mbus_id: self.mbus_id, arg_json: self.arg_json@ }
    }
}

/// Mathematical value of a [`MbusMsg`].
pub ghost struct MbusMsgView {
    pub msg_id: u64,
    pub sender_id: u64,
    pub target_id: u64,
    pub mbus_id: u64,
    pub msg_type: u32,
    pub msg_info: Seq<char>,
    pub arg_json: Seq<char>,
    pub cdata: Option<Seq<u8>>,
}

/// A message on a bus.
#[derive(Clone, Debug, PartialEq)]
pub struct MbusMsg {
    pub msg_id: u64,
    pub sender_id: u64,
    pub target_id: u64,
    pub mbus_id: u64,
    pub msg_type: u32,
    pub msg_info: String,
    pub arg_json: String,
    pub cdata: Option<Content>,
}

impl View for MbusMsg {
    type V = MbusMsgView;

    open spec fn view(&self) -> MbusMsgView {
        MbusMsgView {
            msg_id: self.msg_id,
            sender_id: self.sender_id,
            target_id: self.target_id,
            mbus_id: self.mbus_id,
            msg_type: self.msg_type,
            msg_info: self.msg_info@,
            arg_json: self.arg_json@,
            cdata: content_view(self.cdata),
        }
    }
}

/// Who may join a bus.
#[derive(Clone, Copy, Debug, PartialEq, Eq, Structural)]
pub enum MbusType {
    Public,
    Private,
}

/// The name of a bus visibility, as a sequence of characters.
pub open spec fn mbus_type_name(t: MbusType) -> Seq<char> {
    match t {
        MbusType::Public => "PUBLIC"@,
        MbusType::Private => "PRIVATE"@,
    }
}

/// The bus visibility that a name stands for, if any.
pub open spec fn mbus_type_named(name: Seq<char>) -> Option<MbusType> {
    if name == "PUBLIC"@ {
        Some(MbusType::Public)
    } else if name == "PRIVATE"@ {
        Some(MbusType::Private)
    } else {
        None
    }
}

impl MbusType {
    pub fn as_str_name(&self) -> (r: &'static str)
        ensures
            r@ == mbus_type_name(*self),
    {
        match self {
            MbusType::Public => "PUBLIC",
            MbusType::Private => "PRIVATE",
        }
    }

    pub fn from_str_name(value: &str) -> (r: Option<MbusType>)
        ensures
            r == mbus_type_named(value@),
    {
        if same_text(value, "PUBLIC") {
            Some(MbusType::Public)
        } else if same_text(value, "PRIVATE") {
            Some(MbusType::Private)
        } else {
            None
        }
    }
}

/// Mathematical value of an [`MbusOpt`].
pub ghost struct MbusOptView {
    pub mbus_type: MbusType,
    pub subscribers: Seq<u64>,
}

/// What a new bus is asked to be.
#[derive(Clone, Debug, PartialEq)]
pub struct MbusOpt {
    pub mbus_type: MbusType,
    pub subscribers: Vec<u64>,
}

impl View for MbusOpt {
    type V = MbusOptView;

    open spec fn view(&self) -> MbusOptView {
        MbusOptView { mbus_type: self.mbus_type, subscribers: self.subscribers@ }
    }
}

/// The stage a bus is in.
#[derive(Clone, Copy, Debug, PartialEq, Eq, Structural)]
pub enum MbusStatus {
    Intialized,
    Subscribers,
    Closed,
    Invalid,
}

/// The name of a bus stage, as a sequence of characters.
pub open spec fn mbus_status_name(s: MbusStatus) -> Seq<char> {
    match s {
        MbusStatus::Intialized => "INTIALIZED"@,
        MbusStatus::Subscribers => "SUBSCRIBERS"@,
        MbusStatus::Closed => "CLOSED"@,
        MbusStatus::Invalid => "INVALID"@,
    }
}

/// The bus stage that a name stands for, if any.
pub open spec fn mbus_status_named(name: Seq<char>) -> Option<MbusStatus> {
    if name == "INTIALIZED"@ {
        Some(MbusStatus::Intialized)
    } else if name == "SUBSCRIBERS"@ {
        Some(MbusStatus::Subscribers)
    } else if name == "CLOSED"@ {
        Some(MbusStatus::Closed)
    } else if name == "INVALID"@ {
        Some(MbusStatus::Invalid)
    } else {
        None
    }
}

impl MbusStatus {
    pub fn as_str_name(&self) -> (r: &'static str)
        ensures
            r@ == mbus_status_name(*self),
    {
        match self {
            MbusStatus::Intialized => "INTIALIZED",
            MbusStatus::Subscribers => "SUBSCRIBERS",
            MbusStatus::Closed => "CLOSED",
            MbusStatus::Invalid => "INVALID",
        }
    }

    pub fn from_str_name(value: &str) -> (r: Option<MbusStatus>)
        ensures
            r == mbus_status_named(value@),
    {
        if same_text(value, "INTIALIZED") {
            Some(MbusStatus::Intialized)
        } else if same_text(value, "SUBSCRIBERS") {
            Some(MbusStatus::Subscribers)
        } else if same_text(value, "CLOSED") {
            Some(MbusStatus::Closed)
        } else if same_text(value, "INVALID") {
            Some(MbusStatus::Invalid)
        } else {
            None
        }
    }
}

/// Mathematical value of an [`MbusState`].
pub ghost struct MbusStateView {
    pub mbus_id: u64,
    pub status: MbusStatus,
    pub subscribers: Seq<u64>,
}

/// What the exchange reports of a bus.
#[derive(Clone, Debug, PartialEq)]
pub struct MbusState {
    pub mbus_id: u64,
    pub status: MbusStatus,
    pub subscribers: Vec<u64>,
}

impl View for MbusState {
    type V = MbusStateView;

    open spec fn view(&self) -> MbusStateView {
        MbusStateView { mbus_id: self.mbus_id, status: self.status, subscribers: self.subscribers@ }
    }
}

/// The exchange's answer to a notify, propose, close or send call.
#[derive(Clone, Debug, PartialEq)]
pub struct Response {
    pub ok: bool,
    pub err: String,
}

/// The exchange's answer to a select or confirm call.
#[derive(Clone, Debug, PartialEq)]
pub struct ConfirmResponse {
    pub ok: bool,
    pub mbus_id: u64,
    pub wait: Option<Duration>,
    pub err: String,
}

/// Which way a gateway passes messages.
#[derive(Clone, Copy, Debug, PartialEq, Eq, Structural)]
pub enum GatewayType {
    Bidirectional,
    WriteOnly,
    ReadOnly,
}

/// The name of a gateway direction, as a sequence of characters.
pub open spec fn gateway_type_name(t: GatewayType) -> Seq<char> {
    match t {
        GatewayType::Bidirectional => "BIDIRECTIONAL"@,
        GatewayType::WriteOnly => "WRITE_ONLY"@,
        GatewayType::ReadOnly => "READ_ONLY"@,
    }
}

/// The gateway direction that a name stands for, if any.
pub open spec fn gateway_type_named(name: Seq<char>) -> Option<GatewayType> {
    if name == "BIDIRECTIONAL"@ {
        Some(GatewayType::Bidirectional)
    } else if name == "WRITE_ONLY"@ {
        Some(GatewayType::WriteOnly)
    } else if name == "READ_ONLY"@ {
        Some(GatewayType::ReadOnly)
    } else {
        None
    }
}

impl GatewayType {
    pub fn as_str_name(&self) -> (r: &'static str)
        ensures
            r@ == gateway_type_name(*self),
    {
        match self {
            GatewayType::Bidirectional => "BIDIRECTIONAL",
            GatewayType::WriteOnly => "WRITE_ONLY",
            GatewayType::ReadOnly => "READ_ONLY",
        }
    }

    pub fn from_str_name(value: &str) -> (r: Option<GatewayType>)
        ensures
            r == gateway_type_named(value@),
    {
        if same_text(value, "BIDIRECTIONAL") {
            Some(GatewayType::Bidirectional)
        } else if same_text(value, "WRITE_ONLY") {
            Some(GatewayType::WriteOnly)
        } else if same_text(value, "READ_ONLY") {
            Some(GatewayType::ReadOnly)
        } else {
            None
        }
    }
}

/// The kind of record a gateway message carries.
#[derive(Clone, Copy, Debug, PartialEq, Eq, Structural)]
pub enum MsgType {
    Demand,
    Supply,
    Target,
    Mbus,
    Mbusmsg,
}

/// The name of a message kind, as a sequence of characters.
pub open spec fn msg_type_name(t: MsgType) -> Seq<char> {
    match t {
        MsgType::Demand => "DEMAND"@,
        MsgType::Supply => "SUPPLY"@,
        MsgType::Target => "TARGET"@,
        MsgType::Mbus => "MBUS"@,
        MsgType::Mbusmsg => "MBUSMSG"@,
    }
}

/// The message kind that a name stands for, if any.
pub open spec fn msg_type_named(name: Seq<char>) -> Option<MsgType> {
    if name == "DEMAND"@ {
        Some(MsgType::Demand)
    } else if name == "SUPPLY"@ {
        Some(MsgType::Supply)
    } else if name == "TARGET"@ {
        Some(MsgType::Target)
    } else if name == "MBUS"@ {
        Some(MsgType::Mbus)
    } else if name == "MBUSMSG"@ {
        Some(MsgType::Mbusmsg)
    } else {
        None
    }
}

impl MsgType {
    pub fn as_str_name(&self) -> (r: &'static str)
        ensures
            r@ == msg_type_name(*self),
    {
        match self {
            MsgType::Demand => "DEMAND",
            MsgType::Supply => "SUPPLY",
            MsgType::Target => "TARGET",
            MsgType::Mbus => "MBUS",
            MsgType::Mbusmsg => "MBUSMSG",
        }
    }

    pub fn from_str_name(value: &str) -> (r: Option<MsgType>)
        ensures
            r == msg_type_named(value@),
    {
        if same_text(value, "DEMAND") {
            Some(MsgType::Demand)
        } else if same_text(value, "SUPPLY") {
            Some(MsgType::Supply)
        } else if same_text(value, "TARGET") {
            Some(MsgType::Target)
        } else if same_text(value, "MBUS") {
            Some(MsgType::Mbus)
        } else if same_text(value, "MBUSMSG") {
            Some(MsgType::Mbusmsg)
        } else {
            None
        }
    }
}

/// Mathematical value of a [`GatewayInfo`].
pub ghost struct GatewayInfoView {
    pub client_id: u64,
    pub gateway_type: GatewayType,
    pub channels: Seq<u32>,
}

/// A gateway and the channels it passes on.
#[derive(Clone, Debug, PartialEq)]
pub struct GatewayInfo {
    pub client_id: u64,
    pub gateway_type: GatewayType,
    pub channels: Vec<u32>,
}

impl View for GatewayInfo {
    type V = GatewayInfoView;

    open spec fn view(&self) -> GatewayInfoView {
        GatewayInfoView {
            client_id: self.client_id,
            gateway_type: self.gateway_type,
            channels: self.channels@,
        }
    }
}

/// The record a gateway message carries.
#[derive(Clone, Debug, PartialEq)]
pub enum MsgOneof {
    Demand(Demand),
    Supply(Supply),
    Target(Target),
    Mbus(Mbus),
    MbusMsg(MbusMsg),
}

impl MsgOneof {
    /// The kind of the record carried.
    pub fn msg_type(&self) -> (r: MsgType)
        ensures
            r == match self {
                MsgOneof::Demand(_) => MsgType::Demand,
                MsgOneof::Supply(_) => MsgType::Supply,
                MsgOneof::Target(_) => MsgType::Target,
                MsgOneof::Mbus(_) => MsgType::Mbus,
                MsgOneof::MbusMsg(_) => MsgType::Mbusmsg,
            },
    {
        match self {
            MsgOneof::Demand(_) => MsgType::Demand,
            MsgOneof::Supply(_) => MsgType::Supply,
            MsgOneof::Target(_) => MsgType::Target,
            MsgOneof::Mbus(_) => MsgType::Mbus,
            MsgOneof::MbusMsg(_) => MsgType::Mbusmsg,
        }
    }
}

/// A message that a gateway passes from one exchange server to another.
#[derive(Clone, Debug, PartialEq)]
pub struct GatewayMsg {
    pub src_synerex_id: u64,
    pub msg_type: MsgType,
    pub msg_oneof: Option<MsgOneof>,
}

/// A provider as a server names it.
#[derive(Clone, Debug, PartialEq)]
pub struct ProviderId {
    pub client_id: u64,
    pub arg_json: String,
}

/// Whether two string slices hold the same characters.
pub(crate) fn same_text(a: &str, b: &str) -> (r: bool)
    ensures
        r == (a@ == b@),
{
    let x = a.to_owned();
    let y = b.to_owned();
    x == y
}

} // verus!
