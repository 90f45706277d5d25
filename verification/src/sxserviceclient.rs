//! One client of the exchange on one channel: the records it sends, what it makes of
//! the answers, and the buses it has joined. Each call comes in two halves: the first
//! builds what is to be sent, or says that nothing can be; the second takes the answer,
//! `None` where the call failed or timed out, and settles the books.
use vstd::prelude::*;
use crate::api::{
    Channel, ChannelView, ConfirmResponse, Content, Demand, DemandView, Mbus, MbusMsg,
    MbusMsgView, MbusOpt, MbusView, Response, Supply, SupplyView, Target, Timestamp,
};
use crate::clock::{current_timestamp, stamped};
use crate::nodeservinfo::{NodeServInfo, NodeServInfoView};
use crate::nodestate::{
    lemma_first_is_position, lemma_parted, lemma_position_of, parted, position_of, supply_ids,
    NodeState,
};

verus! {

/// Seconds after which a propose or confirm call is given up.
pub const MSG_TIME_OUT: u64 = 20;

/// Mathematical value of a [`DemandOpts`].
pub ghost struct DemandOptsView {
    pub id: u64,
    pub target: u64,
    pub name: Seq<char>,
    pub json: Seq<char>,
    pub cdata: Seq<u8>,
}

/// What the sender of a demand chooses.
#[derive(Clone, Debug, PartialEq)]
pub struct DemandOpts {
    pub id: u64,
    pub target: u64,
    pub name: String,
    pub json: String,
    pub cdata: Content,
}

impl View for DemandOpts {
    type V = DemandOptsView;

    open spec fn view(&self) -> DemandOptsView {
        DemandOptsView {
            id: self.id,
            target: self.target,
            name: self.name@,
            json: self.json@,
            cdata: self.cdata@,
        }
    }
}

/// Mathematical value of a [`SupplyOpts`].
pub ghost struct SupplyOptsView {
    pub id: u64,
    pub target: u64,
    pub name: Seq<char>,
    pub json: Seq<char>,
    pub cdata: Seq<u8>,
}

/// What the sender of a supply chooses.
#[derive(Clone, Debug, PartialEq)]
pub struct SupplyOpts {
    pub id: u64,
    pub target: u64,
    pub name: String,
    pub json: String,
    pub cdata: Content,
}

impl View for SupplyOpts {
    type V = SupplyOptsView;

    open spec fn view(&self) -> SupplyOptsView {
        SupplyOptsView {
            id: self.id,
            target: self.target,
            name: self.name@,
            json: self.json@,
            cdata: self.cdata@,
        }
    }
}

/// A connection to an exchange server, known by the address it was opened to.
#[derive(Clone, Debug, PartialEq)]
pub struct SXSynerexClient {
    pub server_address: String,
}

/// Why a confirmation did not go through.
#[derive(Clone, Copy, Debug, PartialEq, Eq, Structural)]
pub enum ConfirmError {
    /// The client has no connection.
    NoClient,
    /// The call failed or was given up.
    Rpc,
    /// The exchange answered that it does not accept.
    Rejected,
}

/// Whether the exchange answered and accepted.
pub open spec fn accepted(reply: Option<Response>) -> bool {
    match reply {
        Some(r) => r.ok,
        None => false,
    }
}

/// The bus that the exchange allotted, where it answered and accepted.
pub open spec fn allotted(reply: Option<ConfirmResponse>) -> Option<u64> {
    match reply {
        Some(r) => if r.ok {
            Some(r.mbus_id)
        } else {
            None
        },
        None => None,
    }
}

/// The supply that a client sends: the sender's choices under a fresh identifier, with
/// no bus yet.
pub open spec fn supply_record(
    client_id: u64,
    channel_type: u32,
    id: u64,
    ts: Option<Timestamp>,
    target: u64,
    opts: SupplyOptsView,
) -> SupplyView {
    SupplyView {
        id,
        sender_id: client_id,
        target_id: target,
        channel_type,
        supply_name: opts.name,
        ts,
        arg_json: opts.json,
        mbus_id: u64::MAX,
        cdata: Some(opts.cdata),
    }
}

/// The demand that a client sends: the sender's choices under a fresh identifier, with
/// no bus yet.
pub open spec fn demand_record(
    client_id: u64,
    channel_type: u32,
    id: u64,
    ts: Option<Timestamp>,
    target: u64,
    opts: DemandOptsView,
) -> DemandView {
    DemandView {
        id,
        sender_id: client_id,
        target_id: target,
        channel_type,
        demand_name: opts.name,
        ts,
        arg_json: opts.json,
        mbus_id: u64::MAX,
        cdata: Some(opts.cdata),
    }
}

/// A membership list with `id` in it: unchanged where it is there already, else with
/// `id` at the end.
pub open spec fn joined(members: Seq<u64>, id: u64) -> Seq<u64> {
    if members.contains(id) {
        members
    } else {
        members.push(id)
    }
}

/// Joining keeps a list free of repetitions, and puts the bus in it.
pub proof fn lemma_joined(members: Seq<u64>, id: u64)
    ensures
        joined(members, id).contains(id),
        members.no_duplicates() ==> joined(members, id).no_duplicates(),
        forall|x: u64| x != id ==> (joined(members, id).contains(x) <==> members.contains(x)),
{
    let next = joined(members, id);
    if members.contains(id) {
    } else {
        assert(next[members.len() as int] == id);
        assert forall|x: u64| x != id implies (next.contains(x) <==> members.contains(x)) by {
            if members.contains(x) {
                let i = choose|i: int| 0 <= i < members.len() && members[i] == x;
                assert(next[i] == x);
            }
            if next.contains(x) {
                let i = choose|i: int| 0 <= i < next.len() && next[i] == x;
                assert(members[i] == x);
            }
        }
    }
}

/// A bus that is joined and then left is no longer among the buses of a client that
/// keeps its list free of repetitions, and every other bus is there exactly if it was.
pub proof fn lemma_join_then_part(members: Seq<u64>, id: u64, other: u64)
    requires
        members.no_duplicates(),
        other != id,
    ensures
        !parted(joined(members, id), id).contains(id),
        parted(joined(members, id), id).contains(other) <==> members.contains(other),
        parted(joined(members, id), id).no_duplicates(),
{
    lemma_joined(members, id);
    lemma_parted(joined(members, id), id);
}

/// Whether `id` is in a list of identifiers.
pub fn contains_id(list: &Vec<u64>, id: u64) -> (r: bool)
    ensures
        r == list@.contains(id),
{
    let n = list.len();
    let mut i: usize = 0;
    while i < n
        invariant
            n == list@.len(),
            i <= n,
            forall|j: int| 0 <= j < i ==> list@[j] != id,
        decreases n - i,
    {
        if list[i] == id {
            return true;
        }
        i += 1;
    }
    false
}

/// What happened on a subscription since the client last said what to do.
#[derive(Debug, PartialEq)]
pub enum StreamEvent<T> {
    /// The subscription is asked for.
    Start,
    /// The stream is open.
    Opened,
    /// The stream could not be opened.
    OpenFailed,
    /// A message came.
    Message(T),
    /// The stream ended, in order or with an error.
    Ended,
}

/// What a subscription wants done next.
#[derive(Debug, PartialEq)]
pub enum StreamAction<Q, T> {
    /// Open the stream with this request, then report `Opened` or `OpenFailed`.
    Open(Q),
    /// Wait for the next message, then report `Message` or `Ended`.
    Receive,
    /// Hand the message to the application, then wait for the next.
    Deliver(T),
    /// Drop the message, then wait for the next.
    Discard,
    /// The subscription is over; the value says whether it ended with the stream.
    Return(bool),
}

/// What a subscription wants done next, without the request that opens the stream.
pub ghost enum StreamStep<T> {
    Open,
    Receive,
    Deliver(T),
    Discard,
    Return(bool),
}

impl<Q, T> StreamAction<Q, T> {
    /// The action without the request that an `Open` carries.
    pub open spec fn step(&self) -> StreamStep<T> {
        match self {
            StreamAction::Open(_) => StreamStep::Open,
            StreamAction::Receive => StreamStep::Receive,
            StreamAction::Deliver(m) => StreamStep::Deliver(*m),
            StreamAction::Discard => StreamStep::Discard,
            StreamAction::Return(ended) => StreamStep::Return(*ended),
        }
    }
}

/// What a subscription asks for after an event. A client without a connection, or
/// whose stream cannot be opened, gives up with `false`. Each message that comes is
/// handed to the application, unless the node is locked: then it is dropped. When the
/// stream ends, in order or with an error, the subscription is over with `true`.
pub open spec fn stream_step<T>(has_client: bool, locked: bool, event: StreamEvent<T>) -> StreamStep<
    T,
> {
    match event {
        StreamEvent::Start => if has_client {
            StreamStep::Open
        } else {
            StreamStep::Return(false)
        },
        StreamEvent::Opened => StreamStep::Receive,
        StreamEvent::OpenFailed => StreamStep::Return(false),
        StreamEvent::Message(m) => if locked {
            StreamStep::Discard
        } else {
            StreamStep::Deliver(m)
        },
        StreamEvent::Ended => StreamStep::Return(true),
    }
}

/// The events of a subscription whose stream opens, brings the given messages in
/// their order and then ends.
pub open spec fn stream_events<T>(msgs: Seq<T>) -> Seq<StreamEvent<T>> {
    Seq::new(
        msgs.len() + 3,
        |i: int|
            if i == 0 {
                StreamEvent::Start
            } else if i == 1 {
                StreamEvent::Opened
            } else if i < msgs.len() + 2 {
                StreamEvent::Message(msgs[i - 2])
            } else {
                StreamEvent::Ended
            },
    )
}

/// What a subscription asks for at each event of a run, the node being locked or not
/// throughout.
pub open spec fn stream_run<T>(has_client: bool, locked: bool, events: Seq<StreamEvent<T>>) -> Seq<
    StreamStep<T>,
> {
    Seq::new(events.len(), |i: int| stream_step(has_client, locked, events[i]))
}

/// Over a stream that opens, brings any number of messages and then ends, a client
/// with a connection opens the stream, hands every message to the application once
/// and in the order in which it came, and returns `true` when the stream ends. While
/// the node is locked it drops every message instead, and returns `true` all the same.
pub proof fn lemma_stream_hands_on_every_message<T>(msgs: Seq<T>, locked: bool)
    ensures
        ({
            let run = stream_run(true, locked, stream_events(msgs));
            &&& run.len() == msgs.len() + 3
            &&& run[0] == StreamStep::<T>::Open
            &&& run[1] == StreamStep::<T>::Receive
            &&& forall|i: int|
                0 <= i < msgs.len() ==> #[trigger] run[i + 2] == if locked {
                    StreamStep::Discard
                } else {
                    StreamStep::Deliver(msgs[i])
                }
            &&& run[msgs.len() as int + 2] == StreamStep::<T>::Return(true)
        }),
{
}

/// Mathematical value of an [`SXServiceClient`].
pub ghost struct SXServiceClientView {
    pub client_id: u64,
    pub channel_type: u32,
    pub server_address: Option<Seq<char>>,
    pub arg_json: Seq<char>,
    pub mbus_ids: Seq<u64>,
}

/// A client of the exchange on one channel.
#[derive(Debug, PartialEq)]
pub struct SXServiceClient {
    pub client_id: u64,
    pub channel_type: u32,
    pub sxclient: Option<SXSynerexClient>,
    pub arg_json: String,
    pub mbus_ids: Vec<u64>,
}

impl View for SXServiceClient {
    type V = SXServiceClientView;

    open spec fn view(&self) -> SXServiceClientView {
        SXServiceClientView {
            client_id: self.client_id,
            channel_type: self.channel_type,
            server_address: match self.sxclient {
                Some(c) => Some(c.server_address@),
                None => None,
            },
            arg_json: self.arg_json@,
            mbus_ids: self.mbus_ids@,
        }
    }
}

impl SXServiceClient {
    /// No bus is listed twice.
    pub open spec fn wf(&self) -> bool {
        self.mbus_ids@.no_duplicates()
    }

    /// The channel this client listens on.
    pub open spec fn channel(&self) -> ChannelView {
        ChannelView {
            client_id: self.client_id,
            channel_type: self.channel_type,
            arg_json: self.arg_json@,
        }
    }

    /// The channel this client listens on.
    pub fn get_channel(&self) -> (r: Channel)
        ensures
            r@ == self.channel(),
    {
        Channel {
            client_id: self.client_id,
            channel_type: self.channel_type,
            arg_json: self.arg_json.clone(),
        }
    }

    /// Whether the supply is aimed at one of the listed identifiers.
    pub fn is_supply_target(&self, sp: &Supply, idlist: Vec<u64>) -> (r: bool)
        ensures
            r == idlist@.contains(sp.target_id),
    {
        contains_id(&idlist, sp.target_id)
    }

    /// Whether the demand is aimed at one of the listed identifiers.
    pub fn is_demand_target(&self, dm: &Demand, idlist: Vec<u64>) -> (r: bool)
        ensures
            r == idlist@.contains(dm.target_id),
    {
        contains_id(&idlist, dm.target_id)
    }

    /// The supply this client sends under the given identifier and time.
    pub fn new_supply(
        &self,
        id: u64,
        ts: Option<Timestamp>,
        target: u64,
        opts: SupplyOpts,
    ) -> (r: Supply)
        ensures
            r@ == supply_record(self.client_id, self.channel_type, id, ts, target, opts@),
    {
        Supply {
            id,
            sender_id: self.client_id,
            target_id: target,
            channel_type: self.channel_type,
            supply_name: opts.name,
            ts,
            arg_json: opts.json,
            mbus_id: u64::MAX,
            cdata: Some(opts.cdata),
        }
    }

    /// The demand this client sends under the given identifier and time.
    pub fn new_demand(
        &self,
        id: u64,
        ts: Option<Timestamp>,
        target: u64,
        opts: DemandOpts,
    ) -> (r: Demand)
        ensures
            r@ == demand_record(self.client_id, self.channel_type, id, ts, target, opts@),
    {
        Demand {
            id,
            sender_id: self.client_id,
            target_id: target,
            channel_type: self.channel_type,
            demand_name: opts.name,
            ts,
            arg_json: opts.json,
            mbus_id: u64::MAX,
            cdata: Some(opts.cdata),
        }
    }

    /// The record that points at a counterpart's record.
    pub open spec fn target_record(
        &self,
        id: u64,
        target_id: u64,
        channel_type: u32,
        mbus_id: u64,
    ) -> Target {
        Target { id, sender_id: self.client_id, target_id, channel_type, wait: None, mbus_id }
    }

    /// First half of proposing a supply to the counterpart named in the options: draws
    /// an identifier from the node's generator, reads the clock, and returns the supply
    /// to send under that identifier and time, or `None` where the client has no
    /// connection. Nothing of the node changes but the generator's sequence. A lock on
    /// the node holds back what comes in, not what goes out: a locked node may propose.
    pub fn propose_supply(&self, ni: &mut NodeServInfo, spo: &SupplyOpts) -> (r: Option<Supply>)
        ensures
            final(ni)@ == old(ni)@.drawn(),
            r is Some ==> final(ni)@.issued(r->Some_0.id) && stamped(r->Some_0.ts),
            r is Some <==> self.sxclient is Some,
            r is Some ==> r->Some_0@ == supply_record(
                self.client_id,
                self.channel_type,
                r->Some_0.id,
                r->Some_0.ts,
                spo.target,
                spo@,
            ),
    {
        let pid = ni.generate_int_id();
        let ts = current_timestamp();
        if self.sxclient.is_none() {
            return None;
        }
        let opts = SupplyOpts {
            id: spo.id,
            target: spo.target,
            name: spo.name.clone(),
            json: spo.json.clone(),
            cdata: spo.cdata.duplicate(),
        };
        Some(self.new_supply(pid, ts, spo.target, opts))
    }

    /// Second half of proposing a supply: where the exchange accepted, the supply joins
    /// the node's outstanding proposals and its identifier is returned; else the books
    /// stay as they are and 0 is returned.
    pub fn propose_supply_reply(
        &self,
        ni: &mut NodeServInfo,
        sp: Supply,
        reply: Option<Response>,
    ) -> (r: u64)
        ensures
            accepted(reply) ==> r == sp.id && final(ni)@ == (NodeServInfoView {
                proposed_supply: old(ni)@.proposed_supply.push(sp),
                ..old(ni)@
            }),
            !accepted(reply) ==> r == 0 && final(ni)@ == old(ni)@,
    {
        let ok = match reply {
            Some(resp) => resp.ok,
            None => false,
        };
        if ok {
            let pid = sp.id;
            ni.node_state.propose_supply(sp);
            pid
        } else {
            0
        }
    }

    /// First half of proposing a demand to the counterpart named in the options: as for
    /// a supply.
    pub fn propose_demand(&self, ni: &mut NodeServInfo, dmo: DemandOpts) -> (r: Option<Demand>)
        ensures
            final(ni)@ == old(ni)@.drawn(),
            r is Some ==> final(ni)@.issued(r->Some_0.id) && stamped(r->Some_0.ts),
            r is Some <==> self.sxclient is Some,
            r is Some ==> r->Some_0@ == demand_record(
                self.client_id,
                self.channel_type,
                r->Some_0.id,
                r->Some_0.ts,
                dmo.target,
                dmo@,
            ),
    {
        let pid = ni.generate_int_id();
        let ts = current_timestamp();
        if self.sxclient.is_none() {
            return None;
        }
        let target = dmo.target;
        Some(self.new_demand(pid, ts, target, dmo))
    }

    /// Second half of proposing a demand: where the exchange accepted, the demand joins
    /// the node's outstanding proposals and its identifier is returned; else the books
    /// stay as they are and 0 is returned.
    pub fn propose_demand_reply(
        &self,
        ni: &mut NodeServInfo,
        dm: Demand,
        reply: Option<Response>,
    ) -> (r: u64)
        ensures
            accepted(reply) ==> r == dm.id && final(ni)@ == (NodeServInfoView {
                proposed_demand: old(ni)@.proposed_demand.push(dm),
                ..old(ni)@
            }),
            !accepted(reply) ==> r == 0 && final(ni)@ == old(ni)@,
    {
        let ok = match reply {
            Some(resp) => resp.ok,
            None => false,
        };
        if ok {
            let pid = dm.id;
            ni.node_state.propose_demand(dm);
            pid
        } else {
            0
        }
    }

    /// First half of notifying a supply to everyone on the channel: as for a proposal,
    /// with no target.
    pub fn notify_supply(&self, ni: &mut NodeServInfo, smo: SupplyOpts) -> (r: Option<Supply>)
        ensures
            final(ni)@ == old(ni)@.drawn(),
            r is Some ==> final(ni)@.issued(r->Some_0.id) && stamped(r->Some_0.ts),
            r is Some <==> self.sxclient is Some,
            r is Some ==> r->Some_0@ == supply_record(
                self.client_id,
                self.channel_type,
                r->Some_0.id,
                r->Some_0.ts,
                0,
                smo@,
            ),
    {
        let id = ni.generate_int_id();
        let ts = current_timestamp();
        if self.sxclient.is_none() {
            return None;
        }
        Some(self.new_supply(id, ts, 0, smo))
    }

    /// Second half of notifying a supply: its identifier where the exchange accepted.
    /// Nothing is kept of a notification.
    pub fn notify_supply_reply(&self, sp: &Supply, reply: Option<Response>) -> (r: Option<u64>)
        ensures
            r == if accepted(reply) {
                Some(sp.id)
            } else {
                None
            },
    {
        match reply {
            Some(resp) => if resp.ok {
                Some(sp.id)
            } else {
                None
            },
            None => None,
        }
    }

    /// First half of notifying a demand to everyone on the channel: as for a proposal,
    /// with no target.
    pub fn notify_demand(&self, ni: &mut NodeServInfo, dmo: DemandOpts) -> (r: Option<Demand>)
        ensures
            final(ni)@ == old(ni)@.drawn(),
            r is Some ==> final(ni)@.issued(r->Some_0.id) && stamped(r->Some_0.ts),
            r is Some <==> self.sxclient is Some,
            r is Some ==> r->Some_0@ == demand_record(
                self.client_id,
                self.channel_type,
                r->Some_0.id,
                r->Some_0.ts,
                0,
                dmo@,
            ),
    {
        let id = ni.generate_int_id();
        let ts = current_timestamp();
        if self.sxclient.is_none() {
            return None;
        }
        Some(self.new_demand(id, ts, 0, dmo))
    }

    /// Second half of notifying a demand: its identifier where the exchange accepted.
    pub fn notify_demand_reply(&self, dm: &Demand, reply: Option<Response>) -> (r: Option<u64>)
        ensures
            r == if accepted(reply) {
                Some(dm.id)
            } else {
                None
            },
    {
        match reply {
            Some(resp) => if resp.ok {
                Some(dm.id)
            } else {
                None
            },
            None => None,
        }
    }

    /// The record by which this client points at another record, under an identifier
    /// drawn from the node's generator; `None` where the client has no connection.
    fn new_target(
        &self,
        ni: &mut NodeServInfo,
        target_id: u64,
        channel_type: u32,
        mbus_id: u64,
    ) -> (r: Option<Target>)
        ensures
            final(ni)@ == old(ni)@.drawn(),
            r is Some ==> final(ni)@.issued(r->Some_0.id),
            r is Some <==> self.sxclient is Some,
            r is Some ==> r->Some_0 == self.target_record(
                r->Some_0.id,
                target_id,
                channel_type,
                mbus_id,
            ),
    {
        let pid = ni.generate_int_id();
        if self.sxclient.is_none() {
            return None;
        }
        Some(
            Target {
                id: pid,
                sender_id: self.client_id,
                target_id,
                channel_type,
                wait: None,
                mbus_id,
            },
        )
    }

    /// Puts a bus among those the client has joined, unless it is there already.
    pub fn join_mbus(&mut self, mbus_id: u64)
        ensures
            final(self)@ == (SXServiceClientView {
                mbus_ids: joined(old(self).mbus_ids@, mbus_id),
                ..old(self)@
            }),
            old(self).wf() ==> final(self).wf(),
            final(self).mbus_ids@.contains(mbus_id),
    {
        proof {
            lemma_joined(self.mbus_ids@, mbus_id);
        }
        if !contains_id(&self.mbus_ids, mbus_id) {
            self.mbus_ids.push(mbus_id);
        }
    }

    /// First half of selecting a counterpart's supply: the record that points at it, or
    /// `None` where the client has no connection.
    pub fn select_supply(&self, ni: &mut NodeServInfo, sp: &Supply) -> (r: Option<Target>)
        ensures
            final(ni)@ == old(ni)@.drawn(),
            r is Some ==> final(ni)@.issued(r->Some_0.id),
            r is Some <==> self.sxclient is Some,
            r is Some ==> r->Some_0 == self.target_record(
                r->Some_0.id,
                sp.id,
                sp.channel_type,
                u64::MAX,
            ),
    {
        self.new_target(ni, sp.id, sp.channel_type, u64::MAX)
    }

    /// Second half of a selection: where the exchange accepted, the bus it allotted is
    /// joined and returned; else nothing changes.
    pub fn select_supply_reply(&mut self, reply: Option<ConfirmResponse>) -> (r: Option<u64>)
        ensures
            r == allotted(reply),
            final(self)@ == (SXServiceClientView {
                mbus_ids: match allotted(reply) {
                    Some(id) => joined(old(self).mbus_ids@, id),
                    None => old(self).mbus_ids@,
                },
                ..old(self)@
            }),
            r is Some ==> final(self).mbus_ids@.contains(r->Some_0),
            old(self).wf() ==> final(self).wf(),
    {
        match reply {
            Some(resp) => {
                if resp.ok {
                    self.join_mbus(resp.mbus_id);
                    Some(resp.mbus_id)
                } else {
                    None
                }
            },
            None => None,
        }
    }

    /// First half of selecting a counterpart's demand: the record that points at it, or
    /// `None` where the client has no connection.
    pub fn select_demand(&self, ni: &mut NodeServInfo, dm: &Demand) -> (r: Option<Target>)
        ensures
            final(ni)@ == old(ni)@.drawn(),
            r is Some ==> final(ni)@.issued(r->Some_0.id),
            r is Some <==> self.sxclient is Some,
            r is Some ==> r->Some_0 == self.target_record(
                r->Some_0.id,
                dm.id,
                dm.channel_type,
                u64::MAX,
            ),
    {
        self.new_target(ni, dm.id, dm.channel_type, u64::MAX)
    }

    /// Second half of selecting a demand: as for a supply.
    pub fn select_demand_reply(&mut self, reply: Option<ConfirmResponse>) -> (r: Option<u64>)
        ensures
            r == allotted(reply),
            final(self)@ == (SXServiceClientView {
                mbus_ids: match allotted(reply) {
                    Some(id) => joined(old(self).mbus_ids@, id),
                    None => old(self).mbus_ids@,
                },
                ..old(self)@
            }),
            r is Some ==> final(self).mbus_ids@.contains(r->Some_0),
            old(self).wf() ==> final(self).wf(),
    {
        self.select_supply_reply(reply)
    }

    /// First half of confirming a counterpart's selection `id`: the record to send, or
    /// an error where the client has no connection.
    pub fn confirm(&self, ni: &mut NodeServInfo, id: u64) -> (r: Result<Target, ConfirmError>)
        ensures
            final(ni)@ == old(ni)@.drawn(),
            r is Ok ==> final(ni)@.issued(r->Ok_0.id),
            self.sxclient is None ==> r == Err::<Target, ConfirmError>(ConfirmError::NoClient),
            self.sxclient is Some ==> r is Ok && r->Ok_0 == self.target_record(
                r->Ok_0.id,
                id,
                self.channel_type,
                id,
            ),
    {
        match self.new_target(ni, id, self.channel_type, id) {
            Some(tg) => Ok(tg),
            None => Err(ConfirmError::NoClient),
        }
    }

    /// Second half of a confirmation. Where the exchange accepted, the bus `id` is
    /// joined and the proposal `pid` is settled: the first outstanding supply with that
    /// identifier leaves the node's books, if there is one. Else nothing changes and
    /// the error says whether the call failed or was refused.
    pub fn confirm_reply(
        &mut self,
        ni: &mut NodeServInfo,
        id: u64,
        pid: u64,
        reply: Option<Response>,
    ) -> (r: Result<(), ConfirmError>)
        ensures
            reply is None ==> r == Err::<(), ConfirmError>(ConfirmError::Rpc),
            reply is Some && !accepted(reply) ==> r == Err::<(), ConfirmError>(
                ConfirmError::Rejected,
            ),
            accepted(reply) ==> r is Ok,
            !accepted(reply) ==> final(self)@ == old(self)@ && final(ni)@ == old(ni)@,
            accepted(reply) ==> final(self)@ == (SXServiceClientView {
                mbus_ids: joined(old(self).mbus_ids@, id),
                ..old(self)@
            }),
            accepted(reply) ==> final(ni)@ == (NodeServInfoView {
                proposed_supply: if supply_ids(old(ni)@.proposed_supply).contains(pid) {
                    old(ni)@.proposed_supply.remove(
                        position_of(supply_ids(old(ni)@.proposed_supply), pid),
                    )
                } else {
                    old(ni)@.proposed_supply
                },
                ..old(ni)@
            }),
            accepted(reply) ==> final(self).mbus_ids@.contains(id),
            old(self).wf() ==> final(self).wf(),
    {
        match reply {
            None => Err(ConfirmError::Rpc),
            Some(resp) => {
                if !resp.ok {
                    return Err(ConfirmError::Rejected);
                }
                self.join_mbus(id);
                let _ = ni.node_state.select_supply(pid);
                Ok(())
            },
        }
    }

    /// Index of the first bus with this identifier among those joined, if it is there.
    pub fn find_mbus(&self, id: u64) -> (r: Option<usize>)
        ensures
            match r {
                Some(i) => position_of(self.mbus_ids@, id) == i,
                None => position_of(self.mbus_ids@, id) == -1,
            },
    {
        let n = self.mbus_ids.len();
        let mut i: usize = 0;
        while i < n
            invariant
                n == self.mbus_ids@.len(),
                i <= n,
                forall|j: int| 0 <= j < i ==> self.mbus_ids@[j] != id,
            decreases n - i,
        {
            if self.mbus_ids[i] == id {
                proof {
                    lemma_first_is_position(self.mbus_ids@, id, i as int);
                }
                return Some(i);
            }
            i += 1;
        }
        proof {
            lemma_position_of(self.mbus_ids@, id);
        }
        None
    }

    /// Position of the bus among those joined, or -1.
    pub fn mbus_index(&self, id: u64) -> (r: isize)
        requires
            self.mbus_ids@.len() <= isize::MAX,
        ensures
            r == position_of(self.mbus_ids@, id),
    {
        match self.find_mbus(id) {
            Some(i) => {
                proof {
                    lemma_position_of(self.mbus_ids@, id);
                }
                i as isize
            },
            None => -1,
        }
    }

    /// Takes the bus at `pos` out of those joined.
    pub fn remove_mbus_index(&mut self, pos: usize)
        requires
            pos < old(self).mbus_ids@.len(),
        ensures
            final(self)@ == (SXServiceClientView {
                mbus_ids: old(self).mbus_ids@.remove(pos as int),
                ..old(self)@
            }),
    {
        self.mbus_ids.remove(pos);
    }

    /// The bus `mbus_id` as this client names it.
    pub open spec fn mbus_record(&self, mbus_id: u64) -> MbusView {
        MbusView { client_id: self.client_id, mbus_id, arg_json: Seq::<char>::empty() }
    }

    /// First half of closing a bus: the bus to close, or `None` where the client has
    /// not joined it or has no connection. Nothing is sent in that case.
    pub fn close_mbus(&self, mbus_id: u64) -> (r: Option<Mbus>)
        ensures
            r is Some <==> (self.mbus_ids@.contains(mbus_id) && self.sxclient is Some),
            r is Some ==> r->Some_0@ == self.mbus_record(mbus_id),
    {
        if !contains_id(&self.mbus_ids, mbus_id) {
            return None;
        }
        if self.sxclient.is_none() {
            return None;
        }
        Some(Mbus { client_id: self.client_id, mbus_id, arg_json: String::new() })
    }

    /// Second half of closing a bus: where the exchange accepted, the bus leaves those
    /// joined; else nothing changes. Returns whether it accepted.
    pub fn close_mbus_reply(&mut self, mbus_id: u64, reply: Option<Response>) -> (r: bool)
        ensures
            r == accepted(reply),
            final(self)@ == (SXServiceClientView {
                mbus_ids: if accepted(reply) {
                    parted(old(self).mbus_ids@, mbus_id)
                } else {
                    old(self).mbus_ids@
                },
                ..old(self)@
            }),
            old(self).wf() ==> final(self).wf(),
            old(self).wf() && r ==> !final(self).mbus_ids@.contains(mbus_id),
    {
        let ok = match reply {
            Some(resp) => resp.ok,
            None => false,
        };
        proof {
            lemma_parted(self.mbus_ids@, mbus_id);
            lemma_position_of(self.mbus_ids@, mbus_id);
        }
        if ok {
            match self.find_mbus(mbus_id) {
                Some(pos) => {
                    self.mbus_ids.remove(pos);
                },
                None => {},
            }
        }
        ok
    }

    /// First half of sending a message on a bus: the message under an identifier drawn
    /// from the node's generator, with this client as its sender, or `None` where the
    /// client has not joined the bus (so always while it has joined none) or has no
    /// connection. Where the bus is not joined, no identifier is drawn: the generator
    /// stays as it was.
    pub fn send_mbus_msg(&self, ni: &mut NodeServInfo, mbus_id: u64, msg: MbusMsg) -> (r: Option<
        MbusMsg,
    >)
        ensures
            final(ni)@ == if self.mbus_ids@.contains(mbus_id) {
                old(ni)@.drawn()
            } else {
                old(ni)@
            },
            r is Some ==> final(ni)@.issued(r->Some_0.msg_id),
            r is Some <==> (self.mbus_ids@.contains(mbus_id) && self.sxclient is Some),
            r is Some ==> r->Some_0@ == (MbusMsgView {
                msg_id: r->Some_0.msg_id,
                sender_id: self.client_id,
                mbus_id,
                ..msg@
            }),
    {
        if self.mbus_ids.len() == 0 {
            return None;
        }
        if !contains_id(&self.mbus_ids, mbus_id) {
            return None;
        }
        let mut msg = msg;
        msg.msg_id = ni.generate_int_id();
        msg.sender_id = self.client_id;
        msg.mbus_id = mbus_id;
        if self.sxclient.is_none() {
            return None;
        }
        Some(msg)
    }

    /// Second half of sending a message: the bus where the exchange accepted.
    pub fn send_mbus_msg_reply(&self, mbus_id: u64, reply: Option<Response>) -> (r: Option<u64>)
        ensures
            r == if accepted(reply) {
                Some(mbus_id)
            } else {
                None
            },
    {
        match reply {
            Some(resp) => if resp.ok {
                Some(mbus_id)
            } else {
                None
            },
            None => None,
        }
    }

    /// First half of creating a bus: the options to send, or `None` where the client
    /// has no connection.
    pub fn create_mbus(&self, opt: MbusOpt) -> (r: Option<MbusOpt>)
        ensures
            r == if self.sxclient is Some {
                Some(opt)
            } else {
                None
            },
    {
        if self.sxclient.is_none() {
            return None;
        }
        Some(opt)
    }

    /// Second half of creating a bus: the bus the exchange made, under this client's
    /// name. Creating a bus does not join it.
    pub fn create_mbus_reply(&self, reply: Option<Mbus>) -> (r: Option<Mbus>)
        ensures
            match reply {
                Some(m) => r is Some && r->Some_0@ == (MbusView {
                    client_id: self.client_id,
                    ..m@
                }),
                None => r is None,
            },
    {
        match reply {
            Some(m) => {
                let mut m = m;
                m.client_id = self.client_id;
                Some(m)
            },
            None => None,
        }
    }

    /// The bus whose state to ask for, or `None` where the client has no connection.
    pub fn get_mbus_status(&self, mb: Mbus) -> (r: Option<Mbus>)
        ensures
            r == if self.sxclient is Some {
                Some(mb)
            } else {
                None
            },
    {
        if self.sxclient.is_none() {
            return None;
        }
        Some(mb)
    }

    /// One step of a supply subscription. A client without a connection, or whose
    /// stream cannot be opened, gives up with `false`. Each supply that comes is handed
    /// on, unless the node is locked: then it is dropped. When the stream ends the
    /// subscription is over with `true`.
    pub fn subscribe_supply(&self, state: &NodeState, event: StreamEvent<Supply>) -> (r:
        StreamAction<Channel, Supply>)
        ensures
            r.step() == stream_step(self.sxclient is Some, state.locked, event),
            r matches StreamAction::Open(ch) ==> ch@ == self.channel(),
    {
        match event {
            StreamEvent::Start => {
                if self.sxclient.is_none() {
                    StreamAction::Return(false)
                } else {
                    StreamAction::Open(self.get_channel())
                }
            },
            StreamEvent::Opened => StreamAction::Receive,
            StreamEvent::OpenFailed => StreamAction::Return(false),
            StreamEvent::Message(sp) => {
                if state.locked {
                    StreamAction::Discard
                } else {
                    StreamAction::Deliver(sp)
                }
            },
            StreamEvent::Ended => StreamAction::Return(true),
        }
    }

    /// One step of a demand subscription: as for supplies.
    pub fn subscribe_demand(&self, state: &NodeState, event: StreamEvent<Demand>) -> (r:
        StreamAction<Channel, Demand>)
        ensures
            r.step() == stream_step(self.sxclient is Some, state.locked, event),
            r matches StreamAction::Open(ch) ==> ch@ == self.channel(),
    {
        match event {
            StreamEvent::Start => {
                if self.sxclient.is_none() {
                    StreamAction::Return(false)
                } else {
                    StreamAction::Open(self.get_channel())
                }
            },
            StreamEvent::Opened => StreamAction::Receive,
            StreamEvent::OpenFailed => StreamAction::Return(false),
            StreamEvent::Message(dm) => {
                if state.locked {
                    StreamAction::Discard
                } else {
                    StreamAction::Deliver(dm)
                }
            },
            StreamEvent::Ended => StreamAction::Return(true),
        }
    }

    /// One step of a subscription to a bus: as for supplies, with the bus in place of
    /// the channel. Bus messages too are dropped while the node is locked.
    pub fn subscribe_mbus(&self, state: &NodeState, mbus_id: u64, event: StreamEvent<MbusMsg>) -> (r:
        StreamAction<Mbus, MbusMsg>)
        ensures
            r.step() == stream_step(self.sxclient is Some, state.locked, event),
            r matches StreamAction::Open(mb) ==> mb@ == self.mbus_record(mbus_id),
    {
        match event {
            StreamEvent::Start => {
                if self.sxclient.is_none() {
                    StreamAction::Return(false)
                } else {
                    StreamAction::Open(
                        Mbus { client_id: self.client_id, mbus_id, arg_json: String::new() },
                    )
                }
            },
            StreamEvent::Opened => StreamAction::Receive,
            StreamEvent::OpenFailed => StreamAction::Return(false),
            StreamEvent::Message(m) => {
                if state.locked {
                    StreamAction::Discard
                } else {
                    StreamAction::Deliver(m)
                }
            },
            StreamEvent::Ended => StreamAction::Return(true),
        }
    }
}

} // verus!
