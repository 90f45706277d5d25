//! Subscriptions that outlive their connection: subscribe, and whenever the
//! subscription ends, wait, connect again to the last known server, and subscribe
//! again, until told to stop.
use vstd::prelude::*;
use crate::sxserviceclient::{
    lemma_stream_hands_on_every_message, stream_events, stream_run, SXServiceClient,
    SXServiceClientView, SXSynerexClient, StreamStep,
};

verus! {

/// Seconds to wait before connecting again.
pub const RECONNECT_WAIT: u64 = 5;

/// The address of an optional connection.
pub open spec fn address_of(clt: Option<SXSynerexClient>) -> Option<Seq<char>> {
    match clt {
        Some(c) => Some(c.server_address@),
        None => None,
    }
}

/// What connecting to a server comes to.
#[derive(Debug, PartialEq)]
pub enum ConnectStep {
    /// Dial this address, then report whether it answered.
    Dial(String),
    /// The connection, or `None` where there is none to be had.
    Done(Option<SXSynerexClient>),
}

/// Connecting to an exchange server. Before dialing (`dialed` is `None`) an empty
/// address is turned down at once and any other is to be dialed. After dialing, the
/// connection stands exactly if the server answered.
pub fn grpc_connect_server(server_address: String, dialed: Option<bool>) -> (r: ConnectStep)
    ensures
        match dialed {
            None => if server_address@.len() == 0 {
                r == ConnectStep::Done(None)
            } else {
                r == ConnectStep::Dial(server_address)
            },
            Some(answered) => if answered {
                r matches ConnectStep::Done(Some(c)) && c.server_address == server_address
            } else {
                r == ConnectStep::Done(None)
            },
        },
{
    match dialed {
        None => {
            if is_blank(&server_address) {
                ConnectStep::Done(None)
            } else {
                ConnectStep::Dial(server_address)
            }
        },
        Some(answered) => {
            if answered {
                ConnectStep::Done(Some(SXSynerexClient { server_address }))
            } else {
                ConnectStep::Done(None)
            }
        },
    }
}

/// Whether a string has no characters.
pub fn is_blank(s: &String) -> (r: bool)
    ensures
        r == (s@.len() == 0),
{
    let empty = String::new();
    let r = *s == empty;
    assert(r ==> s@.len() == 0);
    assert(s@.len() == 0 ==> s@ =~= empty@);
    r
}

/// What happened since a reconnection last said what to do.
#[derive(Debug, PartialEq)]
pub enum ReconnectEvent {
    /// The reconnection is asked for.
    Start,
    /// The wait is over.
    Waited,
    /// The server was dialed; the connection, if it answered.
    Dialed(Option<SXSynerexClient>),
}

/// What a reconnection wants done next.
#[derive(Debug, PartialEq)]
pub enum ReconnectAction {
    /// Wait this many seconds, then report `Waited`.
    Wait(u64),
    /// Connect to this address, then report `Dialed`.
    Dial(String),
    /// The reconnection is over.
    Done,
}

/// Mathematical value of a [`ReconnectAction`].
pub ghost enum ReconnectActionView {
    Wait(u64),
    Dial(Seq<char>),
    Done,
}

impl View for ReconnectAction {
    type V = ReconnectActionView;

    open spec fn view(&self) -> ReconnectActionView {
        match self {
            ReconnectAction::Wait(seconds) => ReconnectActionView::Wait(*seconds),
            ReconnectAction::Dial(a) => ReconnectActionView::Dial(a@),
            ReconnectAction::Done => ReconnectActionView::Done,
        }
    }
}

/// What a reconnection to the server at `serv_addr` asks for after an event: first a
/// wait of five seconds, then to dial the address unless it is empty, and nothing more
/// once the server was dialed.
pub open spec fn reconnect_action(serv_addr: Seq<char>, event: ReconnectEvent) -> ReconnectActionView {
    match event {
        ReconnectEvent::Start => ReconnectActionView::Wait(5),
        ReconnectEvent::Waited => if serv_addr.len() > 0 {
            ReconnectActionView::Dial(serv_addr)
        } else {
            ReconnectActionView::Done
        },
        ReconnectEvent::Dialed(_) => ReconnectActionView::Done,
    }
}

/// The client after an event of a reconnection: the old connection is dropped at the
/// start, and a connection that comes of dialing becomes the client's.
pub open spec fn reconnect_next(client: SXServiceClientView, event: ReconnectEvent) -> SXServiceClientView {
    match event {
        ReconnectEvent::Start => SXServiceClientView { server_address: None, ..client },
        ReconnectEvent::Waited => client,
        ReconnectEvent::Dialed(clt) => SXServiceClientView {
            server_address: match clt {
                Some(c) => Some(c.server_address@),
                None => client.server_address,
            },
            ..client
        },
    }
}

/// One step of a reconnection of a client to the server at `serv_addr`. The old
/// connection is dropped first; after a fixed wait the server is dialed, unless the
/// address is empty; a connection that comes of it becomes the client's.
pub fn reconnect_client(client: &mut SXServiceClient, serv_addr: String, event: ReconnectEvent) -> (r:
    ReconnectAction)
    ensures
        r@ == reconnect_action(serv_addr@, event),
        final(client)@ == reconnect_next(old(client)@, event),
{
    match event {
        ReconnectEvent::Start => {
            client.sxclient = None;
            ReconnectAction::Wait(RECONNECT_WAIT)
        },
        ReconnectEvent::Waited => {
            if is_blank(&serv_addr) {
                ReconnectAction::Done
            } else {
                ReconnectAction::Dial(serv_addr)
            }
        },
        ReconnectEvent::Dialed(clt) => {
            match clt {
                Some(c) => {
                    client.sxclient = Some(c);
                },
                None => {},
            }
            ReconnectAction::Done
        },
    }
}

/// What happened since a lasting subscription last said what to do.
#[derive(Clone, Copy, Debug, PartialEq, Eq, Structural)]
pub enum LoopEvent {
    /// The lasting subscription is asked for.
    Start,
    /// The stop flag was read: `true` while the subscription is to go on.
    Flag(bool),
    /// The client's subscription is over; the value is what it returned.
    Subscribed(bool),
    /// The reconnection is over.
    Reconnected,
}

/// What a lasting subscription wants done next.
#[derive(Debug, PartialEq)]
pub enum LoopAction {
    /// Read the stop flag, then report `Flag`.
    ReadFlag,
    /// Run the client's subscription to its end, then report `Subscribed`.
    Subscribe,
    /// Reconnect the client to this address, then report `Reconnected`.
    Reconnect(String),
    /// The lasting subscription is over.
    Stop,
}

/// The address that a lasting subscription reconnects to after an event: the client's
/// own once it is known, and from then on the one of the last subscription that ended
/// with its stream while the client still had a connection.
pub open spec fn last_known_address(
    client: SXServiceClientView,
    serv_addr: Seq<char>,
    event: LoopEvent,
) -> Seq<char> {
    match event {
        LoopEvent::Start => match client.server_address {
            Some(a) => a,
            None => serv_addr,
        },
        LoopEvent::Subscribed(ended) => match client.server_address {
            Some(a) => if ended {
                a
            } else {
                serv_addr
            },
            None => serv_addr,
        },
        _ => serv_addr,
    }
}

/// Mathematical value of a [`LoopAction`].
pub ghost enum LoopActionView {
    ReadFlag,
    Subscribe,
    Reconnect(Seq<char>),
    Stop,
}

impl View for LoopAction {
    type V = LoopActionView;

    open spec fn view(&self) -> LoopActionView {
        match self {
            LoopAction::ReadFlag => LoopActionView::ReadFlag,
            LoopAction::Subscribe => LoopActionView::Subscribe,
            LoopAction::Reconnect(a) => LoopActionView::Reconnect(a@),
            LoopAction::Stop => LoopActionView::Stop,
        }
    }
}

/// What a lasting subscription asks for after an event. It does not start for a client
/// without a connection or without a server address. While the flag says to go on, the
/// client subscribes; whenever its subscription is over, however it ended, the client
/// is reconnected to the last known address, and then the flag is read again.
pub open spec fn loop_action(
    client: SXServiceClientView,
    serv_addr: Seq<char>,
    event: LoopEvent,
) -> LoopActionView {
    match event {
        LoopEvent::Start => match client.server_address {
            Some(a) => if a.len() == 0 {
                LoopActionView::Stop
            } else {
                LoopActionView::ReadFlag
            },
            None => LoopActionView::Stop,
        },
        LoopEvent::Flag(go_on) => if go_on {
            LoopActionView::Subscribe
        } else {
            LoopActionView::Stop
        },
        LoopEvent::Subscribed(ended) => LoopActionView::Reconnect(
            last_known_address(client, serv_addr, event),
        ),
        LoopEvent::Reconnected => LoopActionView::ReadFlag,
    }
}

/// However a subscription ended, the client is reconnected next, to the last known
/// address; after the reconnection the flag is read, and a flag that says to go on
/// leads to the next subscription. Nothing but the flag, or a client that never had a
/// server, stops a lasting subscription.
pub proof fn lemma_subscription_resumes(
    client: SXServiceClientView,
    serv_addr: Seq<char>,
    ended: bool,
    event: LoopEvent,
)
    ensures
        loop_action(client, serv_addr, LoopEvent::Subscribed(ended))
            == LoopActionView::Reconnect(
            last_known_address(client, serv_addr, LoopEvent::Subscribed(ended)),
        ),
        loop_action(client, serv_addr, LoopEvent::Reconnected) == LoopActionView::ReadFlag,
        loop_action(client, serv_addr, LoopEvent::Flag(true)) == LoopActionView::Subscribe,
        loop_action(client, serv_addr, event) is Stop ==> event == LoopEvent::Flag(false)
            || event == LoopEvent::Start,
{
}

/// One whole round of a lasting subscription, for a client connected to a server with
/// an address, on a node that is not locked, and for any number of messages. The
/// subscription starts and subscribes; the stream opens, every message is handed to
/// the application once and in order, and when the stream ends, in order or with an
/// error, the subscription returns. Then the client is reconnected to the address it
/// was connected to: its connection is dropped, five seconds pass, the address is
/// dialed and the connection that comes of it is the client's. After that the flag is
/// read and, while it is set, the client subscribes again. Nothing in a round counts
/// the rounds before it: the same holds of every round.
pub proof fn lemma_lasting_subscription_round<T>(
    client: SXServiceClientView,
    serv_addr: Seq<char>,
    address: Seq<char>,
    msgs: Seq<T>,
    fresh: SXSynerexClient,
)
    requires
        client.server_address == Some(address),
        address.len() > 0,
    ensures
        ({
            let known = last_known_address(client, serv_addr, LoopEvent::Start);
            let run = stream_run(true, false, stream_events(msgs));
            let dropped = reconnect_next(client, ReconnectEvent::Start);
            let dialed = ReconnectEvent::Dialed(Some(fresh));
            let again = reconnect_next(dropped, dialed);
            &&& loop_action(client, serv_addr, LoopEvent::Start) == LoopActionView::ReadFlag
            &&& known == address
            &&& loop_action(client, known, LoopEvent::Flag(true)) == LoopActionView::Subscribe
            &&& run[0] == StreamStep::<T>::Open
            &&& forall|i: int| 0 <= i < msgs.len() ==> #[trigger] run[i + 2] == StreamStep::Deliver(msgs[i])
            &&& run[msgs.len() as int + 2] == StreamStep::<T>::Return(true)
            &&& loop_action(client, known, LoopEvent::Subscribed(true))
                == LoopActionView::Reconnect(address)
            &&& reconnect_action(address, ReconnectEvent::Start) == ReconnectActionView::Wait(5)
            &&& dropped.server_address is None
            &&& reconnect_action(address, ReconnectEvent::Waited) == ReconnectActionView::Dial(address)
            &&& reconnect_action(address, dialed) == ReconnectActionView::Done
            &&& again.server_address == Some(fresh.server_address@)
            &&& loop_action(again, address, LoopEvent::Reconnected) == LoopActionView::ReadFlag
            &&& loop_action(again, address, LoopEvent::Flag(true)) == LoopActionView::Subscribe
            &&& loop_action(again, address, LoopEvent::Flag(false)) == LoopActionView::Stop
        }),
{
    lemma_stream_hands_on_every_message(msgs, false);
}

/// One step of a lasting subscription, whichever kind of record it is for.
fn resubscribe(client: &SXServiceClient, serv_addr: &mut String, event: LoopEvent) -> (r:
    LoopAction)
    ensures
        final(serv_addr)@ == last_known_address(client@, old(serv_addr)@, event),
        r@ == loop_action(client@, old(serv_addr)@, event),
{
    match event {
        LoopEvent::Start => {
            match &client.sxclient {
                Some(c) => {
                    *serv_addr = c.server_address.clone();
                    if is_blank(&c.server_address) {
                        LoopAction::Stop
                    } else {
                        LoopAction::ReadFlag
                    }
                },
                None => LoopAction::Stop,
            }
        },
        LoopEvent::Flag(go_on) => {
            if go_on {
                LoopAction::Subscribe
            } else {
                LoopAction::Stop
            }
        },
        LoopEvent::Subscribed(ended) => {
            match &client.sxclient {
                Some(c) => {
                    if ended {
                        *serv_addr = c.server_address.clone();
                    }
                },
                None => {},
            }
            LoopAction::Reconnect(serv_addr.clone())
        },
        LoopEvent::Reconnected => LoopAction::ReadFlag,
    }
}

/// One step of a lasting demand subscription; `serv_addr` is the last known address of
/// the server, kept by the caller between steps.
pub fn subscribe_demand(client: &SXServiceClient, serv_addr: &mut String, event: LoopEvent) -> (r:
    LoopAction)
    ensures
        final(serv_addr)@ == last_known_address(client@, old(serv_addr)@, event),
        r@ == loop_action(client@, old(serv_addr)@, event),
{
    resubscribe(client, serv_addr, event)
}

/// One step of a lasting supply subscription: as for demands.
pub fn subscribe_supply(client: &SXServiceClient, serv_addr: &mut String, event: LoopEvent) -> (r:
    LoopAction)
    ensures
        final(serv_addr)@ == last_known_address(client@, old(serv_addr)@, event),
        r@ == loop_action(client@, old(serv_addr)@, event),
{
    resubscribe(client, serv_addr, event)
}

} // verus!
