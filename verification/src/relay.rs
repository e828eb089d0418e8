//! The decisions of a connection's relay loop.
//!
//! A connection waits on two sources at once, the network and the consumer
//! end of its queue, and serves whichever is ready. The waiting and the
//! sending are the caller's; what to do with each thing that arrives, and
//! whether to go on afterwards, is decided here.

use vstd::prelude::*;
use vstd::string::*;

verus! {

/// The one payload that the relay itself puts on a queue: it tells the
/// surviving peer that its counterpart is gone.
pub const RESET_MSG: &'static str = "{\"type\":\"reset\"}";

/// A frame that arrived from the network.
#[derive(Debug)]
pub enum Frame {
    Text(String),
    Binary,
    Ping,
    Pong,
    Close,
}

/// One thing that a relaying connection was woken by.
#[derive(Debug)]
pub enum Event {
    /// The network delivered a frame.
    Frame(Frame),
    /// The network connection ended without a close frame.
    NetworkEnded,
    /// The network reported a protocol error.
    NetworkFailed,
    /// The consumer end delivered a message from the peer.
    Queued(String),
    /// The consumer end is exhausted: the queue's producer end was dropped.
    QueueEnded,
}

/// Why a connection stopped relaying.
#[derive(Clone, Copy, Debug, PartialEq, Eq, Structural)]
pub enum Cause {
    /// A message from the network could not be put on the queue.
    ForwardFailed,
    /// The network side closed or ended, and the peer was told so.
    Disconnected,
    /// The network side closed or ended, and the peer could not be told.
    DisconnectedSilently,
    /// The network reported a protocol error.
    ProtocolError,
    /// A message from the peer could not be sent to the network.
    DeliverFailed,
    /// The queue ended though no reset had announced it.
    QueueExhausted,
}

/// The state of a connection: it relays, or it has stopped for good.
#[derive(Clone, Copy, Debug, PartialEq, Eq, Structural)]
pub enum Phase {
    Relaying,
    Closed(Cause),
}

/// What the caller is to do in answer to an event.
#[derive(Debug)]
pub enum Action {
    /// Send the payload into the producer end.
    Forward(String),
    /// Send the payload to the network as a text frame.
    Deliver(String),
    /// Send the reset payload into the producer end, then stop.
    Reset,
    /// Do nothing and go on.
    Ignore,
    /// Do nothing and stop.
    Stop(Cause),
}

impl Cause {
    /// The cause is no part of ordinary operation and deserves a report of
    /// higher severity: only a queue that ended unannounced is.
    pub open spec fn spec_is_abnormal(self) -> bool {
        self == Cause::QueueExhausted
    }

    /// Whether the cause deserves a report of higher severity.
    #[verifier::when_used_as_spec(spec_is_abnormal)]
    pub fn is_abnormal(self) -> (r: bool)
        ensures
            r == self.spec_is_abnormal(),
    {
        match self {
            Cause::QueueExhausted => true,
            _ => false,
        }
    }
}

impl Phase {
    /// The connection still relays.
    pub open spec fn spec_is_relaying(self) -> bool {
        self == Phase::Relaying
    }

    /// Whether the connection still relays.
    #[verifier::when_used_as_spec(spec_is_relaying)]
    pub fn is_relaying(self) -> (r: bool)
        ensures
            r == self.spec_is_relaying(),
    {
        match self {
            Phase::Relaying => true,
            Phase::Closed(_) => false,
        }
    }
}

/// The text of the reset payload.
pub open spec fn reset_text() -> Seq<char> {
    RESET_MSG@
}

/// The reset payload, ready to be sent.
pub fn reset_message() -> (m: String)
    ensures
        m@ == reset_text(),
{
    String::from_str(RESET_MSG)
}

/// The action by which a connection in `phase` answers `event`. A
/// connection that has stopped answers nothing any more.
pub open spec fn reaction(phase: Phase, event: Event) -> Action {
    match phase {
        Phase::Closed(cause) => Action::Stop(cause),
        Phase::Relaying => match event {
            Event::Frame(Frame::Text(payload)) => Action::Forward(payload),
            Event::Frame(Frame::Close) => Action::Reset,
            Event::Frame(_) => Action::Ignore,
            Event::NetworkEnded => Action::Reset,
            Event::NetworkFailed => Action::Stop(Cause::ProtocolError),
            Event::Queued(payload) => Action::Deliver(payload),
            Event::QueueEnded => Action::Stop(Cause::QueueExhausted),
        },
    }
}

/// The phase that follows `phase` once `action` was carried out, where
/// `done` says whether the send that it asked for succeeded. It is not
/// looked at where the action asks for none. A connection that has stopped
/// stays as it is.
pub open spec fn outcome(phase: Phase, action: Action, done: bool) -> Phase {
    match phase {
        Phase::Closed(_) => phase,
        Phase::Relaying => match action {
            Action::Forward(_) => if done {
                Phase::Relaying
            } else {
                Phase::Closed(Cause::ForwardFailed)
            },
            Action::Deliver(_) => if done {
                Phase::Relaying
            } else {
                Phase::Closed(Cause::DeliverFailed)
            },
            Action::Reset => if done {
                Phase::Closed(Cause::Disconnected)
            } else {
                Phase::Closed(Cause::DisconnectedSilently)
            },
            Action::Ignore => Phase::Relaying,
            Action::Stop(cause) => Phase::Closed(cause),
        },
    }
}

/// Decides what a connection in `phase` does with `event`.
///
/// While it relays: a text frame is forwarded to the peer with its payload
/// untouched. A close frame, or the end of the network connection, makes
/// the relay tell the peer with the reset payload. Any other frame is
/// ignored. A message from the peer is delivered to the network untouched.
/// A protocol error and an exhausted queue stop the connection with nothing
/// sent. Once it has stopped, every event is answered with a stop.
pub fn react(phase: Phase, event: Event) -> (action: Action)
    ensures
        action == reaction(phase, event),
{
    match phase {
        Phase::Closed(cause) => Action::Stop(cause),
        Phase::Relaying => match event {
            Event::Frame(Frame::Text(payload)) => Action::Forward(payload),
            Event::Frame(Frame::Close) => Action::Reset,
            Event::Frame(Frame::Binary) => Action::Ignore,
            Event::Frame(Frame::Ping) => Action::Ignore,
            Event::Frame(Frame::Pong) => Action::Ignore,
            Event::NetworkEnded => Action::Reset,
            Event::NetworkFailed => Action::Stop(Cause::ProtocolError),
            Event::Queued(payload) => Action::Deliver(payload),
            Event::QueueEnded => Action::Stop(Cause::QueueExhausted),
        },
    }
}

/// Decides how a connection in `phase` goes on after `action` was carried
/// out. `done` says whether the send that the action asked for succeeded.
///
/// A failed forward or delivery stops the connection. A reset stops it
/// whether or not it could be sent. Nothing else does, but an action that
/// is itself a stop. A connection that has stopped stays stopped, for the
/// cause that it stopped for.
pub fn settle(phase: Phase, action: &Action, done: bool) -> (next: Phase)
    ensures
        next == outcome(phase, *action, done),
{
    match phase {
        Phase::Closed(_) => phase,
        Phase::Relaying => match action {
            Action::Forward(_) => if done {
                Phase::Relaying
            } else {
                Phase::Closed(Cause::ForwardFailed)
            },
            Action::Deliver(_) => if done {
                Phase::Relaying
            } else {
                Phase::Closed(Cause::DeliverFailed)
            },
            Action::Reset => if done {
                Phase::Closed(Cause::Disconnected)
            } else {
                Phase::Closed(Cause::DisconnectedSilently)
            },
            Action::Ignore => Phase::Relaying,
            Action::Stop(cause) => Phase::Closed(*cause),
        },
    }
}

/// One turn of the relay loop: the event that woke the connection, and
/// whether the send that its action asked for succeeded.
#[derive(Debug)]
pub struct Turn {
    pub event: Event,
    pub done: bool,
}

/// The phase of a connection that started relaying and took `turns` in
/// order, each decided by `reaction` and concluded by `outcome`.
pub open spec fn phase_after(turns: Seq<Turn>) -> Phase
    decreases turns.len(),
{
    if turns.len() == 0 {
        Phase::Relaying
    } else {
        let before = phase_after(turns.drop_last());
        outcome(before, reaction(before, turns.last().event), turns.last().done)
    }
}

/// What the last of `turns` put on the queue towards the peer: the payload
/// of a forward or of a reset, where the send succeeded.
pub open spec fn sent_by_last(turns: Seq<Turn>) -> Option<Seq<char>>
    recommends
        turns.len() > 0,
{
    if turns.last().done {
        match reaction(phase_after(turns.drop_last()), turns.last().event) {
            Action::Forward(payload) => Some(payload@),
            Action::Reset => Some(reset_text()),
            _ => None,
        }
    } else {
        None
    }
}

/// What the last of `turns` sent to the network: the payload of a
/// delivery, where the send succeeded.
pub open spec fn delivered_by_last(turns: Seq<Turn>) -> Option<Seq<char>>
    recommends
        turns.len() > 0,
{
    if turns.last().done {
        match reaction(phase_after(turns.drop_last()), turns.last().event) {
            Action::Deliver(payload) => Some(payload@),
            _ => None,
        }
    } else {
        None
    }
}

/// The payloads that a connection put on the queue towards its peer over
/// `turns`, in the order in which it sent them.
pub open spec fn sent(turns: Seq<Turn>) -> Seq<Seq<char>>
    decreases turns.len(),
{
    if turns.len() == 0 {
        Seq::empty()
    } else {
        match sent_by_last(turns) {
            Some(payload) => sent(turns.drop_last()).push(payload),
            None => sent(turns.drop_last()),
        }
    }
}

/// The payloads that a connection sent to the network over `turns`, in the
/// order in which it sent them.
pub open spec fn delivered(turns: Seq<Turn>) -> Seq<Seq<char>>
    decreases turns.len(),
{
    if turns.len() == 0 {
        Seq::empty()
    } else {
        match delivered_by_last(turns) {
            Some(payload) => delivered(turns.drop_last()).push(payload),
            None => delivered(turns.drop_last()),
        }
    }
}

/// The payloads of the text frames among `turns`, in order of arrival.
pub open spec fn inbound_texts(turns: Seq<Turn>) -> Seq<Seq<char>>
    decreases turns.len(),
{
    if turns.len() == 0 {
        Seq::empty()
    } else {
        match turns.last().event {
            Event::Frame(Frame::Text(payload)) => inbound_texts(turns.drop_last()).push(payload@),
            _ => inbound_texts(turns.drop_last()),
        }
    }
}

/// The payloads of the messages from the peer among `turns`, in order of
/// arrival.
pub open spec fn queued(turns: Seq<Turn>) -> Seq<Seq<char>>
    decreases turns.len(),
{
    if turns.len() == 0 {
        Seq::empty()
    } else {
        match turns.last().event {
            Event::Queued(payload) => queued(turns.drop_last()).push(payload@),
            _ => queued(turns.drop_last()),
        }
    }
}

/// The relay loop of one connection, between two turns. It starts relaying
/// and remembers, for the proofs only, every turn that it has taken.
pub struct Relay {
    phase: Phase,
    turns: Ghost<Seq<Turn>>,
}

/// A relay in the middle of a turn: it has decided on an action and waits to
/// hear how the action went. Concluding the turn gives the relay back.
pub struct Pending {
    if_done: Phase,
    if_failed: Phase,
    turns: Ghost<Seq<Turn>>,
    event: Ghost<Event>,
}

impl Relay {
    #[verifier::type_invariant]
    spec fn well_formed(self) -> bool {
        self.phase == phase_after(self.turns@)
    }

    /// The turns that the relay has taken, oldest first.
    pub closed spec fn turns(self) -> Seq<Turn> {
        self.turns@
    }

    /// A relay that has taken no turn yet: it relays.
    pub fn new() -> (relay: Relay)
        ensures
            relay.turns() == Seq::<Turn>::empty(),
    {
        Relay { phase: Phase::Relaying, turns: Ghost(Seq::empty()) }
    }

    /// The phase that the relay's turns have brought it to.
    pub fn phase(&self) -> (phase: Phase)
        ensures
            phase == phase_after(self.turns()),
    {
        proof {
            use_type_invariant(self);
        }
        self.phase
    }

    /// Whether the relay goes on: the loop runs for as long as this holds.
    pub fn is_relaying(&self) -> (r: bool)
        ensures
            r == (phase_after(self.turns()) == Phase::Relaying),
    {
        proof {
            use_type_invariant(self);
        }
        self.phase.is_relaying()
    }

    /// Begins a turn: decides what to do with `event`. The caller carries
    /// the action out and concludes the turn with how it went.
    pub fn handle(self, event: Event) -> (r: (Action, Pending))
        ensures
            r.0 == reaction(phase_after(self.turns()), event),
            r.1.turns() == self.turns(),
            r.1.event() == event,
    {
        proof {
            use_type_invariant(&self);
        }
        let ghost woken_by = event;
        let action = react(self.phase, event);
        let pending = Pending {
            if_done: settle(self.phase, &action, true),
            if_failed: settle(self.phase, &action, false),
            turns: self.turns,
            event: Ghost(woken_by),
        };
        (action, pending)
    }
}

impl Pending {
    #[verifier::type_invariant]
    spec fn well_formed(self) -> bool {
        let before = phase_after(self.turns@);
        &&& self.if_done == outcome(before, reaction(before, self.event@), true)
        &&& self.if_failed == outcome(before, reaction(before, self.event@), false)
    }

    /// The turns that the relay had taken before this one.
    pub closed spec fn turns(self) -> Seq<Turn> {
        self.turns@
    }

    /// The event that this turn answers.
    pub closed spec fn event(self) -> Event {
        self.event@
    }

    /// Ends the turn: `done` says whether the send that the action asked
    /// for succeeded. The relay that comes back has taken one turn more.
    pub fn conclude(self, done: bool) -> (relay: Relay)
        ensures
            relay.turns() == self.turns().push(Turn { event: self.event(), done }),
    {
        proof {
            use_type_invariant(&self);
        }
        let ghost taken = self.turns@.push(Turn { event: self.event@, done });
        proof {
            assert(taken.drop_last() =~= self.turns@);
        }
        Relay {
            phase: if done {
                self.if_done
            } else {
                self.if_failed
            },
            turns: Ghost(taken),
        }
    }
}

/// The network side of the connection closed or ended.
pub open spec fn is_departure(event: Event) -> bool {
    event is NetworkEnded || event == Event::Frame(Frame::Close)
}

/// A connection that relays at the end of its turns relayed at every
/// earlier point too.
pub proof fn lemma_relaying_so_far(turns: Seq<Turn>)
    requires
        turns.len() > 0,
        phase_after(turns) == Phase::Relaying,
    ensures
        phase_after(turns.drop_last()) == Phase::Relaying,
{
}

/// For as long as a connection relays, it loses, reorders and makes up
/// nothing. What it has put on the queue towards its peer is exactly the
/// payloads of the text frames that arrived, in the order of their arrival;
/// what it has sent to the network is exactly the messages that came from
/// the peer, in the order in which the queue gave them.
pub proof fn lemma_relay_preserves_order(turns: Seq<Turn>)
    requires
        phase_after(turns) == Phase::Relaying,
    ensures
        sent(turns) == inbound_texts(turns),
        delivered(turns) == queued(turns),
    decreases turns.len(),
{
    if turns.len() > 0 {
        lemma_relaying_so_far(turns);
        lemma_relay_preserves_order(turns.drop_last());
    }
}

/// When the network side of a relaying connection closes or ends, the
/// connection stops, and the reset payload is the last thing that it puts
/// on the queue towards its peer: after every text that it forwarded, and
/// once.
pub proof fn lemma_departure_sends_reset(turns: Seq<Turn>)
    requires
        turns.len() > 0,
        phase_after(turns.drop_last()) == Phase::Relaying,
        is_departure(turns.last().event),
    ensures
        phase_after(turns) is Closed,
        turns.last().done ==> sent(turns) == inbound_texts(turns.drop_last()).push(reset_text()),
        !turns.last().done ==> sent(turns) == inbound_texts(turns.drop_last()),
        delivered(turns) == queued(turns.drop_last()),
{
    lemma_relay_preserves_order(turns.drop_last());
}

/// The reset payload goes out only on a departure: a connection that stops
/// for any other reason puts nothing on the queue in its last turn but a
/// text that it forwarded.
pub proof fn lemma_reset_only_on_departure(turns: Seq<Turn>)
    requires
        turns.len() > 0,
        phase_after(turns.drop_last()) == Phase::Relaying,
        !is_departure(turns.last().event),
    ensures
        reaction(Phase::Relaying, turns.last().event) != Action::Reset,
        phase_after(turns) != Phase::Closed(Cause::Disconnected),
        phase_after(turns) != Phase::Closed(Cause::DisconnectedSilently),
        sent_by_last(turns) matches Some(payload) ==> turns.last().event matches Event::Frame(
            Frame::Text(text),
        ) && text@ == payload,
{
}

/// A connection that has stopped stays stopped: whatever arrives
/// afterwards, it sends nothing more, to the peer or to the network, and
/// its phase keeps the cause for which it stopped.
pub proof fn lemma_closed_is_final(turns: Seq<Turn>, more: Seq<Turn>)
    requires
        phase_after(turns) is Closed,
    ensures
        phase_after(turns + more) == phase_after(turns),
        sent(turns + more) == sent(turns),
        delivered(turns + more) == delivered(turns),
    decreases more.len(),
{
    if more.len() == 0 {
        assert(turns + more =~= turns);
    } else {
        assert((turns + more).drop_last() =~= turns + more.drop_last());
        lemma_closed_is_final(turns, more.drop_last());
    }
}

/// From end to end across a queue that gives out what was put on it in the
/// order in which it was put: what the relaying connection at the far end
/// has sent to its network is a beginning of what the connection at the
/// near end put on the queue, and so, while the near end relays, of the
/// texts that arrived there. Once the far end has been given all of it, it
/// has sent all of it, a reset at the end included.
///
/// That the queue keeps the order is the hypothesis: the queue is the
/// channel's, and nothing here proves it.
pub proof fn lemma_peer_receives_in_order(near: Seq<Turn>, far: Seq<Turn>)
    requires
        phase_after(far) == Phase::Relaying,
        queued(far).is_prefix_of(sent(near)),
    ensures
        delivered(far).is_prefix_of(sent(near)),
        phase_after(near) == Phase::Relaying ==> delivered(far).is_prefix_of(inbound_texts(near)),
        queued(far) == sent(near) ==> delivered(far) == sent(near),
{
    lemma_relay_preserves_order(far);
    if phase_after(near) == Phase::Relaying {
        lemma_relay_preserves_order(near);
    }
}

/// From end to end, under the same hypothesis: when the near end departs
/// and can say so, and the far end has been given all that the near end put
/// on the queue, then the far end has sent to its network every text that
/// arrived at the near end, in order, and after them the reset payload,
/// once. Whatever arrives at the near end afterwards adds nothing to it.
pub proof fn lemma_peer_receives_one_reset(near: Seq<Turn>, far: Seq<Turn>, later: Seq<Turn>)
    requires
        near.len() > 0,
        phase_after(near.drop_last()) == Phase::Relaying,
        is_departure(near.last().event),
        near.last().done,
        phase_after(far) == Phase::Relaying,
        queued(far) == sent(near),
    ensures
        delivered(far) == inbound_texts(near.drop_last()).push(reset_text()),
        sent(near + later) == sent(near),
{
    lemma_departure_sends_reset(near);
    lemma_relay_preserves_order(far);
    lemma_closed_is_final(near, later);
}

} // verus!
