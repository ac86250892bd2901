//! Admission of a connection and the per-connection state machine.
//!
//! The surrounding program owns the transport and storage. It hands the
//! outcome of each lookup or frame to these functions as an event and
//! performs the action it gets back.
use vstd::prelude::*;
use crate::history::{history_for_replay, in_creation_order, replay_text};
use crate::hub::{Hub, lines_of};
use crate::message::{ChatMessage, STAMP_PATTERN, format_line, line_text, local_time_text};

verus! {

/// Storage could not answer.
#[derive(Clone, Copy, Debug, PartialEq, Eq, Structural)]
pub struct StorageUnavailable;

/// Why a connection attempt was refused.
#[derive(Clone, Copy, Debug, PartialEq, Eq, Structural)]
pub enum Refusal {
    /// No session token, an unknown one, or a session store that could not
    /// be read: answered with 401 `Unauthorized`.
    Unauthorized,
    /// The hub has no subscription id left to hand out.
    NoCapacity,
}

/// Lifecycle of one client connection.
#[derive(Clone, Copy, Debug, PartialEq, Eq, Structural)]
pub enum ConnState {
    /// Transport accepted, no identity bound yet; events change nothing.
    Connecting,
    /// Session validated and user bound; history is being replayed.
    Authenticated,
    /// Steady state: inbound frames and hub lines are handled as they come.
    Streaming,
    /// Terminal: the hub subscription is gone.
    Closed,
}

/// A message that storage confirmed, stamped when it was confirmed, whose
/// line waits for the sender's display name.
#[derive(Debug)]
pub struct Confirmed {
    pub content: String,
    pub stamp: String,
}

/// One live client, bound to a user and to a hub subscription.
#[derive(Debug)]
pub struct Connection {
    pub user_id: i64,
    pub subscription: u64,
    pub state: ConnState,
    /// Confirmed messages not yet published, oldest first.
    pub confirmed: Vec<Confirmed>,
}

/// What an admitted client receives first: its connection and the history
/// lines to send before anything else.
pub struct Admission {
    pub connection: Connection,
    pub replay: Vec<String>,
}

/// What happened on a connection.
pub enum Event {
    /// Every history line has been handed to the transport.
    Replayed,
    /// An inbound text frame.
    Text(String),
    /// An inbound close frame.
    Close,
    /// An inbound frame that is neither text nor close.
    Malformed,
    /// A line taken from the connection's hub queue.
    HubLine(String),
    /// Sending to the client failed.
    SendFailed,
    /// The inbound stream ended or failed.
    InboundEnded,
    /// Storage answered the append of `content`.
    Stored { content: String, outcome: Result<(), StorageUnavailable> },
    /// Storage answered the sender-name lookup for the confirmed `content`.
    Named { content: String, lookup: Result<Option<String>, StorageUnavailable> },
}

/// What the surrounding program does next for a connection.
pub enum Action {
    Idle,
    /// Append this content to storage as a message of the connection's user.
    Persist(String),
    /// Look up the display name of the connection's user for this content.
    ResolveName(String),
    /// Send this line to the client.
    Forward(String),
    /// Acknowledge the client's close frame and release the transport.
    AcknowledgeClose,
    /// Release the transport.
    Release,
}

/// The user a session lookup admits; any failure admits nobody.
pub open spec fn admitted_user(lookup: Result<Option<i64>, StorageUnavailable>) -> Option<i64> {
    match lookup {
        Ok(Some(u)) => Some(u),
        _ => None,
    }
}

/// Display name used when the sender's name cannot be found.
pub open spec fn anonymous_name() -> Seq<char> {
    seq!['А', 'н', 'о', 'н', 'і', 'м']
}

/// The display name a name lookup yields.
pub open spec fn display_name(lookup: Result<Option<String>, StorageUnavailable>) -> Seq<char> {
    match lookup {
        Ok(Some(n)) => n@,
        _ => anonymous_name(),
    }
}

/// The hub after `line` is published.
pub open spec fn published(h: Map<u64, Seq<Seq<char>>>, line: Seq<char>) -> Map<u64, Seq<Seq<char>>> {
    h.map_values(|q: Seq<Seq<char>>| q.push(line))
}

/// Whether an event ends the connection from state `s`.
pub open spec fn ends(s: ConnState, e: Event) -> bool {
    &&& s != ConnState::Closed
    &&& s != ConnState::Connecting
    &&& (e is Close || e is SendFailed || e is InboundEnded)
}

/// The state after event `e` in state `s`.
pub open spec fn next_state(s: ConnState, e: Event) -> ConnState {
    if ends(s, e) {
        ConnState::Closed
    } else if s == ConnState::Authenticated && e is Replayed {
        ConnState::Streaming
    } else {
        s
    }
}

/// The action for event `e` on connection `c`.
pub open spec fn next_action(c: Connection, e: Event) -> Action {
    if ends(c.state, e) {
        if e is Close {
            Action::AcknowledgeClose
        } else {
            Action::Release
        }
    } else if c.state == ConnState::Streaming {
        match e {
            Event::Text(t) => Action::Persist(t),
            Event::HubLine(l) => Action::Forward(l),
            Event::Stored { content, outcome: Ok(()) } => Action::ResolveName(content),
            _ => Action::Idle,
        }
    } else {
        Action::Idle
    }
}

/// The confirmed messages of `c` as (content, stamp) texts, oldest first.
pub open spec fn pending_of(c: Connection) -> Seq<(Seq<char>, Seq<char>)> {
    c.confirmed@.map_values(|p: Confirmed| (p.content@, p.stamp@))
}

/// The text an event carries, if any.
pub open spec fn event_content(e: Event) -> Seq<char> {
    match e {
        Event::Text(t) => t@,
        Event::Stored { content, .. } => content@,
        Event::Named { content, .. } => content@,
        _ => Seq::empty(),
    }
}

/// Storage confirmed an append of a streaming connection.
pub open spec fn confirms(c: Connection, e: Event) -> bool {
    c.state == ConnState::Streaming && e matches Event::Stored { outcome: Ok(()), .. }
}

/// A name arrived for the oldest confirmed message of a streaming connection.
pub open spec fn announces(c: Connection, e: Event) -> bool {
    &&& c.state == ConnState::Streaming
    &&& e is Named
    &&& pending_of(c).len() > 0
    &&& pending_of(c)[0].0 == event_content(e)
}

/// The hub's view after event `e` on connection `c`: a closing connection
/// leaves it, the oldest confirmed message is published with its stamp once
/// its name arrives, and nothing else touches it.
pub open spec fn hub_after(h: Map<u64, Seq<Seq<char>>>, c: Connection, e: Event) -> Map<u64, Seq<Seq<char>>> {
    if ends(c.state, e) {
        h.remove(c.subscription)
    } else if announces(c, e) {
        match e {
            Event::Named { content, lookup } => published(
                h,
                line_text(display_name(lookup), content@, pending_of(c)[0].1),
            ),
            _ => h,
        }
    } else {
        h
    }
}

/// Decides whether a session lookup admits a user. Absent tokens and a
/// failing session store are refused alike.
pub fn validate_session(lookup: Result<Option<i64>, StorageUnavailable>) -> (r: Option<i64>)
    ensures
        r == admitted_user(lookup),
{
    match lookup {
        Ok(Some(u)) => Some(u),
        _ => None,
    }
}

/// The display name from a name lookup, falling back to `Анонім` when the
/// user is missing or storage fails.
pub fn resolve_name(lookup: Result<Option<String>, StorageUnavailable>) -> (r: String)
    ensures
        r@ == display_name(lookup),
{
    proof {
        reveal_strlit("Анонім");
    }
    match lookup {
        Ok(Some(n)) => n,
        _ => String::from_str("Анонім"),
    }
}

/// Admits a connection: refuses it without touching the hub unless the
/// session lookup names a user; otherwise subscribes it to the hub and hands
/// back the history to replay, in creation order (none if loading failed).
pub fn on_connect(
    hub: &mut Hub,
    lookup: Result<Option<i64>, StorageUnavailable>,
    history: Result<Vec<ChatMessage>, StorageUnavailable>,
) -> (r: Result<Admission, Refusal>)
    requires
        old(hub).wf(),
    ensures
        final(hub).wf(),
        final(hub)@.dom().finite(),
        admitted_user(lookup) is None ==> r == Err::<Admission, Refusal>(Refusal::Unauthorized)
            && *final(hub) == *old(hub),
        admitted_user(lookup) is Some && !old(hub).has_free_id() ==> r == Err::<Admission, Refusal>(
            Refusal::NoCapacity,
        ) && *final(hub) == *old(hub),
        admitted_user(lookup) is Some && old(hub).has_free_id() ==> r is Ok,
        r matches Ok(a) ==> {
            &&& admitted_user(lookup) == Some(a.connection.user_id)
            &&& a.connection.state == ConnState::Authenticated
            &&& a.connection.confirmed@.len() == 0
            &&& !old(hub)@.contains_key(a.connection.subscription)
            &&& final(hub)@ == old(hub)@.insert(a.connection.subscription, Seq::<Seq<char>>::empty())
            &&& match history {
                Ok(msgs) => exists|s: Seq<ChatMessage>|
                    #![trigger replay_text(s)]
                    in_creation_order(s) && s.to_multiset() == msgs@.to_multiset()
                        && lines_of(a.replay@) == replay_text(s) && (in_creation_order(msgs@)
                        ==> s == msgs@),
                Err(_) => a.replay@.len() == 0,
            }
        },
{
    proof {
        hub.lemma_finite();
    }
    let user_id = match validate_session(lookup) {
        None => return Err(Refusal::Unauthorized),
        Some(u) => u,
    };
    let subscription = match hub.subscribe() {
        None => return Err(Refusal::NoCapacity),
        Some(id) => id,
    };
    let replay = history_for_replay(history);
    Ok(Admission {
        connection: Connection {
            user_id,
            subscription,
            state: ConnState::Authenticated,
            confirmed: Vec::new(),
        },
        replay,
    })
}

/// Publishes a persisted message of `content`, stamped at `stamp`, under the
/// display name that `lookup` yields.
pub fn publish_message(
    hub: &mut Hub,
    lookup: Result<Option<String>, StorageUnavailable>,
    content: &str,
    stamp: &str,
)
    requires
        old(hub).wf(),
    ensures
        final(hub).wf(),
        final(hub)@ == published(old(hub)@, line_text(display_name(lookup), content@, stamp@)),
        final(hub).has_free_id() == old(hub).has_free_id(),
{
    let name = resolve_name(lookup);
    let line = format_line(name.as_str(), content, stamp);
    hub.publish(line.as_str());
}

/// Advances connection `conn` by one event, updating the hub, and returns
/// what the surrounding program must do next.
///
/// A confirmed append is stamped with the local time and queued; its line is
/// published only when the name for that same content arrives, oldest first.
/// Hub lines and inbound frames handed in before `Replayed` are dropped: the
/// hub keeps its lines queued until the caller takes them, so callers take
/// them only once the replay is done.
pub fn step(hub: &mut Hub, conn: &mut Connection, event: Event) -> (r: Action)
    requires
        old(hub).wf(),
    ensures
        final(hub).wf(),
        final(hub).has_free_id() == old(hub).has_free_id(),
        final(conn).user_id == old(conn).user_id,
        final(conn).subscription == old(conn).subscription,
        final(conn).state == next_state(old(conn).state, event),
        r == next_action(*old(conn), event),
        confirms(*old(conn), event) ==> {
            &&& pending_of(*final(conn)).len() == pending_of(*old(conn)).len() + 1
            &&& pending_of(*final(conn)).drop_last() == pending_of(*old(conn))
            &&& pending_of(*final(conn)).last().0 == event_content(event)
        },
        announces(*old(conn), event) ==> pending_of(*final(conn)) == pending_of(*old(conn)).drop_first(),
        !confirms(*old(conn), event) && !announces(*old(conn), event) ==> pending_of(*final(conn))
            == pending_of(*old(conn)),
        final(hub)@ == hub_after(old(hub)@, *old(conn), event),
{
    let s = conn.state;
    match s {
        ConnState::Closed | ConnState::Connecting => Action::Idle,
        ConnState::Authenticated => match event {
            Event::Replayed => {
                conn.state = ConnState::Streaming;
                Action::Idle
            },
            Event::Close => {
                close(hub, conn);
                Action::AcknowledgeClose
            },
            Event::SendFailed | Event::InboundEnded => {
                close(hub, conn);
                Action::Release
            },
            _ => Action::Idle,
        },
        ConnState::Streaming => match event {
            Event::Text(t) => Action::Persist(t),
            Event::HubLine(l) => Action::Forward(l),
            Event::Stored { content, outcome } => match outcome {
                Ok(()) => {
                    let stamp = local_time_text(STAMP_PATTERN);
                    let ghost before = pending_of(*conn);
                    conn.confirmed.push(Confirmed { content: content.clone(), stamp });
                    assert(pending_of(*conn).drop_last() =~= before);
                    Action::ResolveName(content)
                },
                Err(_) => Action::Idle,
            },
            Event::Named { content, lookup } => {
                if conn.confirmed.len() > 0 && conn.confirmed[0].content == content {
                    let ghost before = pending_of(*conn);
                    let first = conn.confirmed.remove(0);
                    assert(pending_of(*conn) =~= before.drop_first());
                    publish_message(hub, lookup, content.as_str(), first.stamp.as_str());
                }
                Action::Idle
            },
            Event::Close => {
                close(hub, conn);
                Action::AcknowledgeClose
            },
            Event::SendFailed | Event::InboundEnded => {
                close(hub, conn);
                Action::Release
            },
            Event::Replayed | Event::Malformed => Action::Idle,
        },
    }
}

fn close(hub: &mut Hub, conn: &mut Connection)
    requires
        old(hub).wf(),
    ensures
        final(hub).wf(),
        final(hub).has_free_id() == old(hub).has_free_id(),
        final(hub)@ == old(hub)@.remove(old(conn).subscription),
        final(conn).state == ConnState::Closed,
        final(conn).user_id == old(conn).user_id,
        final(conn).subscription == old(conn).subscription,
        final(conn).confirmed == old(conn).confirmed,
{
    hub.unsubscribe(conn.subscription);
    conn.state = ConnState::Closed;
}

} // verus!
