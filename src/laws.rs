//! Properties of the broadcast engine that relate several operations,
//! stated over the same views the operations' contracts use.
use vstd::prelude::*;
use crate::hub::lines_of;
use crate::history::{in_creation_order, replay_text};
use crate::message::{ChatMessage, line_text};
use crate::session::{
    ConnState, Connection, Event, StorageUnavailable, announces, confirms, display_name,
    hub_after, next_action, next_state, pending_of, published,
};

verus! {

/// Fan-out completeness: a line published after a subscription opens reaches
/// it, and a line published before it opens never reaches it through the hub.
pub proof fn lemma_fan_out(h: Map<u64, Seq<Seq<char>>>, id: u64, line: Seq<char>)
    requires
        !h.contains_key(id),
    ensures
        published(h.insert(id, Seq::<Seq<char>>::empty()), line)[id] == seq![line],
        published(h, line).insert(id, Seq::<Seq<char>>::empty())[id].len() == 0,
        forall|k: u64| #[trigger]
            h.contains_key(k) ==> published(h.insert(id, Seq::<Seq<char>>::empty()), line)[k]
                == h[k].push(line),
{
    assert(Seq::<Seq<char>>::empty().push(line) =~= seq![line]);
    assert forall|k: u64| #[trigger] h.contains_key(k) implies published(
        h.insert(id, Seq::<Seq<char>>::empty()),
        line,
    )[k] == h[k].push(line) by {
        assert(k != id);
    }
}

/// The hub's view after `lines` are published one after another.
pub open spec fn published_all(h: Map<u64, Seq<Seq<char>>>, lines: Seq<Seq<char>>) -> Map<
    u64,
    Seq<Seq<char>>,
>
    decreases lines.len(),
{
    if lines.len() == 0 {
        h
    } else {
        published(published_all(h, lines.drop_last()), lines.last())
    }
}

/// Fan-out completeness for any number of lines: a subscription opened
/// before they are published receives every one of them, verbatim and in
/// publication order; one opened after them receives none.
pub proof fn lemma_fan_out_all(h: Map<u64, Seq<Seq<char>>>, id: u64, lines: Seq<Seq<char>>)
    requires
        !h.contains_key(id),
    ensures
        published_all(h.insert(id, Seq::<Seq<char>>::empty()), lines).contains_key(id),
        published_all(h.insert(id, Seq::<Seq<char>>::empty()), lines)[id] == lines,
        published_all(h, lines).insert(id, Seq::<Seq<char>>::empty())[id].len() == 0,
    decreases lines.len(),
{
    if lines.len() > 0 {
        lemma_fan_out_all(h, id, lines.drop_last());
        let m = published_all(h.insert(id, Seq::<Seq<char>>::empty()), lines.drop_last());
        assert(published(m, lines.last()).dom() =~= m.dom());
        assert(m[id].push(lines.last()) =~= lines);
    } else {
        assert(Seq::<Seq<char>>::empty() =~= lines);
    }
}

/// Isolation: when storage fails to append a message of streaming client
/// `a`, `a` stays open with nothing to do, queues nothing and leaves the hub
/// untouched, while a streaming client `b` whose oldest confirmed message
/// gets its name still has that line delivered to its own queue, with the
/// hub's other subscriptions kept.
pub proof fn lemma_failed_append_is_isolated(
    h: Map<u64, Seq<Seq<char>>>,
    a: Connection,
    b: Connection,
    content: String,
    b_content: String,
    b_lookup: Result<Option<String>, StorageUnavailable>,
)
    requires
        a.state == ConnState::Streaming,
        b.state == ConnState::Streaming,
        h.contains_key(b.subscription),
        pending_of(b).len() > 0,
        pending_of(b)[0].0 == b_content@,
    ensures
        ({
            let failed = Event::Stored { content, outcome: Err(StorageUnavailable) };
            &&& next_state(a.state, failed) == ConnState::Streaming
            &&& next_action(a, failed) is Idle
            &&& !confirms(a, failed) && !announces(a, failed)
            &&& hub_after(h, a, failed) == h
        }),
        ({
            let named = Event::Named { content: b_content, lookup: b_lookup };
            let line = line_text(display_name(b_lookup), b_content@, pending_of(b)[0].1);
            &&& next_state(b.state, named) == ConnState::Streaming
            &&& hub_after(h, b, named)[b.subscription] == h[b.subscription].push(line)
            &&& hub_after(h, b, named).dom() == h.dom()
        }),
{
    let named = Event::Named { content: b_content, lookup: b_lookup };
    let line = line_text(display_name(b_lookup), b_content@, pending_of(b)[0].1);
    assert(announces(b, named));
    assert(hub_after(h, b, named) == published(h, line));
    assert(published(h, line).dom() =~= h.dom());
}

/// A close frame ends only the connection that sent it: it leaves the hub,
/// which then has one subscription fewer, and every other subscription keeps
/// its queue.
pub proof fn lemma_close_is_local(h: Map<u64, Seq<Seq<char>>>, c: Connection, other: u64)
    requires
        c.state == ConnState::Streaming,
        h.dom().finite(),
        h.contains_key(c.subscription),
        h.contains_key(other),
        other != c.subscription,
    ensures
        hub_after(h, c, Event::Close).dom().len() == h.dom().len() - 1,
        next_state(c.state, Event::Close) == ConnState::Closed,
        next_action(c, Event::Close) is AcknowledgeClose,
        !hub_after(h, c, Event::Close).contains_key(c.subscription),
        hub_after(h, c, Event::Close).contains_key(other),
        hub_after(h, c, Event::Close)[other] == h[other],
{
}

/// Name resolution is stable: the same lookup answer gives the same display
/// name each time it is resolved.
pub proof fn lemma_name_resolution_stable(
    first: Result<Option<String>, StorageUnavailable>,
    second: Result<Option<String>, StorageUnavailable>,
)
    requires
        first == second,
    ensures
        display_name(first) == display_name(second),
{
}

/// History replay keeps creation order and comes first: a client that
/// joined with the lines of stored messages `msgs` (in creation order)
/// receives exactly those lines in that order, then each live line published
/// after it subscribed.
pub proof fn lemma_replay_precedes_live(
    h: Map<u64, Seq<Seq<char>>>,
    sub: u64,
    msgs: Seq<ChatMessage>,
    replay: Seq<String>,
    live: Seq<char>,
)
    requires
        in_creation_order(msgs),
        !h.contains_key(sub),
        lines_of(replay) == replay_text(msgs),
    ensures
        ({
            let received = lines_of(replay) + published(h.insert(sub, Seq::<Seq<char>>::empty()), live)[sub];
            &&& received.len() == msgs.len() + 1
            &&& forall|i: int| 0 <= i < msgs.len() ==> #[trigger] received[i] == line_text(
                msgs[i].sender_name@,
                msgs[i].content@,
                msgs[i].timestamp@,
            )
            &&& received[msgs.len() as int] == live
        }),
{
    lemma_fan_out(h, sub, live);
    let received = lines_of(replay) + published(h.insert(sub, Seq::<Seq<char>>::empty()), live)[sub];
    assert(received == replay_text(msgs) + seq![live]);
}

} // verus!
