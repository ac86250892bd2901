//! History replay: stored messages put in creation order and rendered as
//! the lines a newly joined client receives.
use vstd::prelude::*;
use vstd::multiset::Multiset;
use crate::hub::lines_of;
use crate::message::{ChatMessage, message_line, message_to_line};

verus! {

broadcast use vstd::seq_lib::group_to_multiset_ensures;

/// Strict lexicographic order of texts, character by character; a proper
/// prefix comes first. On `YYYY-MM-DD HH:MM:SS` stamps this is time order.
pub open spec fn text_lt(a: Seq<char>, b: Seq<char>) -> bool
    decreases a.len(),
{
    if a.len() == 0 {
        b.len() > 0
    } else if b.len() == 0 {
        false
    } else if a[0] != b[0] {
        (a[0] as u32) < (b[0] as u32)
    } else {
        text_lt(a.drop_first(), b.drop_first())
    }
}

/// Creation order: by timestamp, ties broken by the storage-assigned id.
pub open spec fn created_no_later(a: ChatMessage, b: ChatMessage) -> bool {
    text_lt(a.timestamp@, b.timestamp@) || (a.timestamp@ == b.timestamp@ && a.id <= b.id)
}

/// Messages ascend in creation order.
pub open spec fn in_creation_order(s: Seq<ChatMessage>) -> bool {
    forall|i: int, j: int| 0 <= i < j < s.len() ==> created_no_later(#[trigger] s[i], #[trigger] s[j])
}

proof fn lemma_text_lt_trans(a: Seq<char>, b: Seq<char>, c: Seq<char>)
    requires
        text_lt(a, b),
        text_lt(b, c),
    ensures
        text_lt(a, c),
    decreases a.len(),
{
    if a.len() > 0 && b.len() > 0 && c.len() > 0 && a[0] == b[0] && b[0] == c[0] {
        lemma_text_lt_trans(a.drop_first(), b.drop_first(), c.drop_first());
    }
}

proof fn lemma_text_lt_total(a: Seq<char>, b: Seq<char>)
    ensures
        text_lt(a, b) || a == b || text_lt(b, a),
        !(text_lt(a, b) && text_lt(b, a)),
        !text_lt(a, a),
    decreases a.len(),
{
    if a.len() == 0 {
        if b.len() == 0 {
            assert(a =~= b);
        }
    } else if b.len() > 0 {
        vstd::utf8::char_u32_cast(a[0], a[0] as u32);
        vstd::utf8::char_u32_cast(b[0], b[0] as u32);
        lemma_text_lt_total(a.drop_first(), b.drop_first());
        if a[0] == b[0] && a.drop_first() == b.drop_first() {
            assert forall|i: int| 0 <= i < a.len() implies a[i] == b[i] by {
                if i > 0 {
                    assert(a[i] == a.drop_first()[i - 1]);
                    assert(b[i] == b.drop_first()[i - 1]);
                }
            }
            assert(a =~= b);
        }
    } else {
    }
    if a.len() > 0 {
        lemma_text_lt_total(a.drop_first(), a.drop_first());
    }
}

proof fn lemma_created_order(a: ChatMessage, b: ChatMessage, c: ChatMessage)
    ensures
        created_no_later(a, b) || created_no_later(b, a),
        created_no_later(a, b) && created_no_later(b, c) ==> created_no_later(a, c),
{
    lemma_text_lt_total(a.timestamp@, b.timestamp@);
    lemma_text_lt_total(b.timestamp@, c.timestamp@);
    lemma_text_lt_total(a.timestamp@, c.timestamp@);
    if text_lt(a.timestamp@, b.timestamp@) && text_lt(b.timestamp@, c.timestamp@) {
        lemma_text_lt_trans(a.timestamp@, b.timestamp@, c.timestamp@);
    }
}

/// Whether text `a` sorts strictly before text `b`.
pub fn text_before(a: &str, b: &str) -> (r: bool)
    ensures
        r == text_lt(a@, b@),
{
    let la = a.unicode_len();
    let lb = b.unicode_len();
    let mut i: usize = 0;
    assert(a@.skip(0) =~= a@ && b@.skip(0) =~= b@);
    while i < la && i < lb
        invariant
            la == a@.len(),
            lb == b@.len(),
            i <= la,
            i <= lb,
            text_lt(a@.skip(i as int), b@.skip(i as int)) == text_lt(a@, b@),
        decreases la - i,
    {
        let ca = a.get_char(i);
        let cb = b.get_char(i);
        assert(a@.skip(i as int)[0] == ca);
        assert(b@.skip(i as int)[0] == cb);
        if ca != cb {
            return (ca as u32) < (cb as u32);
        }
        assert(a@.skip(i as int).drop_first() =~= a@.skip(i + 1));
        assert(b@.skip(i as int).drop_first() =~= b@.skip(i + 1));
        i = i + 1;
    }
    i == la && i < lb
}

/// Whether message `a` was created no later than message `b`.
pub fn created_before_or_with(a: &ChatMessage, b: &ChatMessage) -> (r: bool)
    ensures
        r == created_no_later(*a, *b),
{
    if text_before(a.timestamp.as_str(), b.timestamp.as_str()) {
        true
    } else if a.timestamp == b.timestamp {
        a.id <= b.id
    } else {
        false
    }
}

/// The lines that replay `s` in its order.
pub open spec fn replay_text(s: Seq<ChatMessage>) -> Seq<Seq<char>> {
    s.map_values(|m: ChatMessage| message_line(m))
}

/// Puts messages in creation order, whatever order storage returned them
/// in; messages with equal keys keep their relative order, and input that is
/// already in order comes back unchanged.
pub fn order_history(msgs: Vec<ChatMessage>) -> (r: Vec<ChatMessage>)
    ensures
        in_creation_order(r@),
        r@.to_multiset() == msgs@.to_multiset(),
        in_creation_order(msgs@) ==> r@ == msgs@,
{
    let ghost orig = msgs@;
    let mut rest = msgs;
    let mut sorted: Vec<ChatMessage> = Vec::new();
    while rest.len() > 0
        invariant
            in_creation_order(sorted@),
            sorted@.to_multiset().add(rest@.to_multiset()) == orig.to_multiset(),
            in_creation_order(orig) ==> sorted@ + rest@ == orig,
        decreases rest@.len(),
    {
        let ghost rest0 = rest@;
        let m = rest.remove(0);
        assert(rest0 == seq![m] + rest@);
        proof {
            vstd::seq_lib::lemma_multiset_commutative(seq![m], rest@);
            assert(seq![m].to_multiset() =~= Multiset::empty().insert(m)) by {
                assert(seq![m] == Seq::<ChatMessage>::empty().push(m));
            }
        }
        let mut k: usize = sorted.len();
        while k > 0 && !created_before_or_with(&sorted[k - 1], &m)
            invariant
                k <= sorted@.len(),
                forall|j: int| k <= j < sorted@.len() ==> !created_no_later(#[trigger] sorted@[j], m),
            decreases k,
        {
            k = k - 1;
        }
        let ghost s0 = sorted@;
        proof {
            if in_creation_order(orig) && k < s0.len() {
                let l = s0.len() as int;
                assert(s0 + rest0 == orig);
                assert(orig[l - 1] == s0[l - 1]);
                assert(orig[l] == m);
                assert(created_no_later(orig[l - 1], orig[l]));
                assert(!created_no_later(s0[l - 1], m));
            }
            assert(in_creation_order(orig) ==> k == s0.len());
        }
        sorted.insert(k, m);
        assert(sorted@ == s0.insert(k as int, m));
        assert(sorted@.to_multiset() == s0.to_multiset().insert(m));
        assert forall|i: int, j: int| 0 <= i < j < sorted@.len() implies created_no_later(
            #[trigger] sorted@[i],
            #[trigger] sorted@[j],
        ) by {
            if j < k {
                assert(sorted@[i] == s0[i] && sorted@[j] == s0[j]);
            } else if j == k {
                assert(sorted@[i] == s0[i]);
                assert(created_no_later(s0[k - 1], m));
                lemma_created_order(s0[i], s0[k - 1], m);
            } else if i == k {
                assert(sorted@[j] == s0[j - 1]);
                lemma_created_order(s0[j - 1], m, m);
            } else if i < k {
                assert(sorted@[i] == s0[i] && sorted@[j] == s0[j - 1]);
            } else {
                assert(sorted@[i] == s0[i - 1] && sorted@[j] == s0[j - 1]);
            }
        }
        assert(sorted@.to_multiset().add(rest@.to_multiset()) =~= orig.to_multiset());
        assert(in_creation_order(orig) ==> sorted@ + rest@ =~= orig);
    }
    assert(rest@ == Seq::<ChatMessage>::empty());
    assert(sorted@.to_multiset().add(Seq::<ChatMessage>::empty().to_multiset()) =~= sorted@.to_multiset());
    sorted
}

/// Renders messages as replay lines, one per message, in the given order.
pub fn replay_lines(msgs: &Vec<ChatMessage>) -> (r: Vec<String>)
    ensures
        lines_of(r@) == replay_text(msgs@),
{
    let mut out: Vec<String> = Vec::new();
    let mut i: usize = 0;
    while i < msgs.len()
        invariant
            i <= msgs@.len(),
            lines_of(out@) == replay_text(msgs@.take(i as int)),
        decreases msgs@.len() - i,
    {
        let line = message_to_line(&msgs[i]);
        let ghost prev = out@;
        out.push(line);
        assert(msgs@.take(i + 1) == msgs@.take(i as int).push(msgs@[i as int]));
        assert(lines_of(out@) =~= lines_of(prev).push(line@));
        assert(replay_text(msgs@.take(i + 1)) =~= replay_text(msgs@.take(i as int)).push(
            message_line(msgs@[i as int]),
        ));
        i = i + 1;
    }
    assert(msgs@.take(i as int) == msgs@);
    out
}

/// History as a joining client receives it: the loaded messages in
/// creation order, rendered; a failed load yields no lines.
pub fn history_for_replay<E>(loaded: Result<Vec<ChatMessage>, E>) -> (r: Vec<String>)
    ensures
        match loaded {
            Ok(msgs) => exists|s: Seq<ChatMessage>|
                #![trigger replay_text(s)]
                in_creation_order(s) && s.to_multiset() == msgs@.to_multiset()
                    && lines_of(r@) == replay_text(s) && (in_creation_order(msgs@) ==> s
                    == msgs@),
            Err(_) => r@.len() == 0,
        },
{
    match loaded {
        Ok(msgs) => {
            let ordered = order_history(msgs);
            replay_lines(&ordered)
        },
        Err(_) => Vec::new(),
    }
}

} // verus!
