//! Gathering messages that arrive in a room in quick succession into one,
//! which is answered once no more has arrived for a while.
//!
//! The aggregator keeps at most one pending message per room. A message for a
//! room that has none becomes its pending message; a message for a room whose
//! pending message is text is appended to it on a new line, and the room's
//! waiting starts over. Pending messages whose waiting is over are taken out
//! to be answered.
use vstd::prelude::*;

use crate::text;

verus! {

/// How the aggregator waits.
#[derive(Debug, Clone, Copy, PartialEq, Eq)]
pub struct ConfigChatCompletionAggregator {
    /// How long, in seconds, a room's pending message waits for more.
    pub message_expiration_seconds: u64,
    /// How often, in seconds, pending messages are looked at.
    pub message_polling_interval_seconds: u64,
}

/// A message waiting to be answered.
pub struct PendingMessage<C> {
    /// The room it belongs to.
    pub room_key: String,
    /// Its text, when it is a text message.
    pub text: Option<String>,
    /// When it (or the last message appended to it) arrived, in milliseconds.
    pub received_at: u64,
    /// Whatever answering it needs, carried along.
    pub context: C,
}

/// A pending message as characters.
pub struct PendingView<C> {
    pub room_key: Seq<char>,
    pub text: Option<Seq<char>>,
    pub received_at: u64,
    pub context: C,
}

impl<C> PendingMessage<C> {
    /// The message as characters.
    pub open spec fn view_of(self) -> PendingView<C> {
        PendingView {
            room_key: self.room_key@,
            text: text::opt_view(self.text),
            received_at: self.received_at,
            context: self.context,
        }
    }
}

/// The pending messages as characters.
pub open spec fn views_of<C>(s: Seq<PendingMessage<C>>) -> Seq<PendingView<C>> {
    s.map_values(|m: PendingMessage<C>| m.view_of())
}

/// Whether no two pending messages belong to the same room.
pub open spec fn one_per_room<C>(s: Seq<PendingView<C>>) -> bool {
    forall|i: int, j: int|
        0 <= i < s.len() && 0 <= j < s.len() && i != j ==> #[trigger] s[i].room_key
            != #[trigger] s[j].room_key
}

/// The position of the room's pending message, if it has one.
pub open spec fn position_of<C>(s: Seq<PendingView<C>>, room_key: Seq<char>) -> Option<int> {
    if exists|i: int| 0 <= i < s.len() && s[i].room_key == room_key {
        Some(choose|i: int| 0 <= i < s.len() && s[i].room_key == room_key)
    } else {
        None
    }
}

/// The text of a pending message after `incoming` was appended to it.
pub open spec fn merged_text(existing: Seq<char>, incoming: Option<Seq<char>>) -> Seq<char> {
    match incoming {
        Some(t) => existing + "\n"@ + t,
        None => existing,
    }
}

/// The pending messages after a message for `room_key` arrived.
pub open spec fn after_arrival<C>(
    s: Seq<PendingView<C>>,
    room_key: Seq<char>,
    incoming: Option<Seq<char>>,
    now: u64,
    context: C,
) -> Seq<PendingView<C>> {
    match position_of(s, room_key) {
        None => s.push(PendingView { room_key, text: incoming, received_at: now, context }),
        Some(i) => match s[i].text {
            Some(existing) => s.update(
                i,
                PendingView {
                    room_key,
                    text: Some(merged_text(existing, incoming)),
                    received_at: now,
                    context: s[i].context,
                },
            ),
            None => s,
        },
    }
}

/// Whether a message received at `received_at` has waited longer than
/// `expiration_seconds` at the time `now` (both in milliseconds).
pub open spec fn is_expired(received_at: u64, now: u64, expiration_seconds: u64) -> bool {
    received_at + expiration_seconds * 1000 < now
}

/// The pending messages that have waited long enough, in order.
pub open spec fn expired_ones<C>(s: Seq<PendingView<C>>, now: u64, expiration_seconds: u64) -> Seq<
    PendingView<C>,
>
    decreases s.len(),
{
    if s.len() == 0 {
        Seq::empty()
    } else if is_expired(s.last().received_at, now, expiration_seconds) {
        expired_ones(s.drop_last(), now, expiration_seconds).push(s.last())
    } else {
        expired_ones(s.drop_last(), now, expiration_seconds)
    }
}

/// The pending messages that keep waiting, in order.
pub open spec fn waiting_ones<C>(s: Seq<PendingView<C>>, now: u64, expiration_seconds: u64) -> Seq<
    PendingView<C>,
>
    decreases s.len(),
{
    if s.len() == 0 {
        Seq::empty()
    } else if is_expired(s.last().received_at, now, expiration_seconds) {
        waiting_ones(s.drop_last(), now, expiration_seconds)
    } else {
        waiting_ones(s.drop_last(), now, expiration_seconds).push(s.last())
    }
}

/// Two text messages that arrive one after the other for a room with nothing
/// pending become one pending message: the first text, a line break, the
/// second text, received when the second arrived, carrying the first
/// message's context.
pub proof fn lemma_arrivals_merge<C>(
    s: Seq<PendingView<C>>,
    room_key: Seq<char>,
    first: Seq<char>,
    second: Seq<char>,
    first_at: u64,
    second_at: u64,
    first_context: C,
    second_context: C,
)
    requires
        position_of(s, room_key) is None,
    ensures
        after_arrival(
            after_arrival(s, room_key, Some(first), first_at, first_context),
            room_key,
            Some(second),
            second_at,
            second_context,
        ) == s.push(
            PendingView {
                room_key,
                text: Some(first + "\n"@ + second),
                received_at: second_at,
                context: first_context,
            },
        ),
{
    let s1 = after_arrival(s, room_key, Some(first), first_at, first_context);
    let n = s.len() as int;
    assert(s1 == s.push(
        PendingView { room_key, text: Some(first), received_at: first_at, context: first_context },
    ));
    assert(s1[n].room_key == room_key);
    let i = choose|i: int| 0 <= i < s1.len() && s1[i].room_key == room_key;
    if i != n {
        assert(s1[i] == s[i]);
    }
    assert(position_of(s1, room_key) == Some(n));
    assert(after_arrival(s1, room_key, Some(second), second_at, second_context) =~= s.push(
        PendingView {
            room_key,
            text: Some(first + "\n"@ + second),
            received_at: second_at,
            context: first_context,
        },
    ));
}

/// Taking out expired messages splits the pending ones in two: each of them is
/// either taken out, when it has waited long enough, or keeps waiting, when
/// it has not; none is lost and none appears twice.
pub proof fn lemma_expiry_splits<C>(s: Seq<PendingView<C>>, now: u64, expiration_seconds: u64)
    ensures
        expired_ones(s, now, expiration_seconds).len() + waiting_ones(s, now, expiration_seconds).len()
            == s.len(),
        forall|j: int|
            0 <= j < expired_ones(s, now, expiration_seconds).len() ==> is_expired(
                #[trigger] expired_ones(s, now, expiration_seconds)[j].received_at,
                now,
                expiration_seconds,
            ),
        forall|j: int|
            0 <= j < waiting_ones(s, now, expiration_seconds).len() ==> !is_expired(
                #[trigger] waiting_ones(s, now, expiration_seconds)[j].received_at,
                now,
                expiration_seconds,
            ),
        forall|i: int|
            0 <= i < s.len() ==> (if is_expired(s[i].received_at, now, expiration_seconds) {
                expired_ones(s, now, expiration_seconds).contains(#[trigger] s[i])
            } else {
                waiting_ones(s, now, expiration_seconds).contains(s[i])
            }),
    decreases s.len(),
{
    if s.len() > 0 {
        let init = s.drop_last();
        lemma_expiry_splits(init, now, expiration_seconds);
        let e0 = expired_ones(init, now, expiration_seconds);
        let w0 = waiting_ones(init, now, expiration_seconds);
        let e = expired_ones(s, now, expiration_seconds);
        let w = waiting_ones(s, now, expiration_seconds);
        assert forall|i: int| 0 <= i < s.len() implies (if is_expired(
            s[i].received_at,
            now,
            expiration_seconds,
        ) {
            e.contains(#[trigger] s[i])
        } else {
            w.contains(s[i])
        }) by {
            if i < s.len() - 1 {
                assert(s[i] == init[i]);
                if is_expired(s[i].received_at, now, expiration_seconds) {
                    let k = choose|k: int| 0 <= k < e0.len() && e0[k] == init[i];
                    assert(e[k] == e0[k]);
                } else {
                    let k = choose|k: int| 0 <= k < w0.len() && w0[k] == init[i];
                    assert(w[k] == w0[k]);
                }
            } else {
                if is_expired(s[i].received_at, now, expiration_seconds) {
                    assert(e[e.len() - 1] == s[i]);
                } else {
                    assert(w[w.len() - 1] == s[i]);
                }
            }
        }
        assert forall|j: int| 0 <= j < e.len() implies is_expired(
            #[trigger] e[j].received_at,
            now,
            expiration_seconds,
        ) by {
            if j < e0.len() {
                assert(e[j] == e0[j]);
            }
        }
        assert forall|j: int| 0 <= j < w.len() implies !is_expired(
            #[trigger] w[j].received_at,
            now,
            expiration_seconds,
        ) by {
            if j < w0.len() {
                assert(w[j] == w0[j]);
            }
        }
    }
}

/// Messages waiting to be answered, at most one per room.
pub struct MessageAggregator<C> {
    messages: Vec<PendingMessage<C>>,
    config: ConfigChatCompletionAggregator,
}

impl<C> MessageAggregator<C> {
    /// The pending messages, in the order in which their rooms first got one.
    pub closed spec fn pending(&self) -> Seq<PendingView<C>> {
        views_of(self.messages@)
    }

    /// How the aggregator waits.
    pub closed spec fn settings(&self) -> ConfigChatCompletionAggregator {
        self.config
    }

    /// Every room has at most one pending message.
    pub open spec fn wf(&self) -> bool {
        one_per_room(self.pending())
    }

    /// An aggregator with nothing pending.
    pub fn new(config: ConfigChatCompletionAggregator) -> (r: Self)
        ensures
            r.wf(),
            r.pending() == Seq::<PendingView<C>>::empty(),
            r.settings() == config,
    {
        let r = MessageAggregator { messages: Vec::new(), config };
        assert(r.pending() =~= Seq::<PendingView<C>>::empty());
        r
    }

    /// How the aggregator waits.
    pub fn config(&self) -> (r: ConfigChatCompletionAggregator)
        ensures
            r == self.settings(),
    {
        self.config
    }

    fn find(&self, room_key: &str) -> (r: Option<usize>)
        requires
            self.wf(),
        ensures
            match r {
                Some(i) => i < self.messages@.len() && position_of(self.pending(), room_key@) == Some(
                    i as int,
                ),
                None => position_of(self.pending(), room_key@) is None,
            },
    {
        let ghost s = self.pending();
        let mut i: usize = 0;
        while i < self.messages.len()
            invariant
                s == self.pending(),
                one_per_room(s),
                s.len() == self.messages@.len(),
                i <= self.messages.len(),
                forall|j: int| 0 <= j < i ==> s[j].room_key != room_key@,
            decreases self.messages.len() - i,
        {
            if text::equals(self.messages[i].room_key.as_str(), room_key) {
                proof {
                    assert(s[i as int].room_key == room_key@);
                    let k = choose|k: int| 0 <= k < s.len() && s[k].room_key == room_key@;
                    if k != i {
                        assert(s[k].room_key != s[i as int].room_key);
                    }
                }
                return Some(i);
            }
            i = i + 1;
        }
        None
    }

    /// Takes in a message for the room `room_key` that arrived at `now`.
    pub fn handle(&mut self, room_key: String, incoming: Option<String>, now: u64, context: C)
        requires
            old(self).wf(),
        ensures
            final(self).wf(),
            final(self).settings() == old(self).settings(),
            final(self).pending() == after_arrival(
                old(self).pending(),
                room_key@,
                text::opt_view(incoming),
                now,
                context,
            ),
    {
        let ghost s = self.pending();
        let ghost incoming_view = text::opt_view(incoming);
        match self.find(room_key.as_str()) {
            None => {
                let m = PendingMessage { room_key, text: incoming, received_at: now, context };
                self.messages.push(m);
                proof {
                    let n = self.pending();
                    assert(n =~= s.push(m.view_of()));
                    assert forall|i: int, j: int|
                        0 <= i < n.len() && 0 <= j < n.len() && i != j implies #[trigger] n[i].room_key
                        != #[trigger] n[j].room_key by {
                        if i == s.len() {
                            assert(s[j].room_key != room_key@);
                        } else if j == s.len() {
                            assert(s[i].room_key != room_key@);
                        }
                    }
                }
            },
            Some(i) => {
                let existing_is_text = self.messages[i].text.is_some();
                if existing_is_text {
                    let old_message = self.messages.remove(i);
                    let mut payload = match old_message.text {
                        Some(t) => t,
                        None => String::new(),
                    };
                    match incoming {
                        Some(t) => {
                            payload.append("\n");
                            payload.append(t.as_str());
                        },
                        None => {},
                    }
                    let m = PendingMessage {
                        room_key,
                        text: Some(payload),
                        received_at: now,
                        context: old_message.context,
                    };
                    self.messages.insert(i, m);
                    proof {
                        let n = self.pending();
                        assert(n =~= s.update(i as int, m.view_of()));
                        assert(m.view_of().text == Some(
                            merged_text(s[i as int].text->0, incoming_view),
                        ));
                        assert forall|a: int, b: int|
                            0 <= a < n.len() && 0 <= b < n.len() && a != b implies #[trigger] n[a].room_key
                            != #[trigger] n[b].room_key by {
                            assert(n[a].room_key == s[a].room_key);
                            assert(n[b].room_key == s[b].room_key);
                        }
                    }
                }
            },
        }
    }

    /// Takes out the pending messages that have waited longer than the
    /// expiration at the time `now`, in order; the others keep waiting.
    pub fn take_expired(&mut self, now: u64) -> (r: Vec<PendingMessage<C>>)
        requires
            old(self).wf(),
        ensures
            final(self).wf(),
            final(self).settings() == old(self).settings(),
            views_of(r@) == expired_ones(
                old(self).pending(),
                now,
                old(self).settings().message_expiration_seconds,
            ),
            final(self).pending() == waiting_ones(
                old(self).pending(),
                now,
                old(self).settings().message_expiration_seconds,
            ),
    {
        let ghost s = self.pending();
        let expiration_seconds = self.config.message_expiration_seconds;
        let expiration = expiration_seconds.checked_mul(1000);
        let mut all: Vec<PendingMessage<C>> = Vec::new();
        std::mem::swap(&mut all, &mut self.messages);
        let n = all.len();
        let mut expired: Vec<PendingMessage<C>> = Vec::new();
        let mut waiting: Vec<PendingMessage<C>> = Vec::new();
        let mut i: usize = 0;
        while i < n
            invariant
                n == s.len(),
                i <= n,
                one_per_room(s),
                views_of(all@) == s.skip(i as int),
                views_of(expired@) == expired_ones(s.take(i as int), now, expiration_seconds),
                views_of(waiting@) == waiting_ones(s.take(i as int), now, expiration_seconds),
                forall|j: int| 0 <= j < waiting@.len() ==> exists|k: int| 0 <= k < i && (
                    #[trigger] views_of(waiting@)[j]).room_key == s[k].room_key,
                one_per_room(views_of(waiting@)),
                expiration == (if expiration_seconds * 1000 <= u64::MAX {
                    Some((expiration_seconds * 1000) as u64)
                } else {
                    None::<u64>
                }),
            decreases n - i,
        {
            let ghost before_all = all@;
            assert(views_of(all@).len() == all@.len());
            assert(all@.len() == n - i);
            let m = all.remove(0);
            proof {
                assert(views_of(before_all)[0] == before_all[0].view_of());
                assert(m.view_of() == views_of(before_all)[0]);
                assert forall|k: int| 0 <= k < all@.len() implies #[trigger] views_of(all@)[k] == s.skip(i + 1)[k] by {
                    assert(all@[k] == before_all[k + 1]);
                    assert(views_of(before_all)[k + 1] == before_all[k + 1].view_of());
                    assert(views_of(before_all)[k + 1] == s.skip(i as int)[k + 1]);
                }
                assert(views_of(all@) =~= s.skip(i + 1));
                assert(s.take(i + 1).drop_last() =~= s.take(i as int));
                assert(s.take(i + 1).last() == s[i as int]);
                assert(m.view_of() == s[i as int]);
            }
            let expired_now = match expiration {
                Some(e) => now > e && m.received_at < now - e,
                None => false,
            };
            if expired_now {
                let ghost before = expired@;
                expired.push(m);
                proof {
                    assert(views_of(expired@) =~= views_of(before).push(s[i as int]));
                }
            } else {
                let ghost before = waiting@;
                waiting.push(m);
                proof {
                    let w = views_of(waiting@);
                    assert(w =~= views_of(before).push(s[i as int]));
                    assert forall|j: int| 0 <= j < w.len() implies exists|k: int|
                        0 <= k < i + 1 && (#[trigger] w[j]).room_key == s[k].room_key by {
                        if j < views_of(before).len() {
                            assert(w[j] == views_of(before)[j]);
                        } else {
                            assert(w[j].room_key == s[i as int].room_key);
                        }
                    }
                    assert forall|a: int, b: int|
                        0 <= a < w.len() && 0 <= b < w.len() && a != b implies #[trigger] w[a].room_key
                        != #[trigger] w[b].room_key by {
                        if a == w.len() - 1 || b == w.len() - 1 {
                            let other = if a == w.len() - 1 {
                                b
                            } else {
                                a
                            };
                            assert(w[other] == views_of(before)[other]);
                            let k = choose|k: int|
                                0 <= k < i && (#[trigger] views_of(before)[other]).room_key
                                    == s[k].room_key;
                            assert(s[k].room_key != s[i as int].room_key);
                        } else {
                            assert(w[a] == views_of(before)[a]);
                            assert(w[b] == views_of(before)[b]);
                        }
                    }
                }
            }
            i = i + 1;
        }
        proof {
            assert(s.take(n as int) =~= s);
        }
        self.messages = waiting;
        expired
    }
}

} // verus!
