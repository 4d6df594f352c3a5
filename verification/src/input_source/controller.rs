use super::event::LocalInputEvent;
use crate::transport::protocol::{InputEvent, KeyCode};
use std::collections::VecDeque;
use vstd::prelude::*;

verus! {

/// Events older than this (in nanoseconds), measured from the newest event,
/// are dropped from the event buffer.
pub const OUTDATED_AFTER_NANOS: u64 = 300_000_000;

/// `t` is at most [`OUTDATED_AFTER_NANOS`] older than `newest`.
pub open spec fn is_recent(newest: u64, t: u64) -> bool {
    newest - t <= OUTDATED_AFTER_NANOS
}

/// The entries are ordered from the newest to the oldest.
pub open spec fn is_newest_first(s: Seq<(LocalInputEvent, u64)>) -> bool {
    forall|i: int, j: int| 0 <= i < j < s.len() ==> s[i].1 >= s[j].1
}

/// The entries of `s` that are recent with respect to `newest`, in order.
pub open spec fn recent_entries(s: Seq<(LocalInputEvent, u64)>, newest: u64) -> Seq<
    (LocalInputEvent, u64),
> {
    s.filter(|x: (LocalInputEvent, u64)| is_recent(newest, x.1))
}

/// Under [`is_newest_first`], the recent entries are a prefix.
proof fn lemma_recent_entries_prefix(s: Seq<(LocalInputEvent, u64)>, newest: u64, k: int)
    requires
        0 <= k <= s.len(),
        forall|i: int| 0 <= i < k ==> is_recent(newest, #[trigger] s[i].1),
        forall|i: int| k <= i < s.len() ==> !is_recent(newest, #[trigger] s[i].1),
    ensures
        recent_entries(s, newest) == s.take(k),
    decreases s.len(),
{
    reveal(Seq::filter);
    if s.len() == 0 {
        assert(s.take(k) =~= s);
    } else {
        let t = s.drop_last();
        if k == s.len() {
            lemma_recent_entries_prefix(t, newest, k - 1);
            assert(t.take(k - 1) =~= t);
            assert(s.take(k) =~= s);
            assert(t.push(s.last()) =~= s);
        } else {
            lemma_recent_entries_prefix(t, newest, k);
            assert(t.take(k) =~= s.take(k));
        }
    }
}

/// A buffer of recent local input events, newest first, with the time at
/// which each was observed.
#[derive(Debug)]
pub struct EventBuffer {
    buf: Vec<(LocalInputEvent, u64)>,
}

impl View for EventBuffer {
    type V = Seq<(LocalInputEvent, u64)>;

    closed spec fn view(&self) -> Self::V {
        self.buf@
    }
}

impl Default for EventBuffer {
    fn default() -> (r: Self)
        ensures
            r@ == Seq::<(LocalInputEvent, u64)>::empty(),
    {
        EventBuffer { buf: Vec::new() }
    }
}

impl EventBuffer {
    /// `time` may be pushed: it is not older than the newest buffered event.
    pub open spec fn accepts(&self, time: u64) -> bool {
        self@.len() > 0 ==> self@[0].1 <= time
    }

    /// Number of leading entries that are recent with respect to `time`.
    fn partition_point_recent(&self, time: u64) -> (k: usize)
        requires
            is_newest_first(self@),
        ensures
            k <= self@.len(),
            forall|i: int| 0 <= i < k ==> is_recent(time, #[trigger] self@[i].1),
            forall|i: int| k <= i < self@.len() ==> !is_recent(time, #[trigger] self@[i].1),
    {
        let mut lo: usize = 0;
        let mut hi: usize = self.buf.len();
        while lo < hi
            invariant
                lo <= hi <= self@.len(),
                is_newest_first(self@),
                forall|i: int| 0 <= i < lo ==> is_recent(time, #[trigger] self@[i].1),
                forall|i: int| hi <= i < self@.len() ==> !is_recent(time, #[trigger] self@[i].1),
            decreases hi - lo,
        {
            let mid = lo + (hi - lo) / 2;
            let t = self.buf[mid].1;
            if t >= time || time - t <= OUTDATED_AFTER_NANOS {
                assert forall|i: int| 0 <= i < mid + 1 implies is_recent(
                    time,
                    #[trigger] self@[i].1,
                ) by {
                    if i < mid {
                        assert(self@[i].1 >= self@[mid as int].1);
                    }
                }
                lo = mid + 1;
            } else {
                assert forall|i: int| mid <= i < self@.len() implies !is_recent(
                    time,
                    #[trigger] self@[i].1,
                ) by {
                    if i > mid {
                        assert(self@[mid as int].1 >= self@[i].1);
                    }
                }
                hi = mid;
            }
        }
        lo
    }

    /// Add event to buffer and drop outdated events.
    ///
    /// Outdated events are events older than 300 milliseconds from the newest
    /// event.
    pub fn push_input_event(&mut self, event: LocalInputEvent, time: u64)
        requires
            is_newest_first(old(self)@),
            old(self).accepts(time),
        ensures
            is_newest_first(final(self)@),
            final(self)@ == seq![(event, time)] + recent_entries(old(self)@, time),
    {
        let part = self.partition_point_recent(time);
        proof {
            lemma_recent_entries_prefix(self@, time, part as int);
        }
        self.buf.truncate(part);
        self.buf.insert(0, (event, time));
        assert(self@ =~= seq![(event, time)] + recent_entries(old(self)@, time));
    }

    /// Drop every buffered event.
    pub fn clear(&mut self)
        ensures
            final(self)@ == Seq::<(LocalInputEvent, u64)>::empty(),
    {
        self.buf.clear()
    }

    /// Timestamp of the newest buffered event, if any.
    pub fn newest_time(&self) -> (r: Option<u64>)
        ensures
            r == (if self@.len() > 0 {
                Some(self@[0].1)
            } else {
                None::<u64>
            }),
    {
        if self.buf.len() > 0 {
            Some(self.buf[0].1)
        } else {
            None
        }
    }
}

/// A key that went down or up at `order_key`.
#[derive(Clone, Copy, PartialEq, Eq, Debug, Structural)]
pub struct KeyPress {
    pub key: KeyCode,
    pub order_key: u64,
}

/// A key-down or key-up event.
#[derive(Clone, Copy, PartialEq, Eq, Debug, Structural)]
pub enum KeyPressEvent {
    Down(KeyPress),
    Up(KeyPress),
}

impl KeyPressEvent {
    /// The key press event described by a buffer entry, if it describes one.
    pub open spec fn of_entry(entry: (LocalInputEvent, u64)) -> Option<KeyPressEvent> {
        match entry.0 {
            LocalInputEvent::KeyDown { key } => Some(
                KeyPressEvent::Down(KeyPress { key, order_key: entry.1 }),
            ),
            LocalInputEvent::KeyUp { key } => Some(
                KeyPressEvent::Up(KeyPress { key, order_key: entry.1 }),
            ),
            _ => None,
        }
    }

    pub open spec fn order_key(self) -> u64 {
        match self {
            KeyPressEvent::Down(x) => x.order_key,
            KeyPressEvent::Up(x) => x.order_key,
        }
    }

    pub fn from_local_input_event(event: &LocalInputEvent, order_key: &u64) -> (r: Option<Self>)
        ensures
            r == Self::of_entry((*event, *order_key)),
    {
        match event {
            LocalInputEvent::KeyDown { key } => Some(
                KeyPressEvent::Down(KeyPress { key: *key, order_key: *order_key }),
            ),
            LocalInputEvent::KeyUp { key } => Some(
                KeyPressEvent::Up(KeyPress { key: *key, order_key: *order_key }),
            ),
            _ => None,
        }
    }
}

/// The key press events of a buffer (newest first), oldest first.
#[verifier::opaque]
pub open spec fn key_events(buf: Seq<(LocalInputEvent, u64)>) -> Seq<KeyPressEvent> {
    buf.reverse().filter_map(|x: (LocalInputEvent, u64)| KeyPressEvent::of_entry(x))
}

/// `e` happened strictly after `since`, or there is no `since`.
pub open spec fn is_after(since: Option<u64>, e: KeyPressEvent) -> bool {
    match since {
        Some(s) => e.order_key() > s,
        None => true,
    }
}

/// The events that happened strictly after `since`, in order.
pub open spec fn events_after(events: Seq<KeyPressEvent>, since: Option<u64>) -> Seq<
    KeyPressEvent,
> {
    events.filter(|e: KeyPressEvent| is_after(since, e))
}

/// `e` is a key-up event of `key`.
pub open spec fn is_up_of(e: KeyPressEvent, key: KeyCode) -> bool {
    match e {
        KeyPressEvent::Up(x) => x.key == key,
        KeyPressEvent::Down(_) => false,
    }
}

/// The first key-down event of `s`, and what follows it; the events before it
/// are discarded.
pub open spec fn find_down(s: Seq<KeyPressEvent>) -> (Option<KeyPress>, Seq<KeyPressEvent>)
    decreases s.len(),
{
    if s.len() == 0 {
        (None, s)
    } else {
        match s[0] {
            KeyPressEvent::Down(x) => (Some(x), s.drop_first()),
            KeyPressEvent::Up(_) => find_down(s.drop_first()),
        }
    }
}

/// The first key-up event of `key` in `s`, and `s` without it; `s` unchanged
/// when there is none.
pub open spec fn find_up(s: Seq<KeyPressEvent>, key: KeyCode) -> (Option<KeyPress>, Seq<
    KeyPressEvent,
>)
    decreases s.len(),
{
    if s.len() == 0 {
        (None, s)
    } else if is_up_of(s[0], key) {
        (Some(s[0]->Up_0), s.drop_first())
    } else {
        let (r, rest) = find_up(s.drop_first(), key);
        (r, seq![s[0]] + rest)
    }
}

/// The next complete key press of `s`: the first key-down event that has a
/// later key-up event of the same key, matched with the first such key-up.
/// Yields that key and the time it went up; the key-down events before it
/// that have no matching key-up (keys still held) are skipped.
pub open spec fn next_press(s: Seq<KeyPressEvent>) -> (Option<(KeyCode, u64)>, Seq<
    KeyPressEvent,
>)
    decreases s.len(),
{
    let (down, s1) = find_down(s);
    match down {
        None => (None, s1),
        Some(d) => {
            let (up, s2) = find_up(s1, d.key);
            match up {
                None => if s1.len() < s.len() {
                    next_press(s1)
                } else {
                    (None, s1)
                },
                Some(u) => (Some((u.key, u.order_key)), s2),
            }
        },
    }
}

/// Taking a key-down event shortens the events.
proof fn lemma_find_down_shortens(s: Seq<KeyPressEvent>)
    ensures
        find_down(s).1.len() <= s.len(),
        find_down(s).0 is Some ==> find_down(s).1.len() < s.len(),
    decreases s.len(),
{
    if s.len() > 0 {
        lemma_find_down_shortens(s.drop_first());
    }
}

/// Without a matching key-up event, the events are left as they are.
proof fn lemma_find_up_none(s: Seq<KeyPressEvent>, key: KeyCode)
    ensures
        find_up(s, key).0 is None ==> find_up(s, key).1 == s,
    decreases s.len(),
{
    if s.len() > 0 && !is_up_of(s[0], key) {
        lemma_find_up_none(s.drop_first(), key);
        assert(seq![s[0]] + s.drop_first() =~= s);
    }
}

/// The results of the first two [`next_press`] queries on `s`.
#[verifier::opaque]
pub open spec fn first_two_presses(s: Seq<KeyPressEvent>) -> (
    Option<(KeyCode, u64)>,
    Option<(KeyCode, u64)>,
) {
    let (a, s1) = next_press(s);
    let (b, _) = next_press(s1);
    (a, b)
}

proof fn lemma_reverse_push<A>(s: Seq<A>, x: A)
    ensures
        s.push(x).reverse() == seq![x] + s.reverse(),
{
    assert(s.push(x).reverse() =~= seq![x] + s.reverse());
}

proof fn lemma_reverse_prepend<A>(s: Seq<A>, x: A)
    ensures
        (seq![x] + s).reverse() == s.reverse().push(x),
{
    assert((seq![x] + s).reverse() =~= s.reverse().push(x));
}

proof fn lemma_reverse_concat<A>(a: Seq<A>, b: Seq<A>)
    ensures
        (a + b).reverse() == b.reverse() + a.reverse(),
{
    assert((a + b).reverse() =~= b.reverse() + a.reverse());
}

proof fn lemma_reverse_reverse<A>(a: Seq<A>)
    ensures
        a.reverse().reverse() == a,
{
    assert(a.reverse().reverse() =~= a);
}

proof fn lemma_skip_first<A>(s: Seq<A>, n: int)
    requires
        0 <= n < s.len(),
    ensures
        s.skip(n) == seq![s[n]] + s.skip(n + 1),
{
    assert(s.skip(n) =~= seq![s[n]] + s.skip(n + 1));
}

/// Iterator over the complete key presses of a sequence of key press events.
///
/// Events are taken from `events` starting at `next`; events that were taken
/// but are still waiting for a match are kept in `queue`, whose oldest event
/// is at the back.
pub struct RecentKeyPresses {
    events: Vec<KeyPressEvent>,
    next: usize,
    queue: VecDeque<KeyPressEvent>,
}

impl RecentKeyPresses {
    pub closed spec fn wf(&self) -> bool {
        self.next <= self.events@.len()
    }

    /// The events not yet consumed, oldest first.
    pub closed spec fn pending(&self) -> Seq<KeyPressEvent> {
        self.queue@.reverse() + self.events@.skip(self.next as int)
    }

    /// Iterates over the complete key presses of `events` (oldest first) that
    /// happened strictly after `since`.
    pub fn new(events: Vec<KeyPressEvent>, since: Option<u64>) -> (r: Self)
        ensures
            r.wf(),
            r.pending() == events_after(events@, since),
    {
        let mut kept: Vec<KeyPressEvent> = Vec::new();
        let mut j: usize = 0;
        while j < events.len()
            invariant
                j <= events@.len(),
                kept@ == events_after(events@.take(j as int), since),
            decreases events@.len() - j,
        {
            let e = events[j];
            let keep = match since {
                Some(s) => match e {
                    KeyPressEvent::Down(x) => x.order_key > s,
                    KeyPressEvent::Up(x) => x.order_key > s,
                },
                None => true,
            };
            if keep {
                kept.push(e);
            }
            proof {
                reveal(Seq::filter);
                let t = events@.take(j + 1);
                assert(t.drop_last() =~= events@.take(j as int));
                assert(t.last() == e);
            }
            j = j + 1;
        }
        assert(events@.take(j as int) =~= events@);
        let r = RecentKeyPresses { events: kept, next: 0, queue: VecDeque::new() };
        assert(r.pending() =~= kept@);
        r
    }

    /// Takes the first key-down event, discarding the events before it.
    fn find_key_down(&mut self) -> (r: Option<KeyPress>)
        requires
            old(self).wf(),
        ensures
            final(self).wf(),
            (r, final(self).pending()) == find_down(old(self).pending()),
    {
        let ghost target = find_down(self.pending());
        let mut key_down: Option<KeyPress> = None;
        // find key down from the queue
        loop
            invariant_except_break
                self.wf(),
                key_down is None,
                find_down(self.pending()) == target,
            ensures
                self.wf(),
                key_down is None ==> self.queue@.len() == 0 && find_down(self.pending())
                    == target,
                key_down is Some ==> (key_down, self.pending()) == target,
            decreases self.queue@.len(),
        {
            let ghost before = self.pending();
            let ghost q0 = self.queue@;
            match self.queue.pop_back() {
                Some(KeyPressEvent::Down(x)) => {
                    proof {
                        lemma_reverse_push(self.queue@, KeyPressEvent::Down(x));
                        assert(before.drop_first() =~= self.pending());
                    }
                    key_down = Some(x);
                    break ;
                },
                None => {
                    break ;
                },
                Some(e) => {
                    proof {
                        lemma_reverse_push(self.queue@, e);
                        assert(before.drop_first() =~= self.pending());
                    }
                },
            }
        }
        // if key down is not in the queue, find it in the events
        if key_down.is_none() {
            loop
                invariant_except_break
                    self.wf(),
                    key_down is None,
                    self.queue@.len() == 0,
                    find_down(self.pending()) == target,
                ensures
                    self.wf(),
                    (key_down, self.pending()) == target,
                decreases self.events@.len() - self.next,
            {
                assert(self.pending() =~= self.events@.skip(self.next as int));
                if self.next >= self.events.len() {
                    assert(self.pending().len() == 0);
                    break ;
                }
                let e = self.events[self.next];
                let ghost before = self.pending();
                proof {
                    lemma_skip_first(self.events@, self.next as int);
                }
                self.next = self.next + 1;
                assert(self.pending() =~= self.events@.skip(self.next as int));
                assert(before.drop_first() =~= self.pending());
                assert(before[0] == e);
                match e {
                    KeyPressEvent::Down(x) => {
                        key_down = Some(x);
                        break ;
                    },
                    KeyPressEvent::Up(_) => {},
                }
            }
        }
        key_down
    }

    /// Takes the first key-up event of `key`; the events before it stay in
    /// their order.
    fn find_key_up(&mut self, key: KeyCode) -> (r: Option<KeyPress>)
        requires
            old(self).wf(),
        ensures
            final(self).wf(),
            (r, final(self).pending()) == find_up(old(self).pending(), key),
    {
        let ghost target = find_up(self.pending(), key);
        let ghost events = self.events@;
        let ghost next = self.next;
        // find key up from the queue, collecting the other events
        let mut q: Vec<KeyPressEvent> = Vec::new();
        let mut key_up: Option<KeyPress> = None;
        assert(q@ + find_up(self.pending(), key).1 =~= find_up(self.pending(), key).1);
        loop
            invariant_except_break
                key_up is None,
                target == (find_up(self.pending(), key).0, q@ + find_up(self.pending(), key).1),
            invariant
                self.wf(),
                self.events@ == events,
                self.next == next,
                forall|i: int| 0 <= i < q@.len() ==> !is_up_of(#[trigger] q@[i], key),
            ensures
                key_up is None ==> self.queue@.len() == 0 && target == (
                    find_up(self.pending(), key).0,
                    q@ + find_up(self.pending(), key).1,
                ),
                key_up is Some ==> target == (key_up, q@ + self.pending()),
            decreases self.queue@.len(),
        {
            let ghost before = self.pending();
            let ghost q_before = q@;
            match self.queue.pop_back() {
                Some(KeyPressEvent::Up(x)) if x.key == key => {
                    proof {
                        lemma_reverse_push(self.queue@, KeyPressEvent::Up(x));
                        assert(before.drop_first() =~= self.pending());
                    }
                    key_up = Some(x);
                    break ;
                },
                None => {
                    break ;
                },
                Some(e) => {
                    proof {
                        lemma_reverse_push(self.queue@, e);
                        assert(before.drop_first() =~= self.pending());
                        assert(before[0] == e);
                    }
                    q.push(e);
                    proof {
                        assert(q_before + (seq![e] + find_up(self.pending(), key).1) =~= q@
                            + find_up(self.pending(), key).1);
                    }
                },
            }
        }
        // return the other events to the queue in the same order
        let ghost mid = self.queue@;
        let mut i = q.len();
        assert(q@.subrange(i as int, q@.len() as int).reverse() =~= Seq::<KeyPressEvent>::empty());
        assert(self.queue@ =~= mid + q@.subrange(i as int, q@.len() as int).reverse());
        while i > 0
            invariant
                i <= q@.len(),
                self.events@ == events,
                self.next == next,
                self.queue@ == mid + q@.subrange(i as int, q@.len() as int).reverse(),
            decreases i,
        {
            i = i - 1;
            let x = q[i];
            self.queue.push_back(x);
            proof {
                let s = q@.subrange(i + 1, q@.len() as int);
                assert(q@.subrange(i as int, q@.len() as int) =~= seq![x] + s);
                lemma_reverse_prepend(s, x);
            }
        }
        assert(q@.subrange(0, q@.len() as int) =~= q@);
        proof {
            lemma_reverse_concat(mid, q@.reverse());
            lemma_reverse_reverse(q@);
            assert(self.pending() =~= q@ + (mid.reverse() + self.events@.skip(self.next as int)));
        }
        // if key up is not in the queue, find it in the events
        if key_up.is_none() {
            proof {
                assert(mid.reverse() =~= Seq::<KeyPressEvent>::empty());
                assert(self.pending() =~= q@ + self.events@.skip(self.next as int));
            }
            loop
                invariant_except_break
                    self.wf(),
                    key_up is None,
                    forall|i: int|
                        0 <= i < self.queue@.reverse().len() ==> !is_up_of(
                            #[trigger] self.queue@.reverse()[i],
                            key,
                        ),
                    target == (
                        find_up(self.events@.skip(self.next as int), key).0,
                        self.queue@.reverse() + find_up(self.events@.skip(self.next as int), key).1,
                    ),
                ensures
                    self.wf(),
                    (key_up, self.pending()) == target,
                decreases self.events@.len() - self.next,
            {
                if self.next >= self.events.len() {
                    assert(self.events@.skip(self.next as int) =~= Seq::<KeyPressEvent>::empty());
                    assert(self.pending() =~= self.queue@.reverse());
                    break ;
                }
                let e = self.events[self.next];
                let ghost rq = self.queue@.reverse();
                proof {
                    lemma_skip_first(self.events@, self.next as int);
                }
                self.next = self.next + 1;
                let ghost rest = self.events@.skip(self.next as int);
                let ghost all = self.events@.skip(self.next - 1);
                assert(all.drop_first() =~= rest);
                assert(all[0] == e);
                match e {
                    KeyPressEvent::Up(x) if x.key == key => {
                        key_up = Some(x);
                        break ;
                    },
                    other => {
                        self.queue.push_front(other);
                        proof {
                            lemma_reverse_prepend(self.queue@.drop_first(), other);
                            assert(self.queue@.drop_first() =~= self.queue@.subrange(
                                1,
                                self.queue@.len() as int,
                            ));
                            assert(seq![other] + self.queue@.drop_first() =~= self.queue@);
                            assert(self.queue@.reverse() == rq.push(other));
                            assert(rq + (seq![other] + find_up(rest, key).1) =~= rq.push(other)
                                + find_up(rest, key).1);
                            assert forall|i: int|
                                0 <= i < self.queue@.reverse().len() implies !is_up_of(
                                #[trigger] self.queue@.reverse()[i],
                                key,
                            ) by {
                                if i < rq.len() {
                                    assert(self.queue@.reverse()[i] == rq[i]);
                                }
                            }
                        }
                    },
                }
            }
        }
        key_up
    }

    /// The next complete key press: the first key-down event with a later
    /// key-up event of the same key, skipping the keys still held. Yields its
    /// key and the time it went up.
    pub fn next(&mut self) -> (r: Option<(KeyCode, u64)>)
        requires
            old(self).wf(),
        ensures
            final(self).wf(),
            (r, final(self).pending()) == next_press(old(self).pending()),
    {
        let ghost target = next_press(self.pending());
        loop
            invariant
                self.wf(),
                next_press(self.pending()) == target,
                target == next_press(old(self).pending()),
            decreases self.pending().len(),
        {
            let ghost s = self.pending();
            proof {
                lemma_find_down_shortens(s);
            }
            // no key down left: this iterator is exhausted
            let key_down = match self.find_key_down() {
                Some(x) => x,
                None => return None,
            };
            let ghost s1 = self.pending();
            proof {
                lemma_find_up_none(s1, key_down.key);
            }
            match self.find_key_up(key_down.key) {
                Some(key_up) => return Some((key_up.key, key_up.order_key)),
                // the key is still held: skip its key down
                None => {},
            }
        }
    }
}

proof fn lemma_key_events_step(s: Seq<(LocalInputEvent, u64)>, i: int)
    requires
        0 <= i < s.len(),
    ensures
        key_events(s.skip(i)) == key_events(s.skip(i + 1)) + match KeyPressEvent::of_entry(s[i]) {
            Some(k) => seq![k],
            None => Seq::<KeyPressEvent>::empty(),
        },
{
    reveal(key_events);
    let a = s.skip(i + 1).reverse();
    lemma_skip_first(s, i);
    lemma_reverse_prepend(s.skip(i + 1), s[i]);
    let b = a.push(s[i]);
    assert(b.drop_last() =~= a);
    assert(b.last() == s[i]);
    match KeyPressEvent::of_entry(s[i]) {
        Some(k) => {},
        None => {
            assert(key_events(s.skip(i + 1)) + Seq::<KeyPressEvent>::empty() =~= key_events(
                s.skip(i + 1),
            ));
        },
    }
}

impl EventBuffer {
    /// Query recent pressed keys.
    ///
    /// Recent pressed keys are keys where its key up and key down events exist
    /// in the buffer (after `since`, when given).
    pub fn recent_pressed_keys(&self, since: Option<u64>) -> (r: RecentKeyPresses)
        ensures
            r.wf(),
            r.pending() == events_after(key_events(self@), since),
    {
        let mut events: Vec<KeyPressEvent> = Vec::new();
        let mut i = self.buf.len();
        proof {
            assert(self@.skip(i as int) =~= Seq::<(LocalInputEvent, u64)>::empty());
            lemma_key_events_empty();
            assert(events@ =~= key_events(self@.skip(i as int)));
        }
        while i > 0
            invariant
                i <= self@.len(),
                events@ == key_events(self@.skip(i as int)),
            decreases i,
        {
            i = i - 1;
            let entry = self.buf[i];
            let ghost before = events@;
            match KeyPressEvent::from_local_input_event(&entry.0, &entry.1) {
                Some(k) => events.push(k),
                None => {},
            }
            proof {
                lemma_key_events_step(self@, i as int);
                match KeyPressEvent::of_entry(self@[i as int]) {
                    Some(k) => {
                        assert(events@ =~= before + seq![k]);
                    },
                    None => {},
                }
            }
        }
        assert(self@.skip(0) =~= self@);
        RecentKeyPresses::new(events, since)
    }
}

/// Abstract state of an [`InputController`].
pub struct ControllerState {
    /// Buffered local input events, newest first, with their times.
    pub buffer: Seq<(LocalInputEvent, u64)>,
    /// Local input is captured and relayed to the client.
    pub relay: bool,
    /// Last time the relay flag was toggled.
    pub relay_toggled_at: Option<u64>,
}

/// The two first complete key presses are presses of the right ctrl key.
pub open spec fn is_double_tap(presses: (Option<(KeyCode, u64)>, Option<(KeyCode, u64)>)) -> bool {
    &&& presses.0 matches Some((k, _)) && k == KeyCode::RightCtrl
    &&& presses.1 matches Some((k, _)) && k == KeyCode::RightCtrl
}

impl ControllerState {
    pub open spec fn wf(self) -> bool {
        is_newest_first(self.buffer)
    }

    /// An event observed at `now` may be handed to the controller: it is not
    /// older than the newest buffered event.
    pub open spec fn accepts(self, now: u64) -> bool {
        self.buffer.len() > 0 ==> self.buffer[0].1 <= now
    }

    /// State after observing `event` at `now`, with the event to relay and
    /// whether input is captured from now on.
    ///
    /// The relay flag toggles when the first two complete key presses among
    /// the buffered events observed since the last toggle are presses of the
    /// right ctrl key.
    pub open spec fn on_input_event(self, event: LocalInputEvent, now: u64) -> (
        ControllerState,
        Option<InputEvent>,
        bool,
    ) {
        let buffer = seq![(event, now)] + recent_entries(self.buffer, now);
        let relayed = if self.relay {
            event.relayed()
        } else {
            None
        };
        let presses = first_two_presses(events_after(key_events(buffer), self.relay_toggled_at));
        if is_double_tap(presses) {
            (
                ControllerState {
                    buffer: Seq::empty(),
                    relay: !self.relay,
                    relay_toggled_at: Some(now),
                },
                relayed,
                !self.relay,
            )
        } else {
            (
                ControllerState { buffer, relay: self.relay, relay_toggled_at: self.relay_toggled_at },
                relayed,
                self.relay,
            )
        }
    }
}

/// Decides which local input events are relayed to the client, toggling
/// relaying when the right ctrl key is double tapped.
pub struct InputController {
    /// Buffer of local input events.
    event_buf: EventBuffer,
    /// If this is true input source should be consumed from its host and
    /// propagated to the input sink.
    relay: bool,
    /// Last time we detect inputs for toggling the relay flag.
    relay_toggled_at: Option<u64>,
}

impl View for InputController {
    type V = ControllerState;

    closed spec fn view(&self) -> ControllerState {
        ControllerState {
            buffer: self.event_buf@,
            relay: self.relay,
            relay_toggled_at: self.relay_toggled_at,
        }
    }
}

impl InputController {
    pub fn new() -> (r: Self)
        ensures
            r@.wf(),
            r@.buffer == Seq::<(LocalInputEvent, u64)>::empty(),
            !r@.relay,
            r@.relay_toggled_at is None,
    {
        InputController { event_buf: EventBuffer::default(), relay: false, relay_toggled_at: None }
    }

    /// `now` is not older than the newest buffered event.
    pub fn accepts_time(&self, now: u64) -> (b: bool)
        ensures
            b == self@.accepts(now),
    {
        match self.event_buf.newest_time() {
            Some(t) => t <= now,
            None => true,
        }
    }

    /// Handles a local input event observed at `now` (in nanoseconds of a
    /// monotonic clock).
    ///
    /// Returns the protocol event to relay to the client, if any, and whether
    /// the next successive inputs should be captured.
    pub fn on_input_event(&mut self, event: LocalInputEvent, now: u64) -> (r: (
        Option<InputEvent>,
        bool,
    ))
        requires
            old(self)@.wf(),
            old(self)@.accepts(now),
        ensures
            final(self)@.wf(),
            (final(self)@, r.0, r.1) == old(self)@.on_input_event(event, now),
    {
        self.event_buf.push_input_event(event, now);

        let relayed = if self.relay {
            event.into_input_event()
        } else {
            None
        };

        proof {
            reveal(first_two_presses);
        }
        let (most_recent, second_most) = {
            let mut keys = self.event_buf.recent_pressed_keys(self.relay_toggled_at);
            let first = keys.next();
            let second = keys.next();
            (first, second)
        };

        if let (Some((KeyCode::RightCtrl, _)), Some((KeyCode::RightCtrl, _))) = (
            most_recent,
            second_most,
        ) {
            let new_value = !self.relay;
            self.event_buf.clear();
            self.relay = new_value;
            self.relay_toggled_at = Some(now);
        }
        (relayed, self.relay)
    }
}

/// No key event of `b` happened after `since`.
pub open spec fn no_key_events_after(b: Seq<(LocalInputEvent, u64)>, since: Option<u64>) -> bool {
    forall|i: int|
        0 <= i < b.len() ==> match #[trigger] KeyPressEvent::of_entry(b[i]) {
            Some(e) => !is_after(since, e),
            None => true,
        }
}

proof fn lemma_key_events_prepend(x: (LocalInputEvent, u64), b: Seq<(LocalInputEvent, u64)>)
    ensures
        key_events(seq![x] + b) == key_events(b) + match KeyPressEvent::of_entry(x) {
            Some(k) => seq![k],
            None => Seq::<KeyPressEvent>::empty(),
        },
{
    reveal(key_events);
    lemma_reverse_prepend(b, x);
    let c = b.reverse().push(x);
    assert(c.drop_last() =~= b.reverse());
    assert(c.last() == x);
    match KeyPressEvent::of_entry(x) {
        Some(k) => {},
        None => {
            assert(key_events(b) + Seq::<KeyPressEvent>::empty() =~= key_events(b));
        },
    }
}

proof fn lemma_key_events_concat(a: Seq<(LocalInputEvent, u64)>, b: Seq<(LocalInputEvent, u64)>)
    ensures
        key_events(a + b) == key_events(b) + key_events(a),
    decreases a.len(),
{
    if a.len() == 0 {
        assert(a + b =~= b);
        assert(a =~= Seq::<(LocalInputEvent, u64)>::empty());
        lemma_key_events_empty();
        assert(key_events(b) + key_events(a) =~= key_events(b));
    } else {
        let t = a.drop_first();
        lemma_key_events_concat(t, b);
        assert(a + b =~= seq![a[0]] + (t + b));
        assert(a =~= seq![a[0]] + t);
        lemma_key_events_prepend(a[0], t + b);
        lemma_key_events_prepend(a[0], t);
        match KeyPressEvent::of_entry(a[0]) {
            Some(k) => {
                assert(key_events(b) + key_events(t) + seq![k] =~= key_events(b) + (key_events(t)
                    + seq![k]));
            },
            None => {
                assert(key_events(t) + Seq::<KeyPressEvent>::empty() =~= key_events(t));
                assert(key_events(t + b) + Seq::<KeyPressEvent>::empty() =~= key_events(t + b));
            },
        }
    }
}

/// Filtering a buffer keeps `no_key_events_after`.
proof fn lemma_recent_keeps_no_key_events_after(
    b: Seq<(LocalInputEvent, u64)>,
    now: u64,
    since: Option<u64>,
)
    requires
        no_key_events_after(b, since),
    ensures
        no_key_events_after(recent_entries(b, now), since),
{
    let r = recent_entries(b, now);
    assert forall|i: int| 0 <= i < r.len() implies match #[trigger] KeyPressEvent::of_entry(r[i]) {
        Some(e) => !is_after(since, e),
        None => true,
    } by {
        assert(r.contains(r[i]));
        b.lemma_filter_contains_rev(|x: (LocalInputEvent, u64)| is_recent(now, x.1), r[i]);
        let j = choose|j: int| 0 <= j < b.len() && b[j] == r[i];
        assert(KeyPressEvent::of_entry(b[j]) == KeyPressEvent::of_entry(r[i]));
    }
}

/// A buffer without key events after `since` contributes no pending events.
proof fn lemma_no_events_after(b: Seq<(LocalInputEvent, u64)>, since: Option<u64>)
    requires
        no_key_events_after(b, since),
    ensures
        events_after(key_events(b), since) == Seq::<KeyPressEvent>::empty(),
{
    reveal(key_events);
    let k = key_events(b);
    let fl = events_after(k, since);
    if fl.len() > 0 {
        let e = fl[0];
        let p = |e: KeyPressEvent| is_after(since, e);
        k.lemma_filter_pred(p, 0);
        assert(fl.contains(e));
        k.lemma_filter_contains_rev(p, e);
        let f = |x: (LocalInputEvent, u64)| KeyPressEvent::of_entry(x);
        b.reverse().lemma_filter_map_contains(f, e);
        let t = choose|t: (LocalInputEvent, u64)| #[trigger] b.reverse().contains(t) && f(t) == Some(
            e,
        );
        let j = choose|j: int| 0 <= j < b.reverse().len() && b.reverse()[j] == t;
        assert(b[b.len() - 1 - j] == t);
        assert(KeyPressEvent::of_entry(b[b.len() - 1 - j]) == Some(e));
        assert(false);
    }
    assert(fl =~= Seq::<KeyPressEvent>::empty());
}

proof fn lemma_filter_all<A>(s: Seq<A>, p: spec_fn(A) -> bool)
    requires
        forall|i: int| 0 <= i < s.len() ==> p(#[trigger] s[i]),
    ensures
        s.filter(p) == s,
    decreases s.len(),
{
    reveal(Seq::filter);
    if s.len() > 0 {
        lemma_filter_all(s.drop_last(), p);
        assert(s.drop_last().push(s.last()) =~= s);
    }
}

proof fn lemma_pending_of_taps(
    taps: Seq<(LocalInputEvent, u64)>,
    rest: Seq<(LocalInputEvent, u64)>,
    since: Option<u64>,
)
    requires
        no_key_events_after(rest, since),
        forall|i: int|
            0 <= i < key_events(taps).len() ==> is_after(since, #[trigger] key_events(taps)[i]),
    ensures
        events_after(key_events(taps + rest), since) == key_events(taps),
{
    let p = |e: KeyPressEvent| is_after(since, e);
    lemma_key_events_concat(taps, rest);
    Seq::filter_distributes_over_add(key_events(rest), key_events(taps), p);
    lemma_no_events_after(rest, since);
    lemma_filter_all(key_events(taps), p);
    assert(Seq::<KeyPressEvent>::empty() + key_events(taps) =~= key_events(taps));
}

proof fn lemma_recent_of_taps(
    taps: Seq<(LocalInputEvent, u64)>,
    rest: Seq<(LocalInputEvent, u64)>,
    now: u64,
)
    requires
        forall|i: int| 0 <= i < taps.len() ==> is_recent(now, #[trigger] taps[i].1),
    ensures
        recent_entries(taps + rest, now) == taps + recent_entries(rest, now),
{
    let p = |x: (LocalInputEvent, u64)| is_recent(now, x.1);
    Seq::filter_distributes_over_add(taps, rest, p);
    lemma_filter_all(taps, p);
}

proof fn lemma_key_events_empty()
    ensures
        key_events(Seq::<(LocalInputEvent, u64)>::empty()) == Seq::<KeyPressEvent>::empty(),
{
    reveal(key_events);
    assert(Seq::<(LocalInputEvent, u64)>::empty().reverse() =~= Seq::<
        (LocalInputEvent, u64),
    >::empty());
}

/// One observation of a key event `x` on a buffer made of recent `taps`
/// (newest first) followed by entries without key events since the last
/// toggle: the pending key events are exactly the key events of the taps.
proof fn lemma_tap_step(
    s: ControllerState,
    x: (LocalInputEvent, u64),
    taps: Seq<(LocalInputEvent, u64)>,
    rest: Seq<(LocalInputEvent, u64)>,
)
    requires
        s.buffer == taps + rest,
        no_key_events_after(rest, s.relay_toggled_at),
        forall|i: int| 0 <= i < taps.len() ==> is_recent(x.1, #[trigger] taps[i].1),
        forall|i: int|
            0 <= i < key_events(seq![x] + taps).len() ==> is_after(
                s.relay_toggled_at,
                #[trigger] key_events(seq![x] + taps)[i],
            ),
    ensures
        ({
            let buffer = seq![x] + recent_entries(s.buffer, x.1);
            &&& buffer == (seq![x] + taps) + recent_entries(rest, x.1)
            &&& events_after(key_events(buffer), s.relay_toggled_at) == key_events(seq![x] + taps)
            &&& no_key_events_after(recent_entries(rest, x.1), s.relay_toggled_at)
        }),
{
    lemma_recent_of_taps(taps, rest, x.1);
    lemma_recent_keeps_no_key_events_after(rest, x.1, s.relay_toggled_at);
    assert(seq![x] + (taps + recent_entries(rest, x.1)) =~= (seq![x] + taps) + recent_entries(
        rest,
        x.1,
    ));
    lemma_pending_of_taps(seq![x] + taps, recent_entries(rest, x.1), s.relay_toggled_at);
}

proof fn lemma_presses_of_taps(rc: KeyCode, t1: u64, t2: u64, t3: u64, t4: u64)
    requires
        rc == KeyCode::RightCtrl,
    ensures
        ({
            let kd1 = KeyPressEvent::Down(KeyPress { key: rc, order_key: t1 });
            let ku2 = KeyPressEvent::Up(KeyPress { key: rc, order_key: t2 });
            let kd3 = KeyPressEvent::Down(KeyPress { key: rc, order_key: t3 });
            let ku4 = KeyPressEvent::Up(KeyPress { key: rc, order_key: t4 });
            &&& !is_double_tap(first_two_presses(seq![kd1]))
            &&& !is_double_tap(first_two_presses(seq![kd1, ku2]))
            &&& !is_double_tap(first_two_presses(seq![kd1, ku2, kd3]))
            &&& is_double_tap(first_two_presses(seq![kd1, ku2, kd3, ku4]))
        }),
{
    let kd1 = KeyPressEvent::Down(KeyPress { key: rc, order_key: t1 });
    let ku2 = KeyPressEvent::Up(KeyPress { key: rc, order_key: t2 });
    let kd3 = KeyPressEvent::Down(KeyPress { key: rc, order_key: t3 });
    let ku4 = KeyPressEvent::Up(KeyPress { key: rc, order_key: t4 });
    let empty = Seq::<KeyPressEvent>::empty();
    reveal(first_two_presses);
    assert(seq![kd1].drop_first() =~= empty);
    assert(seq![kd1, ku2].drop_first() =~= seq![ku2]);
    assert(seq![ku2].drop_first() =~= empty);
    assert(seq![kd1, ku2, kd3].drop_first() =~= seq![ku2, kd3]);
    assert(seq![ku2, kd3].drop_first() =~= seq![kd3]);
    assert(seq![kd3].drop_first() =~= empty);
    assert(seq![kd1, ku2, kd3, ku4].drop_first() =~= seq![ku2, kd3, ku4]);
    assert(seq![ku2, kd3, ku4].drop_first() =~= seq![kd3, ku4]);
    assert(seq![kd3, ku4].drop_first() =~= seq![ku4]);
    assert(seq![ku4].drop_first() =~= empty);
    assert(find_down(seq![kd1]) == (Some(kd1->Down_0), empty));
    assert(find_up(empty, rc) == (None::<KeyPress>, empty));
    assert(next_press(seq![kd1]).0 is None);
    assert(find_up(seq![ku2], rc) == (Some(ku2->Up_0), empty));
    assert(next_press(seq![kd1, ku2]) == (Some((rc, t2)), empty));
    assert(find_down(empty).0 is None);
    assert(next_press(empty).0 is None);
    assert(find_up(seq![ku2, kd3], rc) == (Some(ku2->Up_0), seq![kd3]));
    assert(next_press(seq![kd1, ku2, kd3]) == (Some((rc, t2)), seq![kd3]));
    assert(find_down(seq![kd3]) == (Some(kd3->Down_0), empty));
    assert(next_press(seq![kd3]).0 is None);
    assert(find_up(seq![ku2, kd3, ku4], rc) == (Some(ku2->Up_0), seq![kd3, ku4]));
    assert(next_press(seq![kd1, ku2, kd3, ku4]) == (Some((rc, t2)), seq![kd3, ku4]));
    assert(find_down(seq![kd3, ku4]) == (Some(kd3->Down_0), seq![ku4]));
    assert(find_up(seq![ku4], rc) == (Some(ku4->Up_0), empty));
    assert(next_press(seq![kd3, ku4]).0 == Some((rc, t4)));
}

/// A key held down does not hide a double tap: when another key went down
/// before the taps and is still held, the first two complete key presses are
/// the two taps of the right ctrl key.
pub proof fn lemma_held_key_does_not_hide_double_tap(
    held: KeyCode,
    t0: u64,
    t1: u64,
    t2: u64,
    t3: u64,
    t4: u64,
)
    requires
        held != KeyCode::RightCtrl,
    ensures
        ({
            let rc = KeyCode::RightCtrl;
            let kd0 = KeyPressEvent::Down(KeyPress { key: held, order_key: t0 });
            let kd1 = KeyPressEvent::Down(KeyPress { key: rc, order_key: t1 });
            let ku2 = KeyPressEvent::Up(KeyPress { key: rc, order_key: t2 });
            let kd3 = KeyPressEvent::Down(KeyPress { key: rc, order_key: t3 });
            let ku4 = KeyPressEvent::Up(KeyPress { key: rc, order_key: t4 });
            first_two_presses(seq![kd0, kd1, ku2, kd3, ku4]) == (Some((rc, t2)), Some((rc, t4)))
        }),
{
    let rc = KeyCode::RightCtrl;
    let kd0 = KeyPressEvent::Down(KeyPress { key: held, order_key: t0 });
    let kd1 = KeyPressEvent::Down(KeyPress { key: rc, order_key: t1 });
    let ku2 = KeyPressEvent::Up(KeyPress { key: rc, order_key: t2 });
    let kd3 = KeyPressEvent::Down(KeyPress { key: rc, order_key: t3 });
    let ku4 = KeyPressEvent::Up(KeyPress { key: rc, order_key: t4 });
    let empty = Seq::<KeyPressEvent>::empty();
    reveal(first_two_presses);
    let all = seq![kd0, kd1, ku2, kd3, ku4];
    let s1 = seq![kd1, ku2, kd3, ku4];
    assert(all.drop_first() =~= s1);
    assert(s1.drop_first() =~= seq![ku2, kd3, ku4]);
    assert(seq![ku2, kd3, ku4].drop_first() =~= seq![kd3, ku4]);
    assert(seq![kd3, ku4].drop_first() =~= seq![ku4]);
    assert(seq![ku4].drop_first() =~= empty);
    // the held key has no key-up: it is skipped
    assert(find_up(empty, held) == (None::<KeyPress>, empty));
    assert(find_up(seq![ku4], held) == (None::<KeyPress>, seq![ku4]));
    assert(find_up(seq![kd3, ku4], held) == (None::<KeyPress>, seq![kd3, ku4]));
    assert(find_up(seq![ku2, kd3, ku4], held) == (None::<KeyPress>, seq![ku2, kd3, ku4]));
    assert(find_up(s1, held) == (None::<KeyPress>, s1));
    assert(find_down(all) == (Some(kd0->Down_0), s1));
    assert(find_down(s1) == (Some(kd1->Down_0), seq![ku2, kd3, ku4]));
    assert(find_up(seq![ku2, kd3, ku4], rc) == (Some(ku2->Up_0), seq![kd3, ku4]));
    assert(next_press(s1) == (Some((rc, t2)), seq![kd3, ku4]));
    assert(next_press(all) == next_press(s1));
    assert(find_down(seq![kd3, ku4]) == (Some(kd3->Down_0), seq![ku4]));
    assert(find_up(seq![ku4], rc) == (Some(ku4->Up_0), empty));
    assert(next_press(seq![kd3, ku4]).0 == Some((rc, t4)));
}

/// The double tap from a state whose buffer holds no key event since the
/// last toggle.
#[verifier::rlimit(40)]
proof fn lemma_double_tap_from_quiet(s: ControllerState, t1: u64, t2: u64, t3: u64, t4: u64)
    requires
        no_key_events_after(s.buffer, s.relay_toggled_at),
        s.relay_toggled_at matches Some(t) ==> t < t1,
        t1 <= t2 <= t3 <= t4,
        t4 - t1 <= OUTDATED_AFTER_NANOS,
    ensures
        ({
            let down = LocalInputEvent::KeyDown { key: KeyCode::RightCtrl };
            let up = LocalInputEvent::KeyUp { key: KeyCode::RightCtrl };
            let (s1, r1, c1) = s.on_input_event(down, t1);
            let (s2, r2, c2) = s1.on_input_event(up, t2);
            let (s3, r3, c3) = s2.on_input_event(down, t3);
            let (s4, r4, c4) = s3.on_input_event(up, t4);
            &&& c1 == s.relay && c2 == s.relay && c3 == s.relay
            &&& c4 == !s.relay
            &&& s4.relay == !s.relay
            &&& s4.relay_toggled_at == Some(t4)
            &&& s4.buffer.len() == 0
            &&& r1 == (if s.relay {
                Some(InputEvent::KeyDown { key: KeyCode::RightCtrl })
            } else {
                None
            })
            &&& r4 == (if s.relay {
                Some(InputEvent::KeyUp { key: KeyCode::RightCtrl })
            } else {
                None
            })
        }),
{
    let since = s.relay_toggled_at;
    let rc = KeyCode::RightCtrl;
    let down = LocalInputEvent::KeyDown { key: rc };
    let up = LocalInputEvent::KeyUp { key: rc };
    let d1 = (down, t1);
    let u2 = (up, t2);
    let d3 = (down, t3);
    let u4 = (up, t4);
    let kd1 = KeyPressEvent::Down(KeyPress { key: rc, order_key: t1 });
    let ku2 = KeyPressEvent::Up(KeyPress { key: rc, order_key: t2 });
    let kd3 = KeyPressEvent::Down(KeyPress { key: rc, order_key: t3 });
    let ku4 = KeyPressEvent::Up(KeyPress { key: rc, order_key: t4 });
    let e = Seq::<(LocalInputEvent, u64)>::empty();
    let t_1 = seq![d1];
    let t_2 = seq![u2] + t_1;
    let t_3 = seq![d3] + t_2;
    let t_4 = seq![u4] + t_3;
    lemma_key_events_empty();
    assert(t_1 =~= seq![d1] + e);
    lemma_key_events_prepend(d1, e);
    lemma_key_events_prepend(u2, t_1);
    lemma_key_events_prepend(d3, t_2);
    lemma_key_events_prepend(u4, t_3);
    assert(key_events(t_1) =~= seq![kd1]);
    assert(key_events(t_2) =~= seq![kd1, ku2]);
    assert(key_events(t_3) =~= seq![kd1, ku2, kd3]);
    assert(key_events(t_4) =~= seq![kd1, ku2, kd3, ku4]);
    lemma_presses_of_taps(rc, t1, t2, t3, t4);

    let o1 = recent_entries(s.buffer, t1);
    let o2 = recent_entries(o1, t2);
    let o3 = recent_entries(o2, t3);
    let (s1, r1, c1) = s.on_input_event(down, t1);
    assert(s.buffer =~= e + s.buffer);
    lemma_tap_step(s, d1, e, s.buffer);
    assert(seq![d1] + e =~= t_1);
    assert(s1.buffer == t_1 + o1);
    let (s2, r2, c2) = s1.on_input_event(up, t2);
    lemma_tap_step(s1, u2, t_1, o1);
    assert(s2.buffer == t_2 + o2);
    let (s3, r3, c3) = s2.on_input_event(down, t3);
    lemma_tap_step(s2, d3, t_2, o2);
    assert(s3.buffer == t_3 + o3);
    let (s4, r4, c4) = s3.on_input_event(up, t4);
    lemma_tap_step(s3, u4, t_3, o3);
}

/// Double tapping the right ctrl key toggles relaying: after a key-down,
/// key-up, key-down and key-up of the right ctrl key within 300 milliseconds,
/// the relay flag is flipped at the last key-up, and not before.
///
/// This holds from any state in which no key event since the last toggle is
/// still recent at the first tap: a new controller, one that has just
/// toggled, or one whose keys were typed more than 300 milliseconds before.
pub proof fn lemma_double_tap_toggles_relay(s: ControllerState, t1: u64, t2: u64, t3: u64, t4: u64)
    requires
        s.wf(),
        s.accepts(t1),
        no_key_events_after(recent_entries(s.buffer, t1), s.relay_toggled_at),
        s.relay_toggled_at matches Some(t) ==> t < t1,
        t1 <= t2 <= t3 <= t4,
        t4 - t1 <= OUTDATED_AFTER_NANOS,
    ensures
        ({
            let down = LocalInputEvent::KeyDown { key: KeyCode::RightCtrl };
            let up = LocalInputEvent::KeyUp { key: KeyCode::RightCtrl };
            let (s1, r1, c1) = s.on_input_event(down, t1);
            let (s2, r2, c2) = s1.on_input_event(up, t2);
            let (s3, r3, c3) = s2.on_input_event(down, t3);
            let (s4, r4, c4) = s3.on_input_event(up, t4);
            &&& c1 == s.relay && c2 == s.relay && c3 == s.relay
            &&& c4 == !s.relay
            &&& s4.relay == !s.relay
            &&& s4.relay_toggled_at == Some(t4)
            &&& s4.buffer.len() == 0
            &&& r1 == (if s.relay {
                Some(InputEvent::KeyDown { key: KeyCode::RightCtrl })
            } else {
                None
            })
            &&& r4 == (if s.relay {
                Some(InputEvent::KeyUp { key: KeyCode::RightCtrl })
            } else {
                None
            })
        }),
{
    // the entries that expire at the first tap play no part
    let p = |x: (LocalInputEvent, u64)| is_recent(t1, x.1);
    let kept = recent_entries(s.buffer, t1);
    s.buffer.filter_lemma(p);
    lemma_filter_all(kept, p);
    assert(recent_entries(kept, t1) == kept);
    let q = ControllerState {
        buffer: kept,
        relay: s.relay,
        relay_toggled_at: s.relay_toggled_at,
    };
    let down = LocalInputEvent::KeyDown { key: KeyCode::RightCtrl };
    assert(q.on_input_event(down, t1) == s.on_input_event(down, t1));
    lemma_double_tap_from_quiet(q, t1, t2, t3, t4);
}

/// Relaying toggles only on a double tap: when `on_input_event` flips the
/// relay flag, both of the first two complete key presses observed since the
/// last toggle are presses of the right ctrl key. A press of any other key
/// among them, such as a key tapped while right ctrl is held, leaves the
/// flag as it was.
pub proof fn lemma_toggle_needs_two_right_ctrl_presses(
    s: ControllerState,
    event: LocalInputEvent,
    now: u64,
)
    ensures
        ({
            let (s1, _, c) = s.on_input_event(event, now);
            let presses = first_two_presses(
                events_after(
                    key_events(seq![(event, now)] + recent_entries(s.buffer, now)),
                    s.relay_toggled_at,
                ),
            );
            (s1.relay != s.relay || c != s.relay) ==> ((presses.0 matches Some((k, _))
                && k == KeyCode::RightCtrl) && (presses.1 matches Some((j, _)) && j
                == KeyCode::RightCtrl))
        }),
{
}

/// The presses of a shortcut: right ctrl goes down, another key is tapped,
/// right ctrl goes up. Before right ctrl is released only the other key is a
/// complete press; then the presses are right ctrl's and the other key's.
proof fn lemma_presses_of_shortcut(k: KeyCode, t1: u64, t2: u64, t3: u64, t4: u64)
    requires
        k != KeyCode::RightCtrl,
    ensures
        ({
            let rc = KeyCode::RightCtrl;
            let d1 = KeyPressEvent::Down(KeyPress { key: rc, order_key: t1 });
            let d2 = KeyPressEvent::Down(KeyPress { key: k, order_key: t2 });
            let u3 = KeyPressEvent::Up(KeyPress { key: k, order_key: t3 });
            let u4 = KeyPressEvent::Up(KeyPress { key: rc, order_key: t4 });
            &&& first_two_presses(seq![d1]) == (None::<(KeyCode, u64)>, None::<(KeyCode, u64)>)
            &&& first_two_presses(seq![d1, d2]) == (None::<(KeyCode, u64)>, None::<(KeyCode, u64)>)
            &&& first_two_presses(seq![d1, d2, u3]) == (Some((k, t3)), None::<(KeyCode, u64)>)
            &&& first_two_presses(seq![d1, d2, u3, u4]) == (Some((rc, t4)), Some((k, t3)))
        }),
{
    let rc = KeyCode::RightCtrl;
    let d1 = KeyPressEvent::Down(KeyPress { key: rc, order_key: t1 });
    let d2 = KeyPressEvent::Down(KeyPress { key: k, order_key: t2 });
    let u3 = KeyPressEvent::Up(KeyPress { key: k, order_key: t3 });
    let u4 = KeyPressEvent::Up(KeyPress { key: rc, order_key: t4 });
    let empty = Seq::<KeyPressEvent>::empty();
    reveal(first_two_presses);
    assert(seq![d1].drop_first() =~= empty);
    assert(seq![d1, d2].drop_first() =~= seq![d2]);
    assert(seq![d2].drop_first() =~= empty);
    assert(seq![d1, d2, u3].drop_first() =~= seq![d2, u3]);
    assert(seq![d2, u3].drop_first() =~= seq![u3]);
    assert(seq![u3].drop_first() =~= empty);
    assert(seq![d1, d2, u3, u4].drop_first() =~= seq![d2, u3, u4]);
    assert(seq![d2, u3, u4].drop_first() =~= seq![u3, u4]);
    assert(seq![u3, u4].drop_first() =~= seq![u4]);
    assert(seq![u4].drop_first() =~= empty);
    // nothing left
    assert(find_down(empty) == (None::<KeyPress>, empty));
    assert(next_press(empty) == (None::<(KeyCode, u64)>, empty));
    // right ctrl alone: held
    assert(find_down(seq![d1]) == (Some(d1->Down_0), empty));
    assert(find_up(empty, rc) == (None::<KeyPress>, empty));
    assert(next_press(seq![d1]) == (None::<(KeyCode, u64)>, empty));
    // right ctrl and the other key, both held
    assert(find_down(seq![d2]) == (Some(d2->Down_0), empty));
    assert(find_up(empty, k) == (None::<KeyPress>, empty));
    assert(next_press(seq![d2]) == (None::<(KeyCode, u64)>, empty));
    assert(find_up(seq![d2], rc) == (None::<KeyPress>, seq![d2]));
    assert(find_down(seq![d1, d2]) == (Some(d1->Down_0), seq![d2]));
    assert(next_press(seq![d1, d2]) == (None::<(KeyCode, u64)>, empty));
    // the other key tapped, right ctrl still held
    assert(find_up(seq![u3], k) == (Some(u3->Up_0), empty));
    assert(find_down(seq![d2, u3]) == (Some(d2->Down_0), seq![u3]));
    assert(next_press(seq![d2, u3]) == (Some((k, t3)), empty));
    assert(find_up(seq![u3], rc) == (None::<KeyPress>, seq![u3]));
    assert(find_up(seq![d2, u3], rc) == (None::<KeyPress>, seq![d2, u3]));
    assert(find_down(seq![d1, d2, u3]) == (Some(d1->Down_0), seq![d2, u3]));
    assert(next_press(seq![d1, d2, u3]) == (Some((k, t3)), empty));
    // right ctrl released
    assert(find_up(seq![u4], rc) == (Some(u4->Up_0), empty));
    assert(find_up(seq![u3, u4], rc) == (Some(u4->Up_0), seq![u3]));
    assert(find_up(seq![d2, u3, u4], rc) == (Some(u4->Up_0), seq![d2, u3]));
    assert(find_down(seq![d1, d2, u3, u4]) == (Some(d1->Down_0), seq![d2, u3, u4]));
    assert(next_press(seq![d1, d2, u3, u4]) == (Some((rc, t4)), seq![d2, u3]));
}

#[verifier::rlimit(40)]
proof fn lemma_shortcut_from_quiet(s: ControllerState, k: KeyCode, t1: u64, t2: u64, t3: u64, t4: u64)
    requires
        k != KeyCode::RightCtrl,
        no_key_events_after(s.buffer, s.relay_toggled_at),
        s.relay_toggled_at matches Some(t) ==> t < t1,
        t1 <= t2 <= t3 <= t4,
        t4 - t1 <= OUTDATED_AFTER_NANOS,
    ensures
        ({
            let rc = KeyCode::RightCtrl;
            let (s1, r1, c1) = s.on_input_event(LocalInputEvent::KeyDown { key: rc }, t1);
            let (s2, r2, c2) = s1.on_input_event(LocalInputEvent::KeyDown { key: k }, t2);
            let (s3, r3, c3) = s2.on_input_event(LocalInputEvent::KeyUp { key: k }, t3);
            let (s4, r4, c4) = s3.on_input_event(LocalInputEvent::KeyUp { key: rc }, t4);
            &&& c1 == s.relay && c2 == s.relay && c3 == s.relay && c4 == s.relay
            &&& s4.relay == s.relay
            &&& s4.relay_toggled_at == s.relay_toggled_at
        }),
{
    let rc = KeyCode::RightCtrl;
    let x1 = (LocalInputEvent::KeyDown { key: rc }, t1);
    let x2 = (LocalInputEvent::KeyDown { key: k }, t2);
    let x3 = (LocalInputEvent::KeyUp { key: k }, t3);
    let x4 = (LocalInputEvent::KeyUp { key: rc }, t4);
    let d1 = KeyPressEvent::Down(KeyPress { key: rc, order_key: t1 });
    let d2 = KeyPressEvent::Down(KeyPress { key: k, order_key: t2 });
    let u3 = KeyPressEvent::Up(KeyPress { key: k, order_key: t3 });
    let u4 = KeyPressEvent::Up(KeyPress { key: rc, order_key: t4 });
    let e = Seq::<(LocalInputEvent, u64)>::empty();
    let t_1 = seq![x1];
    let t_2 = seq![x2] + t_1;
    let t_3 = seq![x3] + t_2;
    let t_4 = seq![x4] + t_3;
    lemma_key_events_empty();
    assert(t_1 =~= seq![x1] + e);
    lemma_key_events_prepend(x1, e);
    lemma_key_events_prepend(x2, t_1);
    lemma_key_events_prepend(x3, t_2);
    lemma_key_events_prepend(x4, t_3);
    assert(key_events(t_1) =~= seq![d1]);
    assert(key_events(t_2) =~= seq![d1, d2]);
    assert(key_events(t_3) =~= seq![d1, d2, u3]);
    assert(key_events(t_4) =~= seq![d1, d2, u3, u4]);
    lemma_presses_of_shortcut(k, t1, t2, t3, t4);

    let o1 = recent_entries(s.buffer, t1);
    let o2 = recent_entries(o1, t2);
    let o3 = recent_entries(o2, t3);
    let (s1, r1, c1) = s.on_input_event(x1.0, t1);
    assert(s.buffer =~= e + s.buffer);
    lemma_tap_step(s, x1, e, s.buffer);
    assert(seq![x1] + e =~= t_1);
    assert(s1.buffer == t_1 + o1);
    let (s2, r2, c2) = s1.on_input_event(x2.0, t2);
    lemma_tap_step(s1, x2, t_1, o1);
    assert(s2.buffer == t_2 + o2);
    let (s3, r3, c3) = s2.on_input_event(x3.0, t3);
    lemma_tap_step(s2, x3, t_2, o2);
    assert(s3.buffer == t_3 + o3);
    let (s4, r4, c4) = s3.on_input_event(x4.0, t4);
    lemma_tap_step(s3, x4, t_3, o3);
}

/// A shortcut with the right ctrl key (right ctrl held while another key is
/// tapped, such as Ctrl+C) is no double tap: relaying stays as it was at
/// every step. This holds from the same states as
/// [`lemma_double_tap_toggles_relay`].
pub proof fn lemma_right_ctrl_shortcut_does_not_toggle(
    s: ControllerState,
    k: KeyCode,
    t1: u64,
    t2: u64,
    t3: u64,
    t4: u64,
)
    requires
        k != KeyCode::RightCtrl,
        s.wf(),
        s.accepts(t1),
        no_key_events_after(recent_entries(s.buffer, t1), s.relay_toggled_at),
        s.relay_toggled_at matches Some(t) ==> t < t1,
        t1 <= t2 <= t3 <= t4,
        t4 - t1 <= OUTDATED_AFTER_NANOS,
    ensures
        ({
            let rc = KeyCode::RightCtrl;
            let (s1, r1, c1) = s.on_input_event(LocalInputEvent::KeyDown { key: rc }, t1);
            let (s2, r2, c2) = s1.on_input_event(LocalInputEvent::KeyDown { key: k }, t2);
            let (s3, r3, c3) = s2.on_input_event(LocalInputEvent::KeyUp { key: k }, t3);
            let (s4, r4, c4) = s3.on_input_event(LocalInputEvent::KeyUp { key: rc }, t4);
            &&& c1 == s.relay && c2 == s.relay && c3 == s.relay && c4 == s.relay
            &&& s4.relay == s.relay
        }),
{
    let p = |x: (LocalInputEvent, u64)| is_recent(t1, x.1);
    let kept = recent_entries(s.buffer, t1);
    s.buffer.filter_lemma(p);
    lemma_filter_all(kept, p);
    assert(recent_entries(kept, t1) == kept);
    let q = ControllerState { buffer: kept, relay: s.relay, relay_toggled_at: s.relay_toggled_at };
    let down = LocalInputEvent::KeyDown { key: KeyCode::RightCtrl };
    assert(q.on_input_event(down, t1) == s.on_input_event(down, t1));
    lemma_shortcut_from_quiet(q, k, t1, t2, t3, t4);
}

} // verus!
