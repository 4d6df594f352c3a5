//! The server's decision to capture the user's inputs: a "bump" of the mouse
//! against the left edge of the screen.

pub mod event_producer;
pub mod input_listener;
pub mod protocol_server;

use crate::terong::server::input_listener::event::MousePosition;
use crate::terong::server::input_listener::Signal;
use std::collections::VecDeque;
use vstd::prelude::*;

verus! {

/// How long a mouse position stays in the buffer, in nanoseconds.
pub const EVENT_EXPIRY_NANOS: u64 = 200_000_000;

/// A position observed at time `t` is expired at time `now` when more than
/// [`EVENT_EXPIRY_NANOS`] separate them (a time after `now` is never
/// expired).
pub open spec fn is_expired(t: u64, now: u64) -> bool {
    now - t > EVENT_EXPIRY_NANOS
}

/// The buffer without its leading expired positions.
pub open spec fn drop_expired(buf: Seq<(MousePosition, u64)>, now: u64) -> Seq<(MousePosition, u64)>
    decreases buf.len(),
{
    if buf.len() > 0 && is_expired(buf[0].1, now) {
        drop_expired(buf.drop_first(), now)
    } else {
        buf
    }
}

/// The positions are sorted ascendingly by time.
pub open spec fn is_sorted_by_time(buf: Seq<(MousePosition, u64)>) -> bool {
    forall|i: int, j: int| 0 <= i <= j < buf.len() ==> #[trigger] buf[i].1 <= #[trigger] buf[j].1
}

/// The cursor was at the left edge (`x < 1`) and later away from it (`x > 1`).
pub open spec fn has_bump(buf: Seq<(MousePosition, u64)>) -> bool {
    exists|i: int, j: int|
        0 <= i < j < buf.len() && #[trigger] buf[i].0.x < 1 && #[trigger] buf[j].0.x > 1
}

/// One mouse position observed at `now`, from the capture flag and buffer
/// `(capture, buf)`: the expired positions are dropped; a bump in what is
/// left, with the cursor back at the left edge, turns capturing on (and
/// signals it) unless it is on already; the position is buffered. Yields
/// the new flag, the new buffer and the signal.
pub open spec fn mouse_step(
    capture: bool,
    buf: Seq<(MousePosition, u64)>,
    pos: MousePosition,
    now: u64,
) -> (bool, Seq<(MousePosition, u64)>, Option<Signal>) {
    let kept = drop_expired(buf, now);
    let bump = has_bump(kept) && pos.x < 1 && !capture;
    (capture || bump, kept.push((pos, now)), if bump {
        Some(Signal::SetShouldCapture(true))
    } else {
        None
    })
}

/// Number of signals sent while the positions `inputs` (each with its time)
/// are observed one after another.
pub open spec fn signals_sent(
    capture: bool,
    buf: Seq<(MousePosition, u64)>,
    inputs: Seq<(MousePosition, u64)>,
) -> nat
    decreases inputs.len(),
{
    if inputs.len() == 0 {
        0
    } else {
        let (c, b, sig) = mouse_step(capture, buf, inputs[0].0, inputs[0].1);
        (if sig is Some {
            1nat
        } else {
            0nat
        }) + signals_sent(c, b, inputs.drop_first())
    }
}

/// Capturing, once on, stays on: whatever positions follow, no signal is
/// sent again; from any state at most one signal is ever sent.
pub proof fn lemma_capture_signalled_at_most_once(
    capture: bool,
    buf: Seq<(MousePosition, u64)>,
    inputs: Seq<(MousePosition, u64)>,
)
    ensures
        signals_sent(capture, buf, inputs) <= 1,
        capture ==> signals_sent(capture, buf, inputs) == 0,
    decreases inputs.len(),
{
    if inputs.len() > 0 {
        let (c, b, sig) = mouse_step(capture, buf, inputs[0].0, inputs[0].1);
        lemma_capture_signalled_at_most_once(c, b, inputs.drop_first());
        assert(sig is Some ==> c);
    }
}

/// Dropping expired positions leaves a suffix of the buffer.
pub proof fn lemma_drop_expired_suffix(buf: Seq<(MousePosition, u64)>, now: u64) -> (k: int)
    ensures
        0 <= k <= buf.len(),
        drop_expired(buf, now) == buf.subrange(k, buf.len() as int),
    decreases buf.len(),
{
    if buf.len() > 0 && is_expired(buf[0].1, now) {
        let k1 = lemma_drop_expired_suffix(buf.drop_first(), now);
        assert(buf.drop_first().subrange(k1, buf.drop_first().len() as int) =~= buf.subrange(
            k1 + 1,
            buf.len() as int,
        ));
        k1 + 1
    } else {
        assert(buf.subrange(0, buf.len() as int) =~= buf);
        0
    }
}

/// In a buffer sorted by time, no position is left expired once the
/// expired ones are dropped.
pub proof fn lemma_drop_expired_leaves_recent(buf: Seq<(MousePosition, u64)>, now: u64)
    requires
        is_sorted_by_time(buf),
    ensures
        forall|i: int|
            0 <= i < drop_expired(buf, now).len() ==> !is_expired(
                #[trigger] drop_expired(buf, now)[i].1,
                now,
            ),
        is_sorted_by_time(drop_expired(buf, now)),
    decreases buf.len(),
{
    if buf.len() > 0 && is_expired(buf[0].1, now) {
        let rest = buf.drop_first();
        assert forall|i: int, j: int| 0 <= i <= j < rest.len() implies #[trigger] rest[i].1
            <= #[trigger] rest[j].1 by {
            assert(rest[i] == buf[i + 1]);
            assert(rest[j] == buf[j + 1]);
        }
        lemma_drop_expired_leaves_recent(rest, now);
    } else if buf.len() > 0 {
        assert forall|i: int| 0 <= i < buf.len() implies !is_expired(#[trigger] buf[i].1, now) by {
            assert(buf[0].1 <= buf[i].1);
        }
    }
}

/// Server state that decides when to capture the user's inputs.
#[derive(Debug)]
pub struct App {
    /// Whether the input listener should capture the user's inputs.
    ///
    /// The input listener still observes and forwards inputs either way.
    pub capture_input: bool,
    /// Recent mouse positions, each with the time (in nanoseconds) it was
    /// observed; sorted ascendingly by time.
    pub mouse_pos_buf: VecDeque<(MousePosition, u64)>,
}

impl App {
    /// The buffer is sorted ascendingly by time.
    pub open spec fn wf(&self) -> bool {
        is_sorted_by_time(self.mouse_pos_buf@)
    }

    /// `now` is not earlier than any buffered position.
    pub open spec fn accepts_time(&self, now: u64) -> bool {
        forall|i: int| 0 <= i < self.mouse_pos_buf@.len() ==> #[trigger] self.mouse_pos_buf@[i].1 <= now
    }

    pub fn new() -> (r: Self)
        ensures
            !r.capture_input,
            r.mouse_pos_buf@ == Seq::<(MousePosition, u64)>::empty(),
            r.wf(),
    {
        App { capture_input: false, mouse_pos_buf: VecDeque::new() }
    }

    /// Drops the expired positions from the front of the buffer.
    pub fn drop_expired_events(&mut self, now: u64)
        ensures
            final(self).mouse_pos_buf@ == drop_expired(old(self).mouse_pos_buf@, now),
            final(self).capture_input == old(self).capture_input,
    {
        let ghost target = drop_expired(self.mouse_pos_buf@, now);
        loop
            invariant
                drop_expired(self.mouse_pos_buf@, now) == target,
                self.capture_input == old(self).capture_input,
            ensures
                self.mouse_pos_buf@ == target,
                self.capture_input == old(self).capture_input,
            decreases self.mouse_pos_buf@.len(),
        {
            if self.mouse_pos_buf.len() == 0 {
                break ;
            }
            let t = self.mouse_pos_buf[0].1;
            if now > t && now - t > EVENT_EXPIRY_NANOS {
                let ghost before = self.mouse_pos_buf@;
                self.mouse_pos_buf.pop_front();
                assert(self.mouse_pos_buf@ =~= before.drop_first());
            } else {
                break ;
            }
        }
    }

    /// Whether the buffer holds a bump: the first position at the left edge
    /// is followed by one away from it.
    fn found_first_bump(&self) -> (found: bool)
        ensures
            found == has_bump(self.mouse_pos_buf@),
    {
        let n = self.mouse_pos_buf.len();
        let ghost buf = self.mouse_pos_buf@;
        let mut i: usize = 0;
        while i < n && self.mouse_pos_buf[i].0.x >= 1
            invariant
                i <= n,
                n == buf.len(),
                buf == self.mouse_pos_buf@,
                forall|k: int| 0 <= k < i ==> #[trigger] buf[k].0.x >= 1,
            decreases n - i,
        {
            i = i + 1;
        }
        if i >= n {
            assert(!has_bump(buf)) by {
                if has_bump(buf) {
                    let (a, b) = choose|a: int, b: int|
                        0 <= a < b < buf.len() && #[trigger] buf[a].0.x < 1 && #[trigger] buf[b].0.x
                            > 1;
                    assert(buf[a].0.x >= 1);
                }
            }
            return false;
        }
        let mut j: usize = i + 1;
        while j < n
            invariant
                i < n,
                i < j <= n,
                n == buf.len(),
                buf == self.mouse_pos_buf@,
                buf[i as int].0.x < 1,
                forall|k: int| 0 <= k < i ==> #[trigger] buf[k].0.x >= 1,
                forall|k: int| i < k < j ==> #[trigger] buf[k].0.x <= 1,
            decreases n - j,
        {
            if self.mouse_pos_buf[j].0.x > 1 {
                assert(buf[i as int].0.x < 1 && buf[j as int].0.x > 1);
                return true;
            }
            j = j + 1;
        }
        assert(!has_bump(buf)) by {
            if has_bump(buf) {
                let (a, b) = choose|a: int, b: int|
                    0 <= a < b < buf.len() && #[trigger] buf[a].0.x < 1 && #[trigger] buf[b].0.x > 1;
                assert(buf[a].0.x < 1);
                assert(a >= i);
                assert(buf[b].0.x <= 1);
            }
        }
        false
    }

    /// Handles a new mouse position observed at `now`: drops the expired
    /// positions, starts capturing the user's inputs (and tells the input
    /// listener so) when the cursor bumps against the left edge of the
    /// screen, then buffers the position.
    pub fn on_mouse_position(&mut self, pos: MousePosition, now: u64) -> (signal: Option<Signal>)
        ensures
            (final(self).capture_input, final(self).mouse_pos_buf@, signal) == mouse_step(
                old(self).capture_input,
                old(self).mouse_pos_buf@,
                pos,
                now,
            ),
            old(self).wf() && old(self).accepts_time(now) ==> final(self).wf(),
    {
        let ghost old_buf = self.mouse_pos_buf@;
        self.drop_expired_events(now);
        proof {
            if is_sorted_by_time(old_buf) {
                lemma_drop_expired_leaves_recent(old_buf, now);
            }
            let k = lemma_drop_expired_suffix(old_buf, now);
            assert forall|i: int| 0 <= i < self.mouse_pos_buf@.len() implies #[trigger] self.mouse_pos_buf@[i]
                == old_buf[i + k] by {}
        }
        let found = self.found_first_bump();
        let mut signal: Option<Signal> = None;
        if found && pos.x < 1 {
            if !self.capture_input {
                self.capture_input = true;
                signal = Some(Signal::SetShouldCapture(true));
            }
        }
        self.mouse_pos_buf.push_back((pos, now));
        signal
    }
}

} // verus!
