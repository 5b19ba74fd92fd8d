//! The debounce scheduler: a model of the pending free-text query and its
//! deadline, and what a burst of keystrokes leads to.

use vstd::prelude::*;
use crate::text::{is_blank, trimmed};

verus! {

/// Quiet time, in milliseconds, that a query must see before it is sent.
pub const SEARCH_DEBOUNCE_MS: u64 = 280;

/// `now + SEARCH_DEBOUNCE_MS`, held at `u64::MAX` where it would not fit.
pub open spec fn deadline_after(now: u64) -> u64 {
    if now as int + SEARCH_DEBOUNCE_MS as int <= u64::MAX as int {
        (now + SEARCH_DEBOUNCE_MS) as u64
    } else {
        u64::MAX
    }
}

/// The scheduler's state: the query waiting to be sent and when it is due.
pub struct DebounceView {
    pub pending: Option<Seq<char>>,
    pub deadline: Option<u64>,
}

/// Nothing waits.
pub open spec fn idle() -> DebounceView {
    DebounceView { pending: None, deadline: None }
}

/// A query landed at `now`: a non-blank one replaces whatever waited and is
/// due one interval later; a blank one leaves nothing waiting.
pub open spec fn armed(text: Seq<char>, now: u64) -> DebounceView {
    if is_blank(text) {
        idle()
    } else {
        DebounceView { pending: Some(trimmed(text)), deadline: Some(deadline_after(now)) }
    }
}

/// Whether a frame at `now` sends the waiting query.
pub open spec fn fires(v: DebounceView, now: u64) -> bool {
    &&& v.deadline is Some
    &&& now >= v.deadline->0
    &&& v.pending is Some
}

/// The state after a frame at `now`.
pub open spec fn after_frame(v: DebounceView, now: u64) -> DebounceView {
    if fires(v, now) {
        idle()
    } else {
        v
    }
}

/// What a frame at `now` sends, if anything.
pub open spec fn sent_at_frame(v: DebounceView, now: u64) -> Seq<Seq<char>> {
    if fires(v, now) {
        seq![v.pending->0]
    } else {
        Seq::empty()
    }
}

/// An input to the scheduler: a keystroke that leaves `text` in the search
/// box, or a frame of the UI loop.
pub enum DebounceEvent {
    Keystroke { text: Seq<char>, at: u64 },
    Frame { at: u64 },
}

/// The state after `evs`, starting from `v`.
pub open spec fn run_state(v: DebounceView, evs: Seq<DebounceEvent>) -> DebounceView
    decreases evs.len(),
{
    if evs.len() == 0 {
        v
    } else {
        let w = run_state(v, evs.drop_last());
        match evs.last() {
            DebounceEvent::Keystroke { text, at } => armed(text, at),
            DebounceEvent::Frame { at } => after_frame(w, at),
        }
    }
}

/// The queries sent while `evs` are handled, starting from `v`.
pub open spec fn run_sent(v: DebounceView, evs: Seq<DebounceEvent>) -> Seq<Seq<char>>
    decreases evs.len(),
{
    if evs.len() == 0 {
        Seq::empty()
    } else {
        let w = run_state(v, evs.drop_last());
        let before = run_sent(v, evs.drop_last());
        match evs.last() {
            DebounceEvent::Keystroke { .. } => before,
            DebounceEvent::Frame { at } => before + sent_at_frame(w, at),
        }
    }
}

/// A keystroke as its text and time.
pub struct KeystrokeAt {
    pub text: Seq<char>,
    pub at: u64,
}

/// The last keystroke among `evs`.
pub open spec fn last_keystroke(evs: Seq<DebounceEvent>) -> Option<KeystrokeAt>
    decreases evs.len(),
{
    if evs.len() == 0 {
        None
    } else {
        match evs.last() {
            DebounceEvent::Keystroke { text, at } => Some(KeystrokeAt { text, at }),
            DebounceEvent::Frame { .. } => last_keystroke(evs.drop_last()),
        }
    }
}

/// Where a burst leaves the scheduler: armed by its latest keystroke, or
/// idle where it has none.
pub open spec fn burst_state(evs: Seq<DebounceEvent>) -> DebounceView {
    match last_keystroke(evs) {
        Some(k) => armed(k.text, k.at),
        None => idle(),
    }
}

/// `evs` is a burst: every frame comes before the deadline that the latest
/// keystroke before it set, as happens when each keystroke follows the one
/// before within the interval. Frames before the first keystroke, and
/// keystrokes that leave the box blank, are allowed.
pub open spec fn is_burst(evs: Seq<DebounceEvent>) -> bool {
    forall|k: int|
        0 <= k < evs.len() ==> match #[trigger] evs[k] {
            DebounceEvent::Keystroke { .. } => true,
            DebounceEvent::Frame { at } => match last_keystroke(evs.take(k)) {
                Some(key) => at < deadline_after(key.at),
                None => true,
            },
        }
}

/// Whether a run may start from `v`: from an idle scheduler, or from any
/// state when the run opens with a keystroke, which replaces what waited.
pub open spec fn may_start(v: DebounceView, evs: Seq<DebounceEvent>) -> bool {
    v == idle() || (evs.len() > 0 && evs[0] is Keystroke)
}

/// Within a burst the latest keystroke's query waits and nothing is sent.
proof fn lemma_burst_stays_armed(v: DebounceView, evs: Seq<DebounceEvent>)
    requires
        is_burst(evs),
        may_start(v, evs),
    ensures
        run_state(v, evs) == burst_state(evs),
        run_sent(v, evs) == Seq::<Seq<char>>::empty(),
    decreases evs.len(),
{
    if evs.len() == 0 {
        return;
    }
    let n = evs.len() as int;
    let p = evs.drop_last();
    assert(evs.take(n - 1) =~= p);
    assert forall|k: int| 0 <= k < p.len() implies match #[trigger] p[k] {
        DebounceEvent::Keystroke { .. } => true,
        DebounceEvent::Frame { at } => match last_keystroke(p.take(k)) {
            Some(key) => at < deadline_after(key.at),
            None => true,
        },
    } by {
        assert(p[k] == evs[k]);
        assert(p.take(k) =~= evs.take(k));
    }
    assert(evs[n - 1] == evs.last());
    if n == 1 {
        assert(p.len() == 0);
        assert(run_sent(v, p) == Seq::<Seq<char>>::empty());
        if v != idle() {
            assert(evs.last() == evs[0]);
        }
    } else {
        assert(p[0] == evs[0]);
        lemma_burst_stays_armed(v, p);
    }
    match evs.last() {
        DebounceEvent::Keystroke { .. } => {},
        DebounceEvent::Frame { at } => {
            if n == 1 {
                assert(v == idle());
            }
        },
    }
}

/// From an idle scheduler, frames alone change nothing and send nothing.
proof fn lemma_idle_frames(v: DebounceView, prefix: Seq<DebounceEvent>, tail: Seq<DebounceEvent>)
    requires
        run_state(v, prefix) == idle(),
        forall|i: int| 0 <= i < tail.len() ==> #[trigger] tail[i] is Frame,
    ensures
        run_state(v, prefix + tail) == idle(),
        run_sent(v, prefix + tail) == run_sent(v, prefix),
    decreases tail.len(),
{
    if tail.len() == 0 {
        assert(prefix + tail =~= prefix);
    } else {
        let t = tail.drop_last();
        assert forall|i: int| 0 <= i < t.len() implies #[trigger] t[i] is Frame by {
            assert(t[i] == tail[i]);
        }
        lemma_idle_frames(v, prefix, t);
        assert((prefix + tail).drop_last() =~= prefix + t);
        assert((prefix + tail).last() == tail[tail.len() - 1]);
        assert(run_sent(v, prefix + tail) =~= run_sent(v, prefix + t) + Seq::<Seq<char>>::empty());
    }
}

/// However many keystrokes a burst holds, the frame that first reaches the
/// deadline of the last one sends exactly one query, the last text trimmed,
/// where that text is not blank; frames after it send nothing more.
pub proof fn lemma_burst_sends_final_query(
    v: DebounceView,
    evs: Seq<DebounceEvent>,
    end: u64,
    tail: Seq<DebounceEvent>,
)
    requires
        is_burst(evs),
        may_start(v, evs),
        last_keystroke(evs) is Some,
        !is_blank(last_keystroke(evs)->0.text),
        end >= deadline_after(last_keystroke(evs)->0.at),
        forall|i: int| 0 <= i < tail.len() ==> #[trigger] tail[i] is Frame,
    ensures
        run_sent(v, evs.push(DebounceEvent::Frame { at: end }) + tail) == seq![
            trimmed(last_keystroke(evs)->0.text),
        ],
        run_state(v, evs.push(DebounceEvent::Frame { at: end }) + tail) == idle(),
{
    lemma_burst_stays_armed(v, evs);
    let all = evs.push(DebounceEvent::Frame { at: end });
    assert(all.drop_last() =~= evs);
    assert(run_sent(v, all) =~= Seq::<Seq<char>>::empty() + seq![
        trimmed(last_keystroke(evs)->0.text),
    ]);
    lemma_idle_frames(v, all, tail);
}

} // verus!
