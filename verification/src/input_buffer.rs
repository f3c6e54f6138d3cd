//! Sliding per-tick window of optional actions and its change-run-encoded
//! wire message.
//!
//! The buffer stores one `Option<A>` per tick, keyed from `start_tick`
//! upward. The wire message covers the most-recent ticks ending at
//! `end_tick`: the first covered tick is written out in full, and every
//! later tick is written either as a "same as the precedent" marker or in
//! full, so long runs of identical (often absent) inputs stay compact while
//! every message still independently covers its whole window.

use vstd::laws_eq::obeys_concrete_eq;
use vstd::pervasive::VecAdditionalExecFns;
use vstd::prelude::*;

use crate::tick::{
    lemma_tick_diff_injective, lemma_tick_diff_shift_invariant, tick_diff_spec, tick_shift_spec,
    Tick,
};

verus! {

/// One entry of the change-run-encoded wire sequence.
#[derive(Clone, Copy, Debug, PartialEq)]
pub enum InputData<A> {
    /// No action was recorded for this tick.
    Absent,
    /// This tick carries the same `Option` value as the tick before it.
    SameAsPrecedent,
    /// The action recorded for this tick, written in full.
    Input(A),
}

/// The value the entry at position `i` stands for: a "same as precedent"
/// marker takes the value of the entry before it, and at position zero it
/// stands for an absent input.
pub open spec fn decoded_at<A>(entries: Seq<InputData<A>>, i: int) -> Option<A>
    decreases i,
{
    match entries[i] {
        InputData::Absent => None,
        InputData::Input(a) => Some(a),
        InputData::SameAsPrecedent => if i <= 0 {
            None
        } else {
            decoded_at(entries, i - 1)
        },
    }
}

/// The per-tick `Option` sequence the entries stand for, oldest tick first.
pub open spec fn decoded_seq<A>(entries: Seq<InputData<A>>) -> Seq<Option<A>> {
    Seq::new(entries.len(), |i: int| decoded_at(entries, i))
}

/// What an entry stands for depends only on the entries up to it.
proof fn lemma_decoded_at_prefix<A>(e1: Seq<InputData<A>>, e2: Seq<InputData<A>>, i: int)
    requires
        0 <= i < e1.len(),
        e1.len() <= e2.len(),
        forall|j: int| 0 <= j <= i ==> e1[j] == e2[j],
    ensures
        decoded_at(e1, i) == decoded_at(e2, i),
    decreases i,
{
    if i > 0 && e1[i] is SameAsPrecedent {
        lemma_decoded_at_prefix(e1, e2, i - 1);
    }
}

/// A run of markers with no full value decodes to absent inputs throughout.
proof fn lemma_markers_decode_none<A>(entries: Seq<InputData<A>>, i: int)
    requires
        0 <= i < entries.len(),
        forall|j: int| 0 <= j <= i ==> !((#[trigger] entries[j]) is Input),
    ensures
        decoded_at(entries, i) is None,
    decreases i,
{
    if i > 0 && entries[i] is SameAsPrecedent {
        lemma_markers_decode_none(entries, i - 1);
    }
}

/// The redundant input message: `end_tick` plus a change-run-coded sequence
/// of optional actions for the ticks `[end_tick - len + 1, end_tick]`,
/// oldest first.
#[derive(Debug)]
pub struct InputMessage<A> {
    /// The most recent tick the message covers.
    pub end_tick: Tick,
    /// The change-run-coded entries, one per covered tick, oldest first.
    pub inputs: Vec<InputData<A>>,
}

impl<A: Copy> InputMessage<A> {
    /// Expands the change-run coding back into one `Option` per covered
    /// tick, oldest first.
    pub fn decode(&self) -> (r: Vec<Option<A>>)
        ensures
            r@ == decoded_seq(self.inputs@),
    {
        let n = self.inputs.len();
        let mut out: Vec<Option<A>> = Vec::new();
        let mut prev: Option<A> = None;
        let mut i: usize = 0;
        while i < n
            invariant
                n == self.inputs@.len(),
                i <= n,
                out@.len() == i,
                forall|j: int| 0 <= j < i ==> out@[j] == decoded_at(self.inputs@, j),
                prev == (if i == 0 { None } else { decoded_at(self.inputs@, i - 1) }),
            decreases n - i,
        {
            let v: Option<A> = match self.inputs[i] {
                InputData::Absent => None,
                InputData::SameAsPrecedent => prev,
                InputData::Input(a) => Some(a),
            };
            out.push(v);
            prev = v;
            i = i + 1;
        }
        proof {
            assert(out@ =~= decoded_seq(self.inputs@));
        }
        out
    }

    /// True when every tick covered by the message decodes to an absent
    /// input: such a message carries no information and is not sent.
    pub fn is_empty(&self) -> (r: bool)
        ensures
            r == (forall|j: int|
                0 <= j < self.inputs@.len() ==> (#[trigger] decoded_at(self.inputs@, j)) is None),
    {
        let n = self.inputs.len();
        let mut all_markers = true;
        let mut i: usize = 0;
        while i < n
            invariant
                n == self.inputs@.len(),
                i <= n,
                all_markers == (forall|j: int|
                    0 <= j < i ==> !((#[trigger] self.inputs@[j]) is Input)),
            decreases n - i,
        {
            let keep: bool = match self.inputs[i] {
                InputData::Input(_) => false,
                _ => true,
            };
            all_markers = all_markers && keep;
            i = i + 1;
        }
        proof {
            if all_markers {
                assert forall|j: int|
                    0 <= j < self.inputs@.len() implies (#[trigger] decoded_at(
                    self.inputs@,
                    j,
                )) is None by {
                    lemma_markers_decode_none(self.inputs@, j);
                }
            } else {
                let k = choose|k: int|
                    0 <= k < self.inputs@.len() && (#[trigger] self.inputs@[k]) is Input;
                assert(decoded_at(self.inputs@, k) is Some);
            }
        }
        all_markers
    }
}

/// The action recorded at `tick` in a window that starts at `start` and
/// holds `entries`, or `None` when `tick` lies outside the window.
pub open spec fn model_get<A>(start: Option<u16>, entries: Seq<Option<A>>, tick: u16) -> Option<A> {
    match start {
        Some(s) => {
            let d = tick_diff_spec(tick, s);
            if 0 <= d < entries.len() {
                entries[d]
            } else {
                None
            }
        },
        None => None,
    }
}

/// Whether a write at `tick` is supported: anywhere once the window exists,
/// as long as `tick` is not before its start (only forward growth).
pub open spec fn model_can_write(start: Option<u16>, tick: u16) -> bool {
    match start {
        Some(s) => tick_diff_spec(tick, s) >= 0,
        None => true,
    }
}

/// The window after a write of `value` at `tick`: an in-place overwrite
/// inside the window, or forward growth with absent-filled gaps, or no
/// change for a tick before the window start.
pub open spec fn model_set<A>(
    start: Option<u16>,
    entries: Seq<Option<A>>,
    tick: u16,
    value: Option<A>,
) -> (Option<u16>, Seq<Option<A>>) {
    match start {
        None => (Some(tick), seq![value]),
        Some(s) => {
            let d = tick_diff_spec(tick, s);
            if d < 0 {
                (start, entries)
            } else if d < entries.len() {
                (start, entries.update(d, value))
            } else {
                (
                    start,
                    entries + Seq::new((d - entries.len()) as nat, |i: int| None::<A>)
                        + seq![value],
                )
            }
        },
    }
}

/// The window, and the returned entry, after removing everything up to and
/// including `tick`: the start advances past `tick`, and the entry recorded
/// at `tick` comes back. A tick before the window start removes nothing.
pub open spec fn model_pop<A>(start: Option<u16>, entries: Seq<Option<A>>, tick: u16) -> (
    Option<u16>,
    Seq<Option<A>>,
    Option<A>,
) {
    match start {
        None => (start, entries, None),
        Some(s) => {
            let d = tick_diff_spec(tick, s);
            if d < 0 {
                (start, entries, None)
            } else if d >= entries.len() {
                (Some(tick_shift_spec(tick, 1)), Seq::empty(), None)
            } else {
                (
                    Some(tick_shift_spec(tick, 1)),
                    entries.subrange(d + 1, entries.len() as int),
                    entries[d],
                )
            }
        },
    }
}

/// The window start after a tick rebase by `delta`: shifted with the ticks.
pub open spec fn model_rebase(start: Option<u16>, delta: int) -> Option<u16> {
    match start {
        Some(s) => Some(tick_shift_spec(s, delta)),
        None => None,
    }
}

/// A tick earlier than the window start is never exposed: reading it gives
/// nothing, whatever the window holds.
pub proof fn lemma_no_exposure_before_start<A>(start: Option<u16>, entries: Seq<Option<A>>, q: u16)
    requires
        start matches Some(s) && tick_diff_spec(q, s) < 0,
    ensures
        model_get(start, entries, q) is None,
{
}

/// Whether `tick` lies inside the currently retained window.
pub open spec fn model_in_window<A>(start: Option<u16>, entries: Seq<Option<A>>, tick: u16) -> bool {
    match start {
        Some(s) => 0 <= tick_diff_spec(tick, s) < entries.len(),
        None => false,
    }
}

/// A write changes the read at the written tick (when the write is
/// supported) and no other read.
pub proof fn lemma_model_set_get<A>(
    start: Option<u16>,
    entries: Seq<Option<A>>,
    tick: u16,
    value: Option<A>,
    q: u16,
)
    ensures
        ({
            let m = model_set(start, entries, tick, value);
            model_get(m.0, m.1, q) == (if q == tick && model_can_write(start, tick) {
                value
            } else {
                model_get(start, entries, q)
            })
        }),
{
    match start {
        None => {
            assert(tick_diff_spec(tick, tick) == 0);
            if tick_diff_spec(q, tick) == 0 {
                lemma_tick_diff_injective(q, tick, tick);
            }
        },
        Some(s) => {
            if q == tick || tick_diff_spec(q, s) == tick_diff_spec(tick, s) {
                lemma_tick_diff_injective(q, tick, s);
            }
        },
    }
}

/// Write-order independence: writing two distinct ticks of the retained
/// window in either order yields identical subsequent reads at every tick.
pub proof fn lemma_set_order_independent<A>(
    start: Option<u16>,
    entries: Seq<Option<A>>,
    t1: u16,
    a1: Option<A>,
    t2: u16,
    a2: Option<A>,
    q: u16,
)
    requires
        t1 != t2,
        model_in_window(start, entries, t1),
        model_in_window(start, entries, t2),
    ensures
        ({
            let m1 = model_set(start, entries, t1, a1);
            let m12 = model_set(m1.0, m1.1, t2, a2);
            let m2 = model_set(start, entries, t2, a2);
            let m21 = model_set(m2.0, m2.1, t1, a1);
            model_get(m12.0, m12.1, q) == model_get(m21.0, m21.1, q)
        }),
{
    let m1 = model_set(start, entries, t1, a1);
    let m2 = model_set(start, entries, t2, a2);
    lemma_model_set_get(start, entries, t1, a1, q);
    lemma_model_set_get(start, entries, t2, a2, q);
    lemma_model_set_get(m1.0, m1.1, t2, a2, q);
    lemma_model_set_get(m2.0, m2.1, t1, a1, q);
}

/// A tick rebase preserves every tick-to-action association under the same
/// shift: reading the shifted tick after the rebase equals reading the
/// unshifted tick before it.
pub proof fn lemma_rebase_preserves_associations<A>(
    start: Option<u16>,
    entries: Seq<Option<A>>,
    delta: int,
    t: u16,
)
    ensures
        model_get(model_rebase(start, delta), entries, tick_shift_spec(t, delta)) == model_get(
            start,
            entries,
            t,
        ),
{
    match start {
        Some(s) => {
            lemma_tick_diff_shift_invariant(t, s, delta);
        },
        None => {},
    }
}

/// Sliding window of one optional action per tick, keyed from `start_tick`
/// upward. A tick earlier than `start_tick` is never exposed: writes before
/// the start are ignored and reads there return `None`.
#[derive(Debug)]
pub struct InputBuffer<A> {
    /// The oldest retained tick; `None` until the first write.
    pub start_tick: Option<Tick>,
    /// One slot per tick from `start_tick` upward, `None` for absent.
    pub buffer: Vec<Option<A>>,
}

impl<A> Default for InputBuffer<A> {
    /// An empty buffer with no retained window.
    fn default() -> (r: Self)
        ensures
            r.start_tick is None,
            r.buffer@.len() == 0,
    {
        InputBuffer { start_tick: None, buffer: Vec::new() }
    }
}

impl<A> InputBuffer<A> {
    /// The window start as a raw tick value.
    pub open spec fn start_of(self) -> Option<u16> {
        match self.start_tick {
            Some(t) => Some(t.0),
            None => None,
        }
    }

    /// The window never exceeds half the tick circle, so every retained
    /// tick sits at a non-negative signed distance from the start; before
    /// the first write there are no slots at all.
    pub open spec fn wf(self) -> bool {
        &&& self.buffer@.len() <= 0x8000
        &&& (self.start_tick is None ==> self.buffer@.len() == 0)
    }

    /// The action recorded at `tick`, `None` outside the window.
    pub open spec fn spec_get(self, tick: u16) -> Option<A> {
        model_get(self.start_of(), self.buffer@, tick)
    }

    /// The `len` most-recent recorded actions ending at `end`, oldest first.
    pub open spec fn window_spec(self, end: u16, len: int) -> Seq<Option<A>> {
        Seq::new(len as nat, |i: int| self.spec_get(tick_shift_spec(end, i - (len - 1))))
    }

    /// Writes or overwrites the slot for `tick`. Only forward growth from
    /// the current end is supported; skipped slots are filled with absent
    /// markers, and a write before `start_tick` is ignored.
    pub fn set(&mut self, tick: Tick, value: Option<A>)
        requires
            old(self).wf(),
        ensures
            final(self).wf(),
            (final(self).start_of(), final(self).buffer@) == model_set(
                old(self).start_of(),
                old(self).buffer@,
                tick.0,
                value,
            ),
    {
        let ghost m = model_set(old(self).start_of(), old(self).buffer@, tick.0, value);
        match self.start_tick {
            None => {
                self.start_tick = Some(tick);
                self.buffer.push(value);
                proof {
                    assert(self.buffer@ =~= m.1);
                }
            },
            Some(start) => {
                let d = tick.diff(start);
                if d < 0 {
                    // a write before the retained window is not supported
                } else if (d as usize) < self.buffer.len() {
                    self.buffer.set(d as usize, value);
                } else {
                    let gap: usize = d as usize - self.buffer.len();
                    let mut filled: usize = 0;
                    while filled < gap
                        invariant
                            filled <= gap,
                            gap == tick_diff_spec(tick.0, start.0) - old(self).buffer@.len(),
                            self.start_tick == old(self).start_tick,
                            self.buffer@ =~= old(self).buffer@ + Seq::new(
                                filled as nat,
                                |i: int| None::<A>,
                            ),
                        decreases gap - filled,
                    {
                        self.buffer.push(None);
                        filled = filled + 1;
                        proof {
                            assert(self.buffer@ =~= old(self).buffer@ + Seq::new(
                                filled as nat,
                                |i: int| None::<A>,
                            ));
                        }
                    }
                    self.buffer.push(value);
                    proof {
                        assert(self.buffer@ =~= m.1);
                    }
                }
            },
        }
    }

    /// Removes every entry up to and including `tick` and returns the entry
    /// recorded at `tick`, advancing the window start past `tick`. A tick
    /// before the window start removes nothing.
    pub fn pop(&mut self, tick: Tick) -> (r: Option<A>)
        requires
            old(self).wf(),
        ensures
            final(self).wf(),
            (final(self).start_of(), final(self).buffer@, r) == model_pop(
                old(self).start_of(),
                old(self).buffer@,
                tick.0,
            ),
    {
        match self.start_tick {
            None => None,
            Some(start) => {
                let d = tick.diff(start);
                if d < 0 {
                    None
                } else if (d as usize) >= self.buffer.len() {
                    self.buffer.clear();
                    self.start_tick = Some(tick.advance(1));
                    None
                } else {
                    let keep = d as usize;
                    let mut removed: usize = 0;
                    while removed < keep
                        invariant
                            removed <= keep,
                            keep < old(self).buffer@.len(),
                            self.start_tick == old(self).start_tick,
                            self.buffer@ =~= old(self).buffer@.subrange(
                                removed as int,
                                old(self).buffer@.len() as int,
                            ),
                        decreases keep - removed,
                    {
                        self.buffer.remove(0);
                        removed = removed + 1;
                        proof {
                            assert(self.buffer@ =~= old(self).buffer@.subrange(
                                removed as int,
                                old(self).buffer@.len() as int,
                            ));
                        }
                    }
                    let r = self.buffer.remove(0);
                    self.start_tick = Some(tick.advance(1));
                    proof {
                        assert(self.buffer@ =~= old(self).buffer@.subrange(
                            d + 1,
                            old(self).buffer@.len() as int,
                        ));
                    }
                    r
                }
            },
        }
    }

    /// Shifts the window start by the signed tick-rebase delta so that the
    /// buffered entries remain addressable under the renumbered ticks.
    pub fn rebase(&mut self, delta: i16)
        requires
            old(self).wf(),
        ensures
            final(self).wf(),
            final(self).buffer@ == old(self).buffer@,
            final(self).start_of() == model_rebase(old(self).start_of(), delta as int),
    {
        match self.start_tick {
            Some(start) => {
                self.start_tick = Some(start.shift(delta));
            },
            None => {},
        }
    }
}

impl<A: Copy> InputBuffer<A> {
    /// The action recorded at `tick`; reading never removes data, so the
    /// same tick can be replayed during rollback.
    pub fn get(&self, tick: Tick) -> (r: Option<A>)
        ensures
            r == self.spec_get(tick.0),
    {
        match self.start_tick {
            None => None,
            Some(start) => {
                let d = tick.diff(start);
                if d >= 0 && (d as usize) < self.buffer.len() {
                    self.buffer[d as usize]
                } else {
                    None
                }
            },
        }
    }
}

impl<A: Copy + PartialEq> InputBuffer<A> {
    /// Builds the message covering the `len` most-recent ticks ending at
    /// `end_tick`: the oldest covered tick is written in full and every
    /// later tick as a marker when unchanged, so that decoding the message
    /// reproduces exactly the buffered `Option` per covered tick.
    pub fn create_message(&self, end_tick: Tick, len: u16) -> (r: InputMessage<A>)
        requires
            len >= 1,
            obeys_concrete_eq::<A>(),
        ensures
            r.end_tick == end_tick,
            r.inputs@.len() == len as int,
            decoded_seq(r.inputs@) == self.window_spec(end_tick.0, len as int),
    {
        let ghost win = self.window_spec(end_tick.0, len as int);
        let mut inputs: Vec<InputData<A>> = Vec::new();
        let mut prev: Option<A> = None;
        let mut i: u16 = 0;
        while i < len
            invariant
                i <= len,
                len >= 1,
                obeys_concrete_eq::<A>(),
                win == self.window_spec(end_tick.0, len as int),
                inputs@.len() == i as int,
                forall|j: int| 0 <= j < i ==> decoded_at(inputs@, j) == win[j],
                prev == (if i == 0 { None } else { win[i - 1] }),
            decreases len - i,
        {
            let cur: Option<A> = self.get(end_tick.retreat(len - 1 - i));
            proof {
                assert(tick_shift_spec(end_tick.0, -((len - 1 - i) as int)) == tick_shift_spec(
                    end_tick.0,
                    i - (len - 1),
                ));
                assert(cur == win[i as int]);
            }
            let same = i > 0 && option_eq(&cur, &prev);
            let entry: InputData<A> = if same {
                InputData::SameAsPrecedent
            } else {
                match cur {
                    Some(a) => InputData::Input(a),
                    None => InputData::Absent,
                }
            };
            let ghost before = inputs@;
            inputs.push(entry);
            proof {
                assert forall|j: int| 0 <= j < i implies decoded_at(inputs@, j) == win[j] by {
                    lemma_decoded_at_prefix(before, inputs@, j);
                }
                if same {
                    lemma_decoded_at_prefix(before, inputs@, i - 1);
                    assert(decoded_at(inputs@, i as int) == win[i - 1]);
                }
                assert(decoded_at(inputs@, i as int) == cur);
            }
            prev = cur;
            i = i + 1;
        }
        proof {
            assert(decoded_seq(inputs@) =~= win);
        }
        InputMessage { end_tick, inputs }
    }
}

/// Equality of two optional actions, decided with the action's `PartialEq`.
fn option_eq<A: PartialEq>(a: &Option<A>, b: &Option<A>) -> (r: bool)
    requires
        obeys_concrete_eq::<A>(),
    ensures
        r == (*a == *b),
{
    match (a, b) {
        (None, None) => true,
        (Some(x), Some(y)) => {
            proof {
                reveal(vstd::laws_eq::obeys_concrete_eq);
            }
            *x == *y
        },
        _ => false,
    }
}

} // verus!
