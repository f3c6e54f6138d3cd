//! Client-side input handling: buffering the local player's per-tick
//! actions and building the redundant message sent to the server.
//!
//! The history of inputs is kept on the client for rollback and client
//! prediction, and each message carries not only the input for tick `T` but
//! also the inputs for the ticks before it, so the server is not missing
//! any client input even when packets get lost.

use core::marker::PhantomData;
use vstd::laws_eq::obeys_concrete_eq;
use vstd::prelude::*;

use crate::input_buffer::{
    decoded_at, decoded_seq, model_pop, model_rebase, model_set, InputBuffer, InputMessage,
};
use crate::tick::{tick_diff_spec, Tick};

verus! {

/// Configuration of the per-tick input sending.
#[derive(Debug, Clone, Copy)]
pub struct InputConfig {
    /// How many consecutive packet losses to handle: each message carries
    /// the inputs of that many earlier send intervals on top of its own.
    pub packet_redundancy: u16,
    /// How often input messages are sent to the server, in microseconds;
    /// zero sends every frame.
    pub send_interval_us: u64,
}

impl Default for InputConfig {
    fn default() -> (r: Self)
        ensures
            r.packet_redundancy == 10,
            r.send_interval_us == 0,
    {
        InputConfig { packet_redundancy: 10, send_interval_us: 0 }
    }
}

/// Length of the wire message window, in ticks: every message re-covers the
/// backlog of `packet_redundancy` earlier send intervals, so losing up to
/// that many consecutive messages leaves no tick uncovered.
pub open spec fn message_length_spec(send_interval_ticks: int, packet_redundancy: int) -> int {
    send_interval_ticks * (1 + packet_redundancy)
}

/// Number of ticks an input message must cover for the configured channel
/// send interval and redundancy.
pub fn message_length(send_interval_ticks: u16, packet_redundancy: u16) -> (r: u16)
    requires
        send_interval_ticks >= 1,
        message_length_spec(send_interval_ticks as int, packet_redundancy as int) <= u16::MAX,
    ensures
        r as int == message_length_spec(send_interval_ticks as int, packet_redundancy as int),
        r >= 1,
{
    proof {
        assert((1 + packet_redundancy) <= send_interval_ticks * (1 + packet_redundancy)
            && send_interval_ticks * (1 + packet_redundancy) >= 1) by (nonlinear_arith)
            requires
                send_interval_ticks >= 1,
                packet_redundancy >= 0,
        ;
    }
    send_interval_ticks * (1 + packet_redundancy)
}

/// Redundancy coverage: when up to `packet_redundancy` consecutive messages
/// are dropped, every tick after the last delivered message — sent
/// `dropped + 1` send intervals before the message ending at `end_tick` —
/// still lies inside the window of the next message that arrives.
pub proof fn lemma_redundancy_covers_dropped_messages(
    send_interval_ticks: int,
    packet_redundancy: int,
    dropped: int,
    end_tick: int,
    t: int,
)
    requires
        send_interval_ticks >= 1,
        0 <= dropped <= packet_redundancy,
        end_tick - (dropped + 1) * send_interval_ticks < t <= end_tick,
    ensures
        end_tick - message_length_spec(send_interval_ticks, packet_redundancy) < t <= end_tick,
{
    assert((dropped + 1) * send_interval_ticks <= send_interval_ticks * (1 + packet_redundancy))
        by (nonlinear_arith)
        requires
            send_interval_ticks >= 1,
            0 <= dropped <= packet_redundancy,
    ;
}

/// Resource that handles buffering and sending inputs to the server.
#[derive(Debug)]
pub struct InputManager<A> {
    /// The per-tick window of the local player's actions.
    pub input_buffer: InputBuffer<A>,
}

impl<A> Default for InputManager<A> {
    fn default() -> (r: Self)
        ensures
            r.input_buffer.start_tick is None,
            r.input_buffer.buffer@.len() == 0,
    {
        InputManager { input_buffer: InputBuffer::default() }
    }
}

impl<A: Copy> InputManager<A> {
    /// A copy of the input recorded for `tick`; the buffer keeps the entry
    /// because it may be needed again for rollback.
    pub fn get_input(&self, tick: Tick) -> (r: Option<A>)
        ensures
            r == self.input_buffer.spec_get(tick.0),
    {
        self.input_buffer.get(tick)
    }
}

impl<A> InputManager<A> {
    /// Buffers a user action for the given tick.
    pub fn add_input(&mut self, input: A, tick: Tick)
        requires
            old(self).input_buffer.wf(),
        ensures
            final(self).input_buffer.wf(),
            (final(self).input_buffer.start_of(), final(self).input_buffer.buffer@) == model_set(
                old(self).input_buffer.start_of(),
                old(self).input_buffer.buffer@,
                tick.0,
                Some(input),
            ),
    {
        self.input_buffer.set(tick, Some(input));
    }

    /// Applies a tick-rebase event: the local ticks were renumbered from
    /// `old_tick` to `new_tick`, so the buffered window shifts by the same
    /// delta and every entry stays addressable.
    pub fn receive_tick_event(&mut self, old_tick: Tick, new_tick: Tick)
        requires
            old(self).input_buffer.wf(),
        ensures
            final(self).input_buffer.wf(),
            final(self).input_buffer.buffer@ == old(self).input_buffer.buffer@,
            final(self).input_buffer.start_of() == model_rebase(
                old(self).input_buffer.start_of(),
                tick_diff_spec(new_tick.0, old_tick.0),
            ),
    {
        let delta = new_tick.diff(old_tick);
        self.input_buffer.rebase(delta);
    }
}

impl<A: Copy + PartialEq> InputManager<A> {
    /// Builds the redundant message covering the most-recent ticks ending
    /// at `current_tick`, or `None` when the whole window is absent (such a
    /// message is not sent), and then deletes the buffered entries up to
    /// the interpolation cursor tick — which is behind any tick a future
    /// rollback could still need.
    pub fn prepare_input_message(
        &mut self,
        current_tick: Tick,
        send_interval_ticks: u16,
        packet_redundancy: u16,
        interpolation_tick: Tick,
    ) -> (r: Option<InputMessage<A>>)
        requires
            old(self).input_buffer.wf(),
            obeys_concrete_eq::<A>(),
            send_interval_ticks >= 1,
            message_length_spec(send_interval_ticks as int, packet_redundancy as int) <= u16::MAX,
        ensures
            final(self).input_buffer.wf(),
            ({
                let len = message_length_spec(send_interval_ticks as int, packet_redundancy as int);
                let win = old(self).input_buffer.window_spec(current_tick.0, len);
                match r {
                    Some(m) => m.end_tick == current_tick && m.inputs@.len() == len && decoded_seq(
                        m.inputs@,
                    ) == win && (exists|j: int| 0 <= j < len && (#[trigger] win[j]) is Some),
                    None => forall|j: int| 0 <= j < len ==> (#[trigger] win[j]) is None,
                }
            }),
            ({
                let popped = model_pop(
                    old(self).input_buffer.start_of(),
                    old(self).input_buffer.buffer@,
                    interpolation_tick.0,
                );
                (final(self).input_buffer.start_of(), final(self).input_buffer.buffer@) == (
                    popped.0,
                    popped.1,
                )
            }),
    {
        let len = message_length(send_interval_ticks, packet_redundancy);
        let message = self.input_buffer.create_message(current_tick, len);
        let empty = message.is_empty();
        proof {
            let win = old(self).input_buffer.window_spec(current_tick.0, len as int);
            if !empty {
                let j = choose|j: int|
                    0 <= j < message.inputs@.len() && !((#[trigger] decoded_at(
                        message.inputs@,
                        j,
                    )) is None);
                assert(decoded_seq(message.inputs@)[j] == decoded_at(message.inputs@, j));
                assert(win[j] is Some);
            }
        }
        let r = if empty {
            None
        } else {
            Some(message)
        };
        self.input_buffer.pop(interpolation_tick);
        r
    }
}

/// Input of the user for the current tick.
pub struct CurrentInput<A> {
    #[allow(dead_code)]
    input: A,
}

/// Adds input handling for one action type to the client.
pub struct InputPlugin<A> {
    /// The input-sending configuration the plugin installs.
    pub config: InputConfig,
    /// Ties the plugin to one action type.
    pub _marker: PhantomData<A>,
}

impl<A> InputPlugin<A> {
    fn new(config: InputConfig) -> (r: Self)
        ensures
            r.config == config,
    {
        InputPlugin { config, _marker: PhantomData }
    }
}

impl<A> Default for InputPlugin<A> {
    fn default() -> (r: Self)
        ensures
            r.config.packet_redundancy == 10,
            r.config.send_interval_us == 0,
    {
        InputPlugin::new(InputConfig::default())
    }
}

/// Phases of the per-tick input handling, in execution order.
#[derive(Debug, Hash, PartialEq, Eq, Clone, Copy)]
pub enum InputSystemSet {
    /// Write the captured input events into the input buffer; user systems
    /// that produce inputs belong here.
    BufferInputs,
    /// Read the buffered input for the tick being simulated; runs before
    /// the game logic, and re-emits past inputs during rollback.
    WriteInputEvent,
    /// Clear the per-tick input events, once per tick rather than once per
    /// frame.
    ClearInputEvent,
    /// Prepare and send the redundant input message.
    SendInputMessage,
}

} // verus!
