//! Mathematical model of the switch-event classifier.
//!
//! `ControllerModel` is the abstract value of a controller; `step` is the
//! transition that one sample performs on it. The executable controller's
//! contracts are stated against this model.

use vstd::prelude::*;

verus! {

/// Fixed capacity of the switch bank and of the output bank.
pub const CAPACITY: usize = 16;

/// Default minimum held duration, in milliseconds, for a hold to classify
/// as a long press.
pub const DEFAULT_LONG_PRESS_MS: u64 = 1500;

/// Default maximum open duration, in milliseconds, between two closures of
/// one switch for them to classify as a double press (reserved: double-press
/// recognition is a designed extension, not part of the minimal classifier).
pub const DEFAULT_DOUBLE_PRESS_MS: u64 = 500;

/// Classification state of the switch bank.
#[derive(Clone, Copy, Debug, PartialEq, Eq, Structural)]
pub enum SwitchState {
    /// No switch is closed.
    Idle,
    /// Exactly one switch is closed. `since` is the sample time, in
    /// milliseconds, at which it was first observed closed in this
    /// unbroken hold.
    Holding { pressed_switch: usize, since: u64 },
    /// The same switch has been continuously closed past the long-press
    /// threshold; the long-press action already fired exactly once on the
    /// transition into this state.
    LongHeld { pressed_switch: usize },
}

/// A configuration call was rejected; the controller is unchanged.
#[derive(Clone, Copy, Debug, PartialEq, Eq, Structural)]
pub enum ConfigError {
    /// Configuration is closed once the first sample has been processed.
    AlreadyStarted,
    /// The fixed switch or output capacity is exhausted.
    CapacityExceeded,
    /// An output must cycle through at least one state.
    InvalidCycleLength,
    /// The named switch was never registered.
    UnknownSwitch,
    /// The named switch already has a long-press output attached.
    LongPressAlreadyAttached,
}

/// A sample was rejected; state and outputs are unchanged.
#[derive(Clone, Copy, Debug, PartialEq, Eq, Structural)]
pub enum Fault {
    /// The sample implies a scenario the classifier does not disambiguate
    /// (simultaneous multi-switch closure, or a switch change while one
    /// was held): it is reported, never guessed at.
    UnsupportedInput,
}

/// No switch among the first `n` is closed.
pub open spec fn none_closed(input: Seq<bool>, n: int) -> bool {
    forall|i: int| 0 <= i < n ==> !input[i]
}

/// Switch `s` is closed and no other switch among the first `n` is.
pub open spec fn only_closed(input: Seq<bool>, n: int, s: int) -> bool {
    &&& 0 <= s < n
    &&& input[s]
    &&& forall|i: int| 0 <= i < n && i != s ==> !input[i]
}

/// Two or more switches among the first `n` are closed.
pub open spec fn multiple_closed(input: Seq<bool>, n: int) -> bool {
    exists|i: int, j: int| 0 <= i < j < n && input[i] && input[j]
}

/// The index of the one closed switch, when exactly one is closed.
pub open spec fn lone_closed_index(input: Seq<bool>, n: int) -> int {
    choose|s: int| only_closed(input, n, s)
}

/// Milliseconds elapsed from `since` to `now` on a monotonic clock,
/// saturating at zero.
pub open spec fn elapsed_ms(since: u64, now: u64) -> u64 {
    if now >= since {
        (now - since) as u64
    } else {
        0
    }
}

/// One firing of an output: the level advances by one and wraps to zero at
/// its cycle length.
pub open spec fn bump(level: u8, cycle: u8) -> u8 {
    if level + 1 < cycle {
        (level + 1) as u8
    } else {
        0
    }
}

/// The output vector after output `o` fires once; all other outputs keep
/// their levels.
pub open spec fn bump_at(levels: Seq<u8>, cycles: Seq<u8>, o: int) -> Seq<u8> {
    levels.update(o, bump(levels[o], cycles[o]))
}

/// Abstract value of a controller: its configuration, its output levels and
/// its classification state.
#[verifier::ext_equal]
pub struct ControllerModel {
    /// False while configuring; true once the first sample was processed.
    pub started: bool,
    /// Current classification state.
    pub state: SwitchState,
    /// Number of registered switches.
    pub switch_count: int,
    /// Number of allocated outputs (primary and long-press together).
    pub output_count: int,
    /// Current level of each output slot.
    pub levels: Seq<u8>,
    /// Cycle length of each output slot.
    pub cycles: Seq<u8>,
    /// Primary output index of each switch slot.
    pub primary: Seq<usize>,
    /// Whether each switch slot has a long-press output attached.
    pub has_long: Seq<bool>,
    /// Long-press output index of each switch slot, where attached.
    pub long_output: Seq<usize>,
    /// Minimum held duration, in milliseconds, to classify as a long press.
    pub long_threshold_ms: u64,
    /// Maximum open duration, in milliseconds, between closures of a double
    /// press (reserved for the double-press extension).
    pub double_window_ms: u64,
}

impl ControllerModel {
    /// Well-formedness: counts are within capacity, every allocated output
    /// has a positive cycle length and a level below it, unallocated output
    /// slots rest at zero, switch slots reference allocated outputs with the
    /// long-press output distinct from the primary, and the state names a
    /// registered switch.
    pub open spec fn wf(self) -> bool {
        &&& 0 <= self.switch_count <= self.output_count <= CAPACITY as int
        &&& self.levels.len() == CAPACITY as int
        &&& self.cycles.len() == CAPACITY as int
        &&& self.primary.len() == CAPACITY as int
        &&& self.has_long.len() == CAPACITY as int
        &&& self.long_output.len() == CAPACITY as int
        &&& forall|o: int|
            0 <= o < self.output_count ==> 1 <= #[trigger] self.cycles[o]
        &&& forall|o: int|
            0 <= o < self.output_count ==> #[trigger] self.levels[o] < self.cycles[o]
        &&& forall|o: int|
            self.output_count <= o < CAPACITY as int ==> #[trigger] self.levels[o] == 0
        &&& forall|k: int|
            0 <= k < self.switch_count ==> (#[trigger] self.primary[k]) < self.output_count
        &&& forall|k: int|
            0 <= k < self.switch_count && self.has_long[k] ==> {
                &&& (#[trigger] self.long_output[k]) < self.output_count
                &&& self.long_output[k] != self.primary[k]
            }
        &&& match self.state {
            SwitchState::Idle => true,
            SwitchState::Holding { pressed_switch, .. } => pressed_switch < self.switch_count,
            SwitchState::LongHeld { pressed_switch } => pressed_switch < self.switch_count,
        }
        &&& !self.started ==> self.state is Idle
    }

    /// The sample is an unsupported-input condition: several switches closed
    /// at once while idle, or, while one switch was held, any closed switch
    /// other than the held one.
    pub open spec fn step_fault(self, input: Seq<bool>) -> bool {
        match self.state {
            SwitchState::Idle => multiple_closed(input, self.switch_count),
            SwitchState::Holding { pressed_switch, .. } => exists|i: int|
                0 <= i < self.switch_count && i != pressed_switch && #[trigger] input[i],
            SwitchState::LongHeld { .. } => false,
        }
    }

    /// The classification state after one accepted sample.
    pub open spec fn step_state(self, input: Seq<bool>, now: u64) -> SwitchState
        recommends
            self.wf(),
            !self.step_fault(input),
    {
        let n = self.switch_count;
        match self.state {
            SwitchState::Idle => if none_closed(input, n) {
                SwitchState::Idle
            } else {
                SwitchState::Holding {
                    pressed_switch: lone_closed_index(input, n) as usize,
                    since: now,
                }
            },
            SwitchState::Holding { pressed_switch, since } => if none_closed(input, n) {
                SwitchState::Idle
            } else if self.has_long[pressed_switch as int] && elapsed_ms(since, now)
                >= self.long_threshold_ms {
                SwitchState::LongHeld { pressed_switch }
            } else {
                self.state
            },
            SwitchState::LongHeld { .. } => if none_closed(input, n) {
                SwitchState::Idle
            } else {
                self.state
            },
        }
    }

    /// The output levels after one accepted sample: the primary output of the
    /// held switch fires on its release before the threshold, the long-press
    /// output fires on the sample that crosses the threshold, and nothing
    /// fires otherwise.
    pub open spec fn step_levels(self, input: Seq<bool>, now: u64) -> Seq<u8>
        recommends
            self.wf(),
            !self.step_fault(input),
    {
        let n = self.switch_count;
        match self.state {
            SwitchState::Idle => self.levels,
            SwitchState::Holding { pressed_switch, since } => if none_closed(input, n) {
                bump_at(self.levels, self.cycles, self.primary[pressed_switch as int] as int)
            } else if self.has_long[pressed_switch as int] && elapsed_ms(since, now)
                >= self.long_threshold_ms {
                bump_at(self.levels, self.cycles, self.long_output[pressed_switch as int] as int)
            } else {
                self.levels
            },
            SwitchState::LongHeld { .. } => self.levels,
        }
    }

    /// The whole controller after one sample: a faulting sample changes
    /// neither state nor outputs; an accepted one advances both. Either way
    /// the first sample closes the configuration.
    pub open spec fn step(self, input: Seq<bool>, now: u64) -> ControllerModel
        recommends
            self.wf(),
    {
        if self.step_fault(input) {
            ControllerModel { started: true, ..self }
        } else {
            ControllerModel {
                started: true,
                state: self.step_state(input, now),
                levels: self.step_levels(input, now),
                ..self
            }
        }
    }
}

/// When exactly one switch is closed, no two are.
pub proof fn lemma_only_not_multiple(input: Seq<bool>, n: int, s: int)
    requires
        only_closed(input, n, s),
    ensures
        !multiple_closed(input, n),
{
    if multiple_closed(input, n) {
        let (a, b) = choose|a: int, b: int| 0 <= a < b < n && input[a] && input[b];
        if a != s {
            assert(!input[a]);
        } else {
            assert(b != s);
            assert(!input[b]);
        }
    }
}

/// When at least one switch is closed but no two are, exactly one is, and
/// `lone_closed_index` names it.
pub proof fn lemma_exactly_one(input: Seq<bool>, n: int)
    requires
        !none_closed(input, n),
        !multiple_closed(input, n),
    ensures
        only_closed(input, n, lone_closed_index(input, n)),
{
    if !(exists|i: int| 0 <= i < n && #[trigger] input[i]) {
        assert forall|i: int| 0 <= i < n implies !input[i] by {
            if input[i] {
                assert(0 <= i < n && input[i]);
            }
        }
        assert(none_closed(input, n));
    }
    let w = choose|i: int| 0 <= i < n && #[trigger] input[i];
    assert forall|j: int| 0 <= j < n && j != w implies !input[j] by {
        if input[j] {
            if j < w {
                assert(0 <= j < w < n && input[j] && input[w]);
            } else {
                assert(0 <= w < j < n && input[w] && input[j]);
            }
            assert(multiple_closed(input, n));
        }
    }
    assert(only_closed(input, n, w));
    lemma_lone_index(input, n, w);
}

/// When exactly one switch is closed, `lone_closed_index` names it.
pub proof fn lemma_lone_index(input: Seq<bool>, n: int, s: int)
    requires
        only_closed(input, n, s),
    ensures
        lone_closed_index(input, n) == s,
{
    let t = lone_closed_index(input, n);
    assert(only_closed(input, n, t));
    if t != s {
        assert(!input[t]);
    }
}

} // verus!
