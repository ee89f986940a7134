//! The executable switch-event classifier.

use vstd::prelude::*;

use crate::model::bump_at;
use crate::model::lemma_lone_index;
use crate::model::lemma_only_not_multiple;
use crate::model::multiple_closed;
use crate::model::none_closed;
use crate::model::only_closed;
use crate::model::ConfigError;
use crate::model::ControllerModel;
use crate::model::Fault;
use crate::model::SwitchState;
use crate::model::CAPACITY;
use crate::model::DEFAULT_DOUBLE_PRESS_MS;
use crate::model::DEFAULT_LONG_PRESS_MS;

verus! {

/// A vector of `len` copies of `value`.
fn filled<T: Copy>(len: usize, value: T) -> (r: Vec<T>)
    ensures
        r@.len() == len,
        forall|i: int| 0 <= i < len ==> r@[i] == value,
{
    let mut r: Vec<T> = Vec::new();
    let mut i: usize = 0;
    while i < len
        invariant
            i <= len,
            r@.len() == i,
            forall|j: int| 0 <= j < i ==> r@[j] == value,
        decreases len - i,
    {
        r.push(value);
        i += 1;
    }
    r
}

/// A copy of the output-level vector.
fn copy_levels(v: &Vec<u8>) -> (r: Vec<u8>)
    ensures
        r@ == v@,
{
    let mut r: Vec<u8> = Vec::new();
    let mut i: usize = 0;
    while i < v.len()
        invariant
            i <= v@.len(),
            r@.len() == i,
            forall|j: int| 0 <= j < i ==> r@[j] == v@[j],
        decreases v@.len() - i,
    {
        r.push(v[i]);
        i += 1;
    }
    proof {
        assert(r@ =~= v@);
    }
    r
}

/// The switch-event classifier: registered switches drive small cycling
/// output levels through short presses and long presses.
///
/// The vectors all have the fixed length [`CAPACITY`]; `switches` and
/// `outputs` say how many leading slots are in use.
pub struct MomentaryController {
    /// False while configuring; true once the first sample was processed.
    pub started: bool,
    /// Current classification state.
    pub state: SwitchState,
    /// Number of registered switches.
    pub switches: usize,
    /// Number of allocated outputs.
    pub outputs: usize,
    /// Current level of each output slot.
    pub output: Vec<u8>,
    /// Cycle length of each output slot.
    pub output_cycles: Vec<u8>,
    /// Primary output index of each switch slot.
    pub primary: Vec<usize>,
    /// Whether each switch slot has a long-press output attached.
    pub has_long: Vec<bool>,
    /// Long-press output index of each switch slot, where attached.
    pub long: Vec<usize>,
    /// Minimum closed time, in milliseconds, to register a long press.
    pub long_closed: u64,
    /// Maximum open time, in milliseconds, between closures of a double
    /// press (reserved for the double-press extension).
    pub double_open: u64,
}

impl View for MomentaryController {
    type V = ControllerModel;

    open spec fn view(&self) -> ControllerModel {
        ControllerModel {
            started: self.started,
            state: self.state,
            switch_count: self.switches as int,
            output_count: self.outputs as int,
            levels: self.output@,
            cycles: self.output_cycles@,
            primary: self.primary@,
            has_long: self.has_long@,
            long_output: self.long@,
            long_threshold_ms: self.long_closed,
            double_window_ms: self.double_open,
        }
    }
}

impl MomentaryController {
    /// The controller is well formed; every public method preserves this.
    pub open spec fn wf(&self) -> bool {
        self@.wf()
    }

    /// A fresh controller: no switches, no outputs, no long-press
    /// attachments, idle, configuration open. `long_press_threshold_ms` is
    /// the minimum held duration of a long press; `double_press_window_ms`
    /// is reserved for the double-press extension.
    pub fn new(double_press_window_ms: u64, long_press_threshold_ms: u64) -> (c:
        MomentaryController)
        ensures
            c.wf(),
            !c@.started,
            c@.state is Idle,
            c@.switch_count == 0,
            c@.output_count == 0,
            forall|o: int| 0 <= o < CAPACITY ==> c@.levels[o] == 0,
            forall|o: int| 0 <= o < CAPACITY ==> c@.cycles[o] == 0,
            forall|k: int| 0 <= k < CAPACITY ==> !c@.has_long[k],
            forall|k: int| 0 <= k < CAPACITY ==> c@.primary[k] == 0,
            forall|k: int| 0 <= k < CAPACITY ==> c@.long_output[k] == 0,
            c@.long_threshold_ms == long_press_threshold_ms,
            c@.double_window_ms == double_press_window_ms,
    {
        MomentaryController {
            started: false,
            state: SwitchState::Idle,
            switches: 0,
            outputs: 0,
            output: filled(CAPACITY, 0u8),
            output_cycles: filled(CAPACITY, 0u8),
            primary: filled(CAPACITY, 0usize),
            has_long: filled(CAPACITY, false),
            long: filled(CAPACITY, 0usize),
            long_closed: long_press_threshold_ms,
            double_open: double_press_window_ms,
        }
    }
}

impl MomentaryController {
    /// Registers a new switch whose presses cycle a fresh output through
    /// `output_cycle` states, and returns the switch index and the output
    /// index. Rejected once operation has started, when the capacity is
    /// exhausted, or for a cycle length of zero; a rejected call changes
    /// nothing.
    pub fn add_switch(&mut self, output_cycle: u8) -> (r: Result<(usize, usize), ConfigError>)
        requires
            old(self).wf(),
        ensures
            final(self).wf(),
            old(self)@.started ==> r == Err::<(usize, usize), ConfigError>(
                ConfigError::AlreadyStarted,
            ) && *final(self) == *old(self),
            !old(self)@.started && output_cycle == 0 ==> r == Err::<(usize, usize), ConfigError>(
                ConfigError::InvalidCycleLength,
            ) && *final(self) == *old(self),
            !old(self)@.started && output_cycle >= 1 && old(self)@.output_count == CAPACITY ==> r
                == Err::<(usize, usize), ConfigError>(ConfigError::CapacityExceeded) && *final(self)
                == *old(self),
            !old(self)@.started && output_cycle >= 1 && old(self)@.output_count < CAPACITY ==> {
                &&& r == Ok::<(usize, usize), ConfigError>(
                    (old(self).switches, old(self).outputs),
                )
                &&& final(self)@ == (ControllerModel {
                    switch_count: old(self)@.switch_count + 1,
                    output_count: old(self)@.output_count + 1,
                    cycles: old(self)@.cycles.update(old(self)@.output_count, output_cycle),
                    primary: old(self)@.primary.update(
                        old(self)@.switch_count,
                        old(self).outputs,
                    ),
                    has_long: old(self)@.has_long.update(old(self)@.switch_count, false),
                    ..old(self)@
                })
            },
    {
        if self.started {
            return Err(ConfigError::AlreadyStarted);
        }
        if output_cycle == 0 {
            return Err(ConfigError::InvalidCycleLength);
        }
        if self.outputs == CAPACITY {
            return Err(ConfigError::CapacityExceeded);
        }
        let switch_idx = self.switches;
        let output_idx = self.outputs;
        self.output_cycles.set(output_idx, output_cycle);
        self.primary.set(switch_idx, output_idx);
        self.has_long.set(switch_idx, false);
        self.switches = switch_idx + 1;
        self.outputs = output_idx + 1;
        Ok((switch_idx, output_idx))
    }

    /// Attaches a long-press action to the already registered switch
    /// `switch_idx`: a fresh output, cycling through `output_cycle` states,
    /// fires when the switch is held past the long-press threshold. Returns
    /// the switch index and the new output index. Rejected once operation
    /// has started, for an unregistered switch, for a switch that already
    /// has a long-press output, for a cycle length of zero, or when the
    /// capacity is exhausted; a rejected call changes nothing.
    pub fn augment_switch_longpress(&mut self, switch_idx: usize, output_cycle: u8) -> (r: Result<
        (usize, usize),
        ConfigError,
    >)
        requires
            old(self).wf(),
        ensures
            final(self).wf(),
            old(self)@.started ==> r == Err::<(usize, usize), ConfigError>(
                ConfigError::AlreadyStarted,
            ) && *final(self) == *old(self),
            !old(self)@.started && switch_idx >= old(self)@.switch_count ==> r == Err::<
                (usize, usize),
                ConfigError,
            >(ConfigError::UnknownSwitch) && *final(self) == *old(self),
            !old(self)@.started && switch_idx < old(self)@.switch_count && old(self)@.has_long[switch_idx as int] ==> r == Err::<(usize, usize), ConfigError>(ConfigError::LongPressAlreadyAttached)
                && *final(self) == *old(self),
            !old(self)@.started && switch_idx < old(self)@.switch_count && !old(self)@.has_long[switch_idx as int] && output_cycle == 0 ==> r == Err::<(usize, usize), ConfigError>(
                ConfigError::InvalidCycleLength,
            ) && *final(self) == *old(self),
            !old(self)@.started && switch_idx < old(self)@.switch_count && !old(self)@.has_long[switch_idx as int] && output_cycle >= 1 && old(self)@.output_count == CAPACITY ==> r == Err::<
                (usize, usize),
                ConfigError,
            >(ConfigError::CapacityExceeded) && *final(self) == *old(self),
            !old(self)@.started && switch_idx < old(self)@.switch_count && !old(self)@.has_long[switch_idx as int] && output_cycle >= 1 && old(self)@.output_count < CAPACITY ==> {
                &&& r == Ok::<(usize, usize), ConfigError>((switch_idx, old(self).outputs))
                &&& final(self)@ == (ControllerModel {
                    output_count: old(self)@.output_count + 1,
                    cycles: old(self)@.cycles.update(old(self)@.output_count, output_cycle),
                    has_long: old(self)@.has_long.update(switch_idx as int, true),
                    long_output: old(self)@.long_output.update(
                        switch_idx as int,
                        old(self).outputs,
                    ),
                    ..old(self)@
                })
            },
    {
        if self.started {
            return Err(ConfigError::AlreadyStarted);
        }
        if switch_idx >= self.switches {
            return Err(ConfigError::UnknownSwitch);
        }
        if self.has_long[switch_idx] {
            return Err(ConfigError::LongPressAlreadyAttached);
        }
        if output_cycle == 0 {
            return Err(ConfigError::InvalidCycleLength);
        }
        if self.outputs == CAPACITY {
            return Err(ConfigError::CapacityExceeded);
        }
        let output_idx = self.outputs;
        self.output_cycles.set(output_idx, output_cycle);
        self.has_long.set(switch_idx, true);
        self.long.set(switch_idx, output_idx);
        self.outputs = output_idx + 1;
        Ok((switch_idx, output_idx))
    }
    /// Fires output `o` once: its level advances by one, wrapping to zero at
    /// its cycle length; nothing else changes.
    fn bump_output(&mut self, o: usize)
        requires
            old(self).wf(),
            o < old(self)@.output_count,
        ensures
            final(self).wf(),
            final(self)@ == (ControllerModel {
                levels: bump_at(old(self)@.levels, old(self)@.cycles, o as int),
                ..old(self)@
            }),
    {
        let v = self.output[o];
        let c = self.output_cycles[o];
        let next: u8 = if v + 1 < c {
            v + 1
        } else {
            0
        };
        self.output.set(o, next);
        proof {
            assert(self@ =~= (ControllerModel {
                levels: bump_at(old(self)@.levels, old(self)@.cycles, o as int),
                ..old(self)@
            }));
        }
    }

    /// Processes one sample of the switch bank, taken at `now_ms` on a
    /// monotonic millisecond clock, and advances the classification by one
    /// transition. The first call closes the configuration.
    ///
    /// An accepted sample returns the output levels and the recognized state
    /// after the transition; an ambiguous one (several switches closed at
    /// once, or a change of closed switch while one was held) returns the
    /// unsupported-input fault and leaves state and outputs unchanged.
    pub fn report(&mut self, incoming: &Vec<bool>, now_ms: u64) -> (r: Result<
        (Vec<u8>, SwitchState),
        Fault,
    >)
        requires
            old(self).wf(),
            incoming@.len() == CAPACITY,
        ensures
            final(self).wf(),
            final(self)@ == old(self)@.step(incoming@, now_ms),
            r is Err <==> old(self)@.step_fault(incoming@),
            r is Err ==> r == Err::<(Vec<u8>, SwitchState), Fault>(Fault::UnsupportedInput),
            r matches Ok(out) ==> out.0@ == final(self)@.levels && out.1 == final(self)@.state,
    {
        let ghost m0 = old(self)@;
        self.started = true;
        let n = self.switches;
        let mut i: usize = 0;
        let mut closed: usize = 0;
        let mut first_closed: usize = 0;
        let mut second_closed: usize = 0;
        while i < n
            invariant
                i <= n,
                n == self.switches,
                n <= CAPACITY,
                incoming@.len() == CAPACITY,
                closed <= 2,
                closed == 0 ==> forall|j: int| 0 <= j < i ==> !incoming@[j],
                closed == 1 ==> first_closed < i && incoming@[first_closed as int] && forall|
                    j: int,
                |
                    0 <= j < i && j != first_closed ==> !incoming@[j],
                closed == 2 ==> first_closed < second_closed < i && incoming@[first_closed as int]
                    && incoming@[second_closed as int],
            decreases n - i,
        {
            if incoming[i] {
                if closed == 0 {
                    first_closed = i;
                    closed = 1;
                } else if closed == 1 {
                    second_closed = i;
                    closed = 2;
                }
            }
            i += 1;
        }
        proof {
            if closed == 0 {
                assert(none_closed(incoming@, n as int));
            }
            if closed == 1 {
                assert(only_closed(incoming@, n as int, first_closed as int));
                lemma_only_not_multiple(incoming@, n as int, first_closed as int);
                lemma_lone_index(incoming@, n as int, first_closed as int);
            }
            if closed == 2 {
                assert(multiple_closed(incoming@, n as int));
            }
        }
        match self.state {
            SwitchState::Idle => {
                if closed == 0 {
                    // remain idle; nothing fires
                } else if closed == 1 {
                    self.state = SwitchState::Holding {
                        pressed_switch: first_closed,
                        since: now_ms,
                    };
                } else {
                    proof {
                        assert(m0.step_fault(incoming@));
                        assert(self@ =~= m0.step(incoming@, now_ms));
                    }
                    return Err(Fault::UnsupportedInput);
                }
            },
            SwitchState::Holding { pressed_switch, since } => {
                if closed == 0 {
                    // released before the threshold: the short press fires
                    let o = self.primary[pressed_switch];
                    self.bump_output(o);
                    self.state = SwitchState::Idle;
                } else if closed == 1 && first_closed == pressed_switch {
                    let elapsed: u64 = if now_ms >= since {
                        now_ms - since
                    } else {
                        0
                    };
                    if self.has_long[pressed_switch] && elapsed >= self.long_closed {
                        // held past the threshold: the long press fires once
                        let o = self.long[pressed_switch];
                        self.bump_output(o);
                        self.state = SwitchState::LongHeld { pressed_switch };
                    }
                    // otherwise the hold goes on; nothing fires
                } else {
                    proof {
                        if closed == 1 {
                            assert(incoming@[first_closed as int]);
                        } else {
                            assert(first_closed != pressed_switch || second_closed
                                != pressed_switch);
                        }
                        assert(m0.step_fault(incoming@));
                        assert(self@ =~= m0.step(incoming@, now_ms));
                    }
                    return Err(Fault::UnsupportedInput);
                }
            },
            SwitchState::LongHeld { .. } => {
                if closed == 0 {
                    // full release ends the long press; nothing more fires
                    self.state = SwitchState::Idle;
                }
                // while anything stays closed the long press is simply held
            },
        }
        proof {
            assert(!m0.step_fault(incoming@));
            assert(self@ =~= m0.step(incoming@, now_ms));
        }
        let levels_out = copy_levels(&self.output);
        Ok((levels_out, self.state))
    }
}

impl Default for MomentaryController {
    /// A fresh controller, with no long-press attachments, holding the
    /// default long-press threshold and double-press window.
    fn default() -> (c: Self)
        ensures
            c.wf(),
            !c@.started,
            c@.state is Idle,
            c@.switch_count == 0,
            c@.output_count == 0,
            forall|o: int| 0 <= o < CAPACITY ==> c@.levels[o] == 0,
            forall|o: int| 0 <= o < CAPACITY ==> c@.cycles[o] == 0,
            forall|k: int| 0 <= k < CAPACITY ==> !c@.has_long[k],
            forall|k: int| 0 <= k < CAPACITY ==> c@.primary[k] == 0,
            forall|k: int| 0 <= k < CAPACITY ==> c@.long_output[k] == 0,
            c@.long_threshold_ms == DEFAULT_LONG_PRESS_MS,
            c@.double_window_ms == DEFAULT_DOUBLE_PRESS_MS,
    {
        MomentaryController::new(DEFAULT_DOUBLE_PRESS_MS, DEFAULT_LONG_PRESS_MS)
    }
}

} // verus!
