//! Laws of the classifier, proved over the model's `step` function.

use vstd::prelude::*;

use crate::model::bump;
use crate::model::bump_at;
use crate::model::elapsed_ms;
use crate::model::lemma_exactly_one;
use crate::model::lemma_lone_index;
use crate::model::lemma_only_not_multiple;
use crate::model::multiple_closed;
use crate::model::none_closed;
use crate::model::only_closed;
use crate::model::ControllerModel;
use crate::model::SwitchState;

verus! {

/// Idle is idempotent: an all-open sample in the idle state is accepted and
/// changes nothing but closing the configuration, so repeating it any number
/// of times keeps the controller exactly as after the first such sample.
pub proof fn lemma_idle_all_open_is_noop(
    m: ControllerModel,
    input: Seq<bool>,
    now1: u64,
    now2: u64,
)
    requires
        m.wf(),
        m.state is Idle,
        none_closed(input, m.switch_count),
    ensures
        !m.step_fault(input),
        m.step(input, now1) == (ControllerModel { started: true, ..m }),
        m.step(input, now1).step(input, now2) == m.step(input, now1),
{
    assert(m.step(input, now1) =~= (ControllerModel { started: true, ..m }));
    assert(m.step(input, now1).step(input, now2) =~= m.step(input, now1));
}

/// Every sample keeps the controller well formed: in particular every output
/// level stays below its cycle length, whatever the input vector holds.
pub proof fn lemma_step_preserves_wf(m: ControllerModel, input: Seq<bool>, now: u64)
    requires
        m.wf(),
    ensures
        m.step(input, now).wf(),
{
    if !m.step_fault(input) && m.state is Idle && !none_closed(input, m.switch_count) {
        lemma_exactly_one(input, m.switch_count);
    }
}

/// A single press and release toggles exactly once: from idle, closing
/// switch `k` alone and then reopening it before the long-press threshold
/// elapses fires the primary output of `k` exactly once — its level advances
/// by one, modulo its cycle length — returns the controller to idle, and
/// leaves every other output's level unchanged.
pub proof fn lemma_short_press_toggles_once(
    m: ControllerModel,
    k: int,
    press: Seq<bool>,
    release: Seq<bool>,
    t_press: u64,
    t_release: u64,
)
    requires
        m.wf(),
        m.state is Idle,
        only_closed(press, m.switch_count, k),
        none_closed(release, m.switch_count),
        elapsed_ms(t_press, t_release) < m.long_threshold_ms,
    ensures
        !m.step_fault(press),
        !m.step(press, t_press).step_fault(release),
        ({
            let p = m.primary[k] as int;
            let m2 = m.step(press, t_press).step(release, t_release);
            &&& m2.state is Idle
            &&& m2.levels == bump_at(m.levels, m.cycles, p)
            &&& m2.levels[p] == bump(m.levels[p], m.cycles[p])
            &&& forall|o: int| 0 <= o < m.output_count && o != p ==> m2.levels[o] == m.levels[o]
        }),
{
    lemma_only_not_multiple(press, m.switch_count, k);
    lemma_lone_index(press, m.switch_count, k);
    let m1 = m.step(press, t_press);
    assert(m1.state == (SwitchState::Holding { pressed_switch: k as usize, since: t_press }));
    assert(m1.levels == m.levels);
}

/// A long press fires once, not twice: with a long-press output attached to
/// switch `k` and `k` held alone since `since`, the sample at `t_fire` that
/// crosses the threshold fires the long-press output of `k` exactly once and
/// moves to `LongHeld`; every further sample in which any switch is still
/// closed is accepted and changes neither state nor any output level. Only a
/// full release, returning the controller to idle, can arm it again.
pub proof fn lemma_long_press_fires_once(
    m: ControllerModel,
    k: usize,
    since: u64,
    hold: Seq<bool>,
    t_fire: u64,
    later: Seq<bool>,
    t_later: u64,
)
    requires
        m.wf(),
        m.state == (SwitchState::Holding { pressed_switch: k, since: since }),
        m.has_long[k as int],
        only_closed(hold, m.switch_count, k as int),
        elapsed_ms(since, t_fire) >= m.long_threshold_ms,
        !none_closed(later, m.switch_count),
    ensures
        !m.step_fault(hold),
        ({
            let m1 = m.step(hold, t_fire);
            &&& m1.state == (SwitchState::LongHeld { pressed_switch: k })
            &&& m1.levels == bump_at(m.levels, m.cycles, m.long_output[k as int] as int)
            &&& !m1.step_fault(later)
            &&& m1.step(later, t_later).state == m1.state
            &&& m1.step(later, t_later).levels == m1.levels
        }),
{
}

/// A long press suppresses the short-press action: across the press of
/// switch `k`, the sample that crosses the threshold, and the release, the
/// primary output of `k` keeps its level; only the long-press output of `k`
/// has advanced, by exactly one step, and the controller ends idle.
pub proof fn lemma_long_press_suppresses_short(
    m: ControllerModel,
    k: int,
    press: Seq<bool>,
    t_press: u64,
    hold: Seq<bool>,
    t_fire: u64,
    release: Seq<bool>,
    t_release: u64,
)
    requires
        m.wf(),
        m.state is Idle,
        m.has_long[k],
        only_closed(press, m.switch_count, k),
        only_closed(hold, m.switch_count, k),
        elapsed_ms(t_press, t_fire) >= m.long_threshold_ms,
        none_closed(release, m.switch_count),
    ensures
        !m.step_fault(press),
        !m.step(press, t_press).step_fault(hold),
        !m.step(press, t_press).step(hold, t_fire).step_fault(release),
        ({
            let m3 = m.step(press, t_press).step(hold, t_fire).step(release, t_release);
            &&& m3.state is Idle
            &&& m3.levels[m.primary[k] as int] == m.levels[m.primary[k] as int]
            &&& m3.levels == bump_at(m.levels, m.cycles, m.long_output[k] as int)
        }),
{
    lemma_only_not_multiple(press, m.switch_count, k);
    lemma_lone_index(press, m.switch_count, k);
    let m1 = m.step(press, t_press);
    assert(m1.state == (SwitchState::Holding { pressed_switch: k as usize, since: t_press }));
    let m2 = m1.step(hold, t_fire);
    assert(m2.state == (SwitchState::LongHeld { pressed_switch: k as usize }));
    assert(m2.levels == bump_at(m.levels, m.cycles, m.long_output[k] as int));
    let m3 = m2.step(release, t_release);
    assert(m3.levels == m2.levels);
    assert(m.long_output[k] != m.primary[k]);
}

/// Ambiguity is reported, not guessed: a sample with two switches closed at
/// once, taken while idle, is the unsupported-input fault and changes
/// neither the state nor any output level.
pub proof fn lemma_simultaneous_closure_is_fault(
    m: ControllerModel,
    input: Seq<bool>,
    a: int,
    b: int,
    now: u64,
)
    requires
        m.wf(),
        m.state is Idle,
        0 <= a < b < m.switch_count,
        input[a],
        input[b],
    ensures
        m.step_fault(input),
        m.step(input, now).state == m.state,
        m.step(input, now).levels == m.levels,
{
    assert(multiple_closed(input, m.switch_count));
}

/// Cycle wraparound at the controller: for an output cycling through two
/// states, two consecutive short presses of its switch return it — and the
/// whole output vector — to its original value.
pub proof fn lemma_two_presses_restore_two_state_output(
    m: ControllerModel,
    k: int,
    press1: Seq<bool>,
    t1: u64,
    release1: Seq<bool>,
    t2: u64,
    press2: Seq<bool>,
    t3: u64,
    release2: Seq<bool>,
    t4: u64,
)
    requires
        m.wf(),
        m.state is Idle,
        m.cycles[m.primary[k] as int] == 2,
        only_closed(press1, m.switch_count, k),
        none_closed(release1, m.switch_count),
        only_closed(press2, m.switch_count, k),
        none_closed(release2, m.switch_count),
        elapsed_ms(t1, t2) < m.long_threshold_ms,
        elapsed_ms(t3, t4) < m.long_threshold_ms,
    ensures
        ({
            let m4 = m.step(press1, t1).step(release1, t2).step(press2, t3).step(release2, t4);
            &&& m4.state is Idle
            &&& m4.levels == m.levels
        }),
{
    lemma_short_press_toggles_once(m, k, press1, release1, t1, t2);
    lemma_step_preserves_wf(m, press1, t1);
    lemma_step_preserves_wf(m.step(press1, t1), release1, t2);
    let m2 = m.step(press1, t1).step(release1, t2);
    lemma_short_press_toggles_once(m2, k, press2, release2, t3, t4);
    let m4 = m2.step(press2, t3).step(release2, t4);
    assert(m4.levels =~= m.levels);
}

/// `times` consecutive firings of an output, as the level they leave it at.
pub open spec fn iter_bump(level: u8, cycle: u8, times: nat) -> u8
    decreases times,
{
    if times == 0 {
        level
    } else {
        bump(iter_bump(level, cycle, (times - 1) as nat), cycle)
    }
}

proof fn lemma_iter_bump_value(level: u8, cycle: u8, times: nat)
    requires
        1 <= cycle,
        level < cycle,
        times <= cycle,
    ensures
        iter_bump(level, cycle, times) == if level + times < cycle {
            (level + times) as u8
        } else {
            (level + times - cycle) as u8
        },
    decreases times,
{
    if times > 0 {
        lemma_iter_bump_value(level, cycle, (times - 1) as nat);
    }
}

/// Cycle wraparound: as many consecutive firings as the output has states
/// return it to its original level — two for an on/off output, four for a
/// four-level one.
pub proof fn lemma_cycle_wraparound(level: u8, cycle: u8)
    requires
        1 <= cycle,
        level < cycle,
    ensures
        iter_bump(level, cycle, cycle as nat) == level,
{
    lemma_iter_bump_value(level, cycle, cycle as nat);
}

} // verus!
