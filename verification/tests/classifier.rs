use momentary::ConfigError;
use momentary::Fault;
use momentary::MomentaryController;
use momentary::SwitchState;

fn press_and_release(c: &mut MomentaryController, sw: usize, t: u64) {
    let mut ins: Vec<bool> = vec![false; 16];
    ins[sw] = true;
    c.report(&ins, t).unwrap();
    ins[sw] = false;
    c.report(&ins, t + 100).unwrap();
}

#[test]
fn none_from_none() {
    let mut c: MomentaryController = Default::default();
    c.add_switch(2).unwrap();
    let ins: Vec<bool> = vec![false; 16];

    c.report(&ins, 0).unwrap();
    assert_eq!(c.output, vec![0u8; 16]);
    assert!(matches!(c.state, SwitchState::Idle));
}

#[test]
fn one_from_none() {
    let mut c: MomentaryController = Default::default();
    c.add_switch(2).unwrap();
    let mut ins: Vec<bool> = vec![false; 16];
    ins[0] = true;
    c.report(&ins, 0).unwrap();
    assert!(matches!(c.state, SwitchState::Holding { .. }));
    assert_eq!(c.output, vec![0u8; 16]);
}

fn state_one_from_scratch() -> (
    MomentaryController,
    usize,
    usize,
    Vec<bool>,
    Vec<u8>,
    SwitchState,
) {
    let mut c: MomentaryController = Default::default();
    let (sw0, out0) = c.add_switch(2).unwrap();
    let mut ins: Vec<bool> = vec![false; 16];
    ins[sw0] = true;
    let (output, state) = c.report(&ins, 0).unwrap();
    (c, sw0, out0, ins, output, state)
}

#[test]
fn validate_setup_state_one() {
    let (_c, sw0, out0, ins, output, state) = state_one_from_scratch();
    assert_eq!(sw0, 0);
    assert_eq!(out0, 0);
    assert!(matches!(state, SwitchState::Holding { .. }));
    assert!(ins[0]);
    assert_eq!(ins[1..], [false; 15]);
    assert_eq!(output, vec![0u8; 16]);
}

#[test]
fn one_from_one() {
    let (mut c, _sw0, _out0, ins, _output, _state) = state_one_from_scratch();

    // repeat same input
    let (output, state) = c.report(&ins, 100).unwrap();

    assert!(matches!(state, SwitchState::Holding { .. }));
    assert!(ins[0]);
    assert_eq!(ins[1..], [false; 15]);
    assert_eq!(output, vec![0u8; 16]);
}

#[test]
fn none_from_one() {
    let (mut c, _sw0, out0, mut ins, _output, _state) = state_one_from_scratch();

    // open the switch
    ins[0] = false;
    let (output, state) = c.report(&ins, 100).unwrap();

    assert!(matches!(state, SwitchState::Idle));
    assert_eq!(output[out0], 1);
    assert_eq!(c.output[1..], [0; 15]);
}

#[test]
fn idle_repeats_unchanged() {
    let mut c = MomentaryController::new(500, 1500);
    c.add_switch(2).unwrap();
    let ins: Vec<bool> = vec![false; 16];
    for t in 0..5u64 {
        let (out, state) = c.report(&ins, t * 100).unwrap();
        assert_eq!(out, vec![0u8; 16]);
        assert!(matches!(state, SwitchState::Idle));
    }
}

#[test]
fn short_press_toggles_exactly_once() {
    let mut c = MomentaryController::new(500, 1500);
    let (_sw0, out0) = c.add_switch(2).unwrap();
    let (sw1, out1) = c.add_switch(4).unwrap();
    let mut ins: Vec<bool> = vec![false; 16];
    ins[sw1] = true;
    c.report(&ins, 0).unwrap();
    ins[sw1] = false;
    let (out, state) = c.report(&ins, 200).unwrap();
    assert!(matches!(state, SwitchState::Idle));
    assert_eq!(out[out1], 1);
    assert_eq!(out[out0], 0);
}

#[test]
fn cycle_wraparound_two_and_four() {
    let mut c = MomentaryController::new(500, 1500);
    let (sw0, out0) = c.add_switch(2).unwrap();
    let (sw1, out1) = c.add_switch(4).unwrap();

    press_and_release(&mut c, sw0, 0);
    assert_eq!(c.output[out0], 1);
    press_and_release(&mut c, sw0, 1000);
    assert_eq!(c.output[out0], 0);

    press_and_release(&mut c, sw1, 2000);
    assert_eq!(c.output[out1], 1);
    press_and_release(&mut c, sw1, 3000);
    assert_eq!(c.output[out1], 2);
    press_and_release(&mut c, sw1, 4000);
    assert_eq!(c.output[out1], 3);
    press_and_release(&mut c, sw1, 5000);
    assert_eq!(c.output[out1], 0);
}

#[test]
fn long_press_fires_once_not_twice() {
    let mut c = MomentaryController::new(500, 1500);
    let (sw0, _out0) = c.add_switch(2).unwrap();
    let (_k, outl) = c.augment_switch_longpress(sw0, 3).unwrap();
    let mut ins: Vec<bool> = vec![false; 16];
    ins[sw0] = true;
    c.report(&ins, 0).unwrap();
    let (out, state) = c.report(&ins, 1600).unwrap();
    assert!(matches!(state, SwitchState::LongHeld { .. }));
    assert_eq!(out[outl], 1);

    // holding on, for any further duration, must not fire again
    let (out, state) = c.report(&ins, 5000).unwrap();
    assert!(matches!(state, SwitchState::LongHeld { .. }));
    assert_eq!(out[outl], 1);
    let (out, state) = c.report(&ins, 100_000).unwrap();
    assert!(matches!(state, SwitchState::LongHeld { .. }));
    assert_eq!(out[outl], 1);

    // only releasing and pressing anew can fire it again
    ins[sw0] = false;
    c.report(&ins, 100_100).unwrap();
    ins[sw0] = true;
    c.report(&ins, 100_200).unwrap();
    let (out, state) = c.report(&ins, 102_000).unwrap();
    assert!(matches!(state, SwitchState::LongHeld { .. }));
    assert_eq!(out[outl], 2);
}

#[test]
fn long_press_suppresses_short_action() {
    let mut c = MomentaryController::new(500, 1500);
    let (sw0, out0) = c.add_switch(2).unwrap();
    let (_k, outl) = c.augment_switch_longpress(sw0, 3).unwrap();
    let mut ins: Vec<bool> = vec![false; 16];
    ins[sw0] = true;
    c.report(&ins, 0).unwrap();
    c.report(&ins, 2000).unwrap();
    ins[sw0] = false;
    let (out, state) = c.report(&ins, 2100).unwrap();
    assert!(matches!(state, SwitchState::Idle));
    assert_eq!(out[out0], 0);
    assert_eq!(out[outl], 1);
}

#[test]
fn simultaneous_closure_reports_fault() {
    let mut c = MomentaryController::new(500, 1500);
    c.add_switch(2).unwrap();
    c.add_switch(2).unwrap();
    let mut ins: Vec<bool> = vec![false; 16];
    ins[0] = true;
    ins[1] = true;
    let r = c.report(&ins, 0);
    assert_eq!(r, Err(Fault::UnsupportedInput));
    assert_eq!(c.output, vec![0u8; 16]);
    assert!(matches!(c.state, SwitchState::Idle));
}

#[test]
fn switch_change_while_held_reports_fault() {
    let mut c = MomentaryController::new(500, 1500);
    let (sw0, _) = c.add_switch(2).unwrap();
    let (sw1, _) = c.add_switch(2).unwrap();
    let mut ins: Vec<bool> = vec![false; 16];
    ins[sw0] = true;
    c.report(&ins, 0).unwrap();

    // a simultaneous release of one switch and press of another is reported,
    // not guessed at
    ins[sw0] = false;
    ins[sw1] = true;
    let r = c.report(&ins, 100);
    assert_eq!(r, Err(Fault::UnsupportedInput));
    assert!(matches!(c.state, SwitchState::Holding { .. }));
    assert_eq!(c.output, vec![0u8; 16]);

    // a second switch closing beside the held one is reported too
    ins[sw0] = true;
    let r = c.report(&ins, 200);
    assert_eq!(r, Err(Fault::UnsupportedInput));
    assert_eq!(c.output, vec![0u8; 16]);
}

#[test]
fn configuration_locks_after_first_sample() {
    let mut c = MomentaryController::new(500, 1500);
    let (sw0, _) = c.add_switch(2).unwrap();
    let ins: Vec<bool> = vec![false; 16];
    c.report(&ins, 0).unwrap();

    assert_eq!(c.add_switch(2), Err(ConfigError::AlreadyStarted));
    assert_eq!(
        c.augment_switch_longpress(sw0, 2),
        Err(ConfigError::AlreadyStarted)
    );

    // prior configuration and state are untouched and still operate
    assert_eq!(c.switches, 1);
    assert_eq!(c.outputs, 1);
    assert!(matches!(c.state, SwitchState::Idle));
    press_and_release(&mut c, sw0, 100);
    assert_eq!(c.output[0], 1);
}

#[test]
fn config_reference_errors_are_reported() {
    let mut c = MomentaryController::new(500, 1500);
    assert_eq!(c.add_switch(0), Err(ConfigError::InvalidCycleLength));
    assert_eq!(
        c.augment_switch_longpress(0, 2),
        Err(ConfigError::UnknownSwitch)
    );
    let (sw0, _) = c.add_switch(2).unwrap();
    assert_eq!(
        c.augment_switch_longpress(sw0, 0),
        Err(ConfigError::InvalidCycleLength)
    );
    c.augment_switch_longpress(sw0, 2).unwrap();
    assert_eq!(
        c.augment_switch_longpress(sw0, 2),
        Err(ConfigError::LongPressAlreadyAttached)
    );
}

#[test]
fn capacity_is_bounded() {
    let mut c = MomentaryController::new(500, 1500);
    for _ in 0..16 {
        c.add_switch(2).unwrap();
    }
    assert_eq!(c.add_switch(2), Err(ConfigError::CapacityExceeded));
    assert_eq!(
        c.augment_switch_longpress(0, 2),
        Err(ConfigError::CapacityExceeded)
    );
}

#[test]
fn end_to_end_long_press_scenario() {
    let mut c = MomentaryController::new(500, 1500);
    let (sw0, out0) = c.add_switch(2).unwrap();
    let (_k, outl) = c.augment_switch_longpress(sw0, 3).unwrap();
    assert_eq!((sw0, out0, outl), (0, 0, 1));
    let mut ins: Vec<bool> = vec![false; 16];

    let (out, state) = c.report(&ins, 0).unwrap();
    assert!(matches!(state, SwitchState::Idle));
    assert_eq!(&out[..2], &[0, 0]);

    ins[0] = true;
    let (_out, state) = c.report(&ins, 0).unwrap();
    assert!(matches!(state, SwitchState::Holding { .. }));

    let (out, state) = c.report(&ins, 1000).unwrap();
    assert!(matches!(state, SwitchState::Holding { .. }));
    assert_eq!(&out[..2], &[0, 0]);

    let (out, state) = c.report(&ins, 1600).unwrap();
    assert!(matches!(state, SwitchState::LongHeld { .. }));
    assert_eq!(&out[..2], &[0, 1]);

    ins[0] = false;
    let (out, state) = c.report(&ins, 1700).unwrap();
    assert!(matches!(state, SwitchState::Idle));
    assert_eq!(&out[..2], &[0, 1]);
}

#[test]
fn registration_order_assigns_shared_output_indices() {
    let mut c = MomentaryController::new(500, 1500);
    assert_eq!(c.add_switch(2), Ok((0, 0)));
    assert_eq!(c.augment_switch_longpress(0, 2), Ok((0, 1)));
    assert_eq!(c.add_switch(5), Ok((1, 2)));

    // the second switch's primary output is slot 2, past the long-press slot
    let mut ins: Vec<bool> = vec![false; 16];
    ins[1] = true;
    c.report(&ins, 0).unwrap();
    ins[1] = false;
    let (out, _) = c.report(&ins, 100).unwrap();
    assert_eq!(&out[..3], &[0, 0, 1]);
}
