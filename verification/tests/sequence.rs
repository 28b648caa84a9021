use fan_light::sequence::Controller;
use fan_light::sequence::Phase;

#[test]
fn boot_indication_runs_off_red_yellow_green() {
    let mut ctl = Controller::new(2500, 500000);
    assert_eq!(ctl.phase, Phase::Start);
    assert!(!ctl.light.red && !ctl.light.yellow && !ctl.light.green);

    let d1: u32 = ctl.step();
    assert_eq!(d1, 2000);
    assert_eq!(ctl.phase, Phase::BootRed);
    assert!(ctl.light.red && !ctl.light.yellow && !ctl.light.green);

    let d2: u32 = ctl.step();
    assert_eq!(d2, 2000);
    assert_eq!(ctl.phase, Phase::BootYellow);
    assert!(!ctl.light.red && ctl.light.yellow && !ctl.light.green);

    let d3: u32 = ctl.step();
    assert_eq!(d3, 0);
    assert_eq!(ctl.phase, Phase::BootGreen);
    assert!(!ctl.light.red && !ctl.light.yellow && ctl.light.green);
}

#[test]
fn motor_cycle_runs_forward_stop_backward_stop() {
    let mut ctl = Controller::new(2500, 500000);
    let mut i: u32 = 0;
    while i < 3 {
        ctl.step();
        i += 1;
    }

    let d4: u32 = ctl.step();
    assert_eq!(d4, 5000);
    assert_eq!(ctl.phase, Phase::DrivingForward);
    assert!(ctl.fan.enabled);
    assert_eq!(ctl.fan.forward_duty, 800);
    assert_eq!(ctl.fan.backward_duty, 0);
    assert!(ctl.light.green);

    let d5: u32 = ctl.step();
    assert_eq!(d5, 5000);
    assert_eq!(ctl.phase, Phase::Resting);
    assert!(!ctl.fan.enabled);
    assert!(ctl.light.green);

    let d6: u32 = ctl.step();
    assert_eq!(d6, 5000);
    assert_eq!(ctl.phase, Phase::DrivingBackward);
    assert!(ctl.fan.enabled);
    assert_eq!(ctl.fan.backward_duty, 800);
    assert_eq!(ctl.fan.forward_duty, 0);
    assert!(ctl.light.green);

    let d7: u32 = ctl.step();
    assert_eq!(d7, 500000);
    assert_eq!(ctl.phase, Phase::Halted);
    assert!(!ctl.fan.enabled);
    assert!(ctl.light.red && !ctl.light.yellow && !ctl.light.green);
}

#[test]
fn halted_sequence_idles_forever_on_red() {
    let mut ctl = Controller::new(2500, 500000);
    let mut i: u32 = 0;
    while i < 7 {
        ctl.step();
        i += 1;
    }
    assert_eq!(ctl.phase, Phase::Halted);
    let mut j: u32 = 0;
    while j < 5 {
        let d: u32 = ctl.step();
        assert_eq!(d, 500000);
        assert_eq!(ctl.phase, Phase::Halted);
        assert!(!ctl.fan.enabled);
        assert!(ctl.light.red && !ctl.light.yellow && !ctl.light.green);
        j += 1;
    }
}

#[test]
fn channels_never_both_nonzero_over_whole_run() {
    let mut ctl = Controller::new(2500, 500000);
    let mut i: u32 = 0;
    while i < 10 {
        ctl.step();
        assert!(ctl.fan.forward_duty == 0 || ctl.fan.backward_duty == 0);
        i += 1;
    }
}

#[test]
fn well_formedness_holds_through_the_run() {
    let mut ctl = Controller::new(2500, 500000);
    assert!(ctl.is_wf());
    let mut i: u32 = 0;
    while i < 10 {
        ctl.step();
        assert!(ctl.is_wf());
        i += 1;
    }
}

#[test]
fn well_formedness_check_rejects_a_disturbed_state() {
    let mut ctl = Controller::new(2500, 500000);
    let mut i: u32 = 0;
    while i < 4 {
        ctl.step();
        i += 1;
    }
    assert_eq!(ctl.phase, Phase::DrivingForward);
    ctl.fan.stop();
    assert!(!ctl.is_wf());
}
