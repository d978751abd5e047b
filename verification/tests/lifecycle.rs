use forcedmode::faulty::FaultyHardware;
use forcedmode::mock::MockHardware;
use forcedmode::orchestration::{dance_hardware, Run};
use forcedmode::{ConfigureMode, Mode, OperateMode, StandbyMode};

fn test_hardware<H: StandbyMode>(mut hardware: H) -> anyhow::Result<()> {
    let configure = hardware.configure().map_err(|me| me.error)?;
    hardware = configure.standby();
    let operate = hardware.operate().map_err(|me| me.error)?;
    hardware = operate.standby();
    drop(hardware);
    Ok(())
}

#[test]
fn lib_test_mock() {
    assert!(test_hardware(MockHardware::new()).is_ok());
}

#[test]
fn mock_test_mock() {
    assert!(test_hardware(MockHardware::default()).is_ok());
}

#[test]
fn faulty_hardware_fails_the_hand_written_script() {
    let outcome = test_hardware(FaultyHardware::new(1, true, false));
    assert_eq!(outcome.unwrap_err().to_string(), "configure failed");
    let outcome = test_hardware(FaultyHardware::new(1, false, true));
    assert_eq!(outcome.unwrap_err().to_string(), "operate failed");
    assert!(test_hardware(FaultyHardware::new(1, false, false)).is_ok());
}

#[test]
fn mode_labels_are_fixed() {
    assert_eq!(Mode::Standby.label(), "standby");
    assert_eq!(Mode::Configure.label(), "configure");
    assert_eq!(Mode::Operate.label(), "operate");
}

#[test]
fn each_role_names_its_own_state() {
    let hardware = MockHardware::with_id(3);
    assert_eq!(hardware.state(), "standby");
    let Ok(configure) = hardware.configure() else { panic!("the mock never fails") };
    assert_eq!(configure.state(), "configure");
    let hardware = configure.standby();
    assert_eq!(hardware.state(), "standby");
    let Ok(operate) = hardware.operate() else { panic!("the mock never fails") };
    assert_eq!(operate.state(), "operate");
    assert_eq!(operate.standby().state(), "standby");
}

#[test]
fn mock_keeps_its_identity_through_every_transition() {
    let hardware = MockHardware::with_id(41);
    assert_eq!(hardware.id(), 41);
    let Ok(configure) = hardware.configure() else { panic!("the mock never fails") };
    assert_eq!(configure.id(), 41);
    let Ok(operate) = configure.standby().operate() else { panic!("the mock never fails") };
    assert_eq!(operate.id(), 41);
    assert_eq!(operate.standby().id(), 41);
}

#[test]
fn new_and_default_mock_are_resource_zero() {
    assert_eq!(MockHardware::new().id(), 0);
    assert_eq!(MockHardware::default().id(), 0);
}

#[test]
fn dance_on_the_mock_ends_at_rest_with_the_same_device() {
    let report = dance_hardware(MockHardware::with_id(7));
    assert_eq!(report.observed, vec!["configure", "operate", "standby"]);
    let Ok(hardware) = report.outcome else { panic!("the mock never fails") };
    assert_eq!(hardware.id(), 7);
    assert_eq!(hardware.state(), "standby");
}

#[test]
fn dance_stops_at_a_blocked_configure_and_returns_the_device() {
    let report = dance_hardware(FaultyHardware::new(9, true, false));
    assert!(report.observed.is_empty());
    let Err(failure) = report.outcome else { panic!("configure is blocked") };
    assert_eq!(failure.error.to_string(), "configure failed");
    assert_eq!(failure.me.id(), 9);
    assert_eq!(failure.me.state(), "standby");
}

#[test]
fn dance_stops_at_a_blocked_operate_and_returns_the_device() {
    let report = dance_hardware(FaultyHardware::new(9, false, true));
    assert_eq!(report.observed, vec!["configure"]);
    let Err(failure) = report.outcome else { panic!("operate is blocked") };
    assert_eq!(failure.error.to_string(), "operate failed");
    assert_eq!(failure.me.id(), 9);
    assert_eq!(failure.me.state(), "standby");
}

#[test]
fn device_from_a_failure_can_be_danced_again() {
    let report = dance_hardware(FaultyHardware::new(5, true, true));
    let Err(failure) = report.outcome else { panic!("configure is blocked") };
    // Still blocked: the same failure again, with the device intact.
    let report = dance_hardware(failure.me);
    let Err(failure) = report.outcome else { panic!("configure is blocked") };
    assert_eq!(failure.me.id(), 5);
    // Mended: the whole script runs.
    let report = dance_hardware(failure.me.mended());
    assert_eq!(report.observed, vec!["configure", "operate", "standby"]);
    let Ok(hardware) = report.outcome else { panic!("nothing is blocked") };
    assert_eq!(hardware.id(), 5);
}

#[test]
fn unblocked_faulty_hardware_never_fails() {
    let report = dance_hardware(FaultyHardware::new(2, false, false));
    assert!(report.outcome.is_ok());
    assert_eq!(report.observed, vec!["configure", "operate", "standby"]);
}

#[test]
fn run_goes_through_the_script_one_transition_at_a_time() {
    let mut run = Run::begin(MockHardware::with_id(11));
    let mut states = vec![run.state()];
    let mut announced = Vec::new();
    assert!(run.announcement().is_none());
    while !run.is_done() {
        run = match run.advance() {
            Ok(next) => next,
            Err(_) => panic!("the mock never fails"),
        };
        states.push(run.state());
        if let Some(label) = run.announcement() {
            announced.push(label);
        }
    }
    assert_eq!(states, vec!["standby", "configure", "standby", "operate", "standby"]);
    assert_eq!(announced, vec!["configure", "operate", "standby"]);
    assert_eq!(run.release().id(), 11);
}

#[test]
fn finished_run_stays_finished() {
    let mut run = Run::begin(MockHardware::with_id(1));
    for _ in 0..4 {
        let Ok(next) = run.advance() else { panic!("the mock never fails") };
        run = next;
    }
    assert!(run.is_done());
    let Ok(run) = run.advance() else { panic!("a finished run cannot fail") };
    assert!(run.is_done());
    assert_eq!(run.state(), "standby");
}

#[test]
fn run_released_midway_hands_the_device_out_at_rest() {
    let run = Run::begin(MockHardware::with_id(8));
    let Ok(run) = run.advance() else { panic!("the mock never fails") };
    assert_eq!(run.state(), "configure");
    let hardware = run.release();
    assert_eq!(hardware.state(), "standby");
    assert_eq!(hardware.id(), 8);

    let mut run = Run::begin(hardware);
    for _ in 0..3 {
        let Ok(next) = run.advance() else { panic!("the mock never fails") };
        run = next;
    }
    assert_eq!(run.state(), "operate");
    assert_eq!(run.release().id(), 8);
}

#[test]
fn run_fails_only_from_rest_and_returns_the_handle() {
    let run = Run::begin(FaultyHardware::new(6, false, true));
    let Ok(run) = run.advance() else { panic!("configure is open") };
    let Ok(run) = run.advance() else { panic!("the way back is always open") };
    assert_eq!(run.state(), "standby");
    assert!(!run.is_done());
    let Err(failure) = run.advance() else { panic!("operate is blocked") };
    assert_eq!(failure.me.id(), 6);
    assert_eq!(failure.error.to_string(), "operate failed");
}

#[test]
fn run_names_the_mode_that_comes_next() {
    let mut run = Run::begin(MockHardware::with_id(12));
    let mut upcoming = Vec::new();
    while let Some(mode) = run.upcoming() {
        upcoming.push(mode);
        let Ok(next) = run.advance() else { panic!("the mock never fails") };
        run = next;
    }
    assert_eq!(upcoming, vec![Mode::Configure, Mode::Standby, Mode::Operate, Mode::Standby]);
    assert!(run.is_done());
    assert!(run.upcoming().is_none());
}
