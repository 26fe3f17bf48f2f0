use atlas::bootstrap::Stage;
use atlas::lifecycle::Phase;

#[test]
fn the_phases_come_in_order() {
    let mut stage = Stage::Unstarted;
    let mut phases = Vec::new();
    while let Some(phase) = stage.next_phase() {
        phases.push(phase);
        stage = stage.after(true);
    }
    assert_eq!(
        phases,
        vec![
            Phase::InitCore,
            Phase::InitCustom,
            Phase::StartCore,
            Phase::StartCustom,
            Phase::StopCustom,
            Phase::StopCore,
        ]
    );
    assert_eq!(stage, Stage::CoreStopped);
    assert_eq!(stage.after(true), Stage::CoreStopped);
}

#[test]
fn the_server_is_served_once_every_module_was_started() {
    let stages = [
        Stage::Unstarted,
        Stage::CoreInitialized,
        Stage::CustomInitialized,
        Stage::CoreStarted,
        Stage::CustomStopped,
        Stage::CoreStopped,
        Stage::Aborted,
    ];
    for stage in stages {
        assert!(!stage.serves());
    }
    assert!(Stage::CustomStarted.serves());
}

#[test]
fn a_failure_on_the_way_up_aborts() {
    for stage in [
        Stage::Unstarted,
        Stage::CoreInitialized,
        Stage::CustomInitialized,
        Stage::CoreStarted,
    ] {
        let aborted = stage.after(false);
        assert_eq!(aborted, Stage::Aborted);
        assert_eq!(aborted.next_phase(), None);
        assert!(!aborted.serves());
        assert_eq!(aborted.after(true), Stage::Aborted);
    }
}

#[test]
fn a_failure_on_the_way_down_does_not_hold_the_shutdown_up() {
    let stage = Stage::CustomStarted.after(false);
    assert_eq!(stage, Stage::CustomStopped);
    assert_eq!(stage.next_phase(), Some(Phase::StopCore));
    assert_eq!(stage.after(false), Stage::CoreStopped);
}
