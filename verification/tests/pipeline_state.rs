use stadium_eq::config::{PipelineConfig, PipelineState};
use stadium_eq::pipeline::{FrameAction, PipelineStateMachine};

fn config_with_calibration(ms: u32) -> PipelineConfig {
    PipelineConfig {
        calibration_duration_ms: ms,
        ..PipelineConfig::default()
    }
}

#[test]
fn new_machine_is_idle_and_passes_through() {
    let mut sm = PipelineStateMachine::new(PipelineConfig::default());
    assert_eq!(*sm.get_state(), PipelineState::Idle);
    for _ in 0..3 {
        assert_eq!(sm.advance(), FrameAction::PassThrough);
        assert_eq!(*sm.get_state(), PipelineState::Idle);
    }
}

#[test]
fn bypass_passes_through_and_leaves_to_processing() {
    let mut sm = PipelineStateMachine::new(PipelineConfig::default());
    sm.set_bypass(true);
    assert_eq!(*sm.get_state(), PipelineState::Bypassed);
    assert_eq!(sm.advance(), FrameAction::PassThrough);
    assert_eq!(*sm.get_state(), PipelineState::Bypassed);
    sm.set_bypass(false);
    assert_eq!(*sm.get_state(), PipelineState::Processing);
    assert_eq!(sm.advance(), FrameAction::Process);
}

#[test]
fn default_calibration_targets_seven_seconds() {
    let mut sm = PipelineStateMachine::new(PipelineConfig::default());
    sm.start_calibration();
    // 7000 ms at 48 kHz in hops of 480 samples.
    assert_eq!(
        *sm.get_state(),
        PipelineState::Calibrating {
            frames_collected: 0,
            target_frames: 700
        }
    );
}

#[test]
fn calibration_collects_and_transitions() {
    let mut sm = PipelineStateMachine::new(config_with_calibration(100));
    sm.start_calibration();
    assert_eq!(
        *sm.get_state(),
        PipelineState::Calibrating {
            frames_collected: 0,
            target_frames: 10
        }
    );
    for k in 1..10usize {
        assert_eq!(sm.advance(), FrameAction::Calibrate { finalize: false });
        assert_eq!(
            *sm.get_state(),
            PipelineState::Calibrating {
                frames_collected: k,
                target_frames: 10
            }
        );
    }
    assert_eq!(sm.advance(), FrameAction::Calibrate { finalize: true });
    assert_eq!(*sm.get_state(), PipelineState::Processing);
    assert_eq!(sm.advance(), FrameAction::Process);
}

#[test]
fn short_calibration_finalizes_on_first_frame() {
    let mut sm = PipelineStateMachine::new(config_with_calibration(0));
    sm.start_calibration();
    assert_eq!(
        *sm.get_state(),
        PipelineState::Calibrating {
            frames_collected: 0,
            target_frames: 0
        }
    );
    assert_eq!(sm.advance(), FrameAction::Calibrate { finalize: true });
    assert_eq!(*sm.get_state(), PipelineState::Processing);
}

#[test]
fn restarting_calibration_resets_count() {
    let mut sm = PipelineStateMachine::new(config_with_calibration(50));
    sm.start_calibration();
    sm.advance();
    sm.advance();
    sm.start_calibration();
    assert_eq!(
        *sm.get_state(),
        PipelineState::Calibrating {
            frames_collected: 0,
            target_frames: 5
        }
    );
}

#[test]
fn config_is_kept() {
    let cfg = config_with_calibration(1234);
    let mut sm = PipelineStateMachine::new(cfg);
    sm.start_calibration();
    sm.advance();
    assert_eq!(*sm.config(), cfg);
}
