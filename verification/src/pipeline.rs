use vstd::prelude::*;

use crate::config::{PipelineConfig, PipelineState};

verus! {

/// What the signal path has to do with the frame that is being processed.
#[derive(Debug, Clone, Copy, PartialEq, Eq, Structural)]
pub enum FrameAction {
    /// Copy the input to the output unchanged (idle or bypassed).
    PassThrough,
    /// Feed the frame's spectrum to the noise profiler and the noise
    /// estimator and pass the audio through unchanged. When `finalize` is
    /// set, enough frames have been collected: finalize the calibration
    /// (run the tuner and apply its preset).
    Calibrate { finalize: bool },
    /// Run the full signal chain.
    Process,
}

/// Number of hop-sized frames that a calibration of `duration_ms` at
/// `sample_rate` collects.
pub open spec fn calibration_target(config: PipelineConfig) -> int {
    (config.calibration_duration_ms * config.sample_rate) / (config.hop_size * 1000)
}

/// Whether `start_calibration` can compute the target without dividing by
/// zero or leaving `usize`.
pub open spec fn calibration_computable(config: PipelineConfig) -> bool {
    &&& config.hop_size > 0
    &&& config.hop_size * 1000 <= usize::MAX
    &&& config.calibration_duration_ms * config.sample_rate <= usize::MAX
}

/// A state that the pipeline can be in: a calibration has not yet
/// collected its target, unless it has collected nothing.
pub open spec fn reachable(s: PipelineState) -> bool {
    match s {
        PipelineState::Calibrating { frames_collected, target_frames } => frames_collected == 0
            || frames_collected < target_frames,
        _ => true,
    }
}

/// One frame: the next state and what to do with the frame.
pub open spec fn step(s: PipelineState) -> (PipelineState, FrameAction) {
    match s {
        PipelineState::Idle => (PipelineState::Idle, FrameAction::PassThrough),
        PipelineState::Bypassed => (PipelineState::Bypassed, FrameAction::PassThrough),
        PipelineState::Processing => (PipelineState::Processing, FrameAction::Process),
        PipelineState::Calibrating { frames_collected, target_frames } => {
            if frames_collected + 1 >= target_frames {
                (PipelineState::Processing, FrameAction::Calibrate { finalize: true })
            } else {
                (
                    PipelineState::Calibrating {
                        frames_collected: (frames_collected + 1) as usize,
                        target_frames,
                    },
                    FrameAction::Calibrate { finalize: false },
                )
            }
        },
    }
}

/// The state after `n` frames.
pub open spec fn run(s: PipelineState, n: nat) -> PipelineState
    decreases n,
{
    if n == 0 {
        s
    } else {
        step(run(s, (n - 1) as nat)).0
    }
}

/// The action taken on the `k`-th frame (counting from 1).
pub open spec fn action_at(s: PipelineState, k: nat) -> FrameAction
    recommends
        k >= 1,
{
    step(run(s, (k - 1) as nat)).1
}

/// The pipeline's state and the transitions between its states: idle,
/// calibrating, processing and bypassed.
pub struct PipelineStateMachine {
    config: PipelineConfig,
    state: PipelineState,
}

impl PipelineStateMachine {
    #[verifier::type_invariant]
    spec fn inv(self) -> bool {
        reachable(self.state)
    }

    pub closed spec fn spec_state(&self) -> PipelineState {
        self.state
    }

    pub closed spec fn spec_config(&self) -> PipelineConfig {
        self.config
    }

    /// A state machine for `config`, idle.
    pub fn new(config: PipelineConfig) -> (r: Self)
        ensures
            r.spec_state() == PipelineState::Idle,
            r.spec_config() == config,
    {
        PipelineStateMachine { config, state: PipelineState::Idle }
    }

    /// The current state.
    pub fn get_state(&self) -> (r: &PipelineState)
        ensures
            *r == self.spec_state(),
            reachable(*r),
    {
        proof { use_type_invariant(self); }
        &self.state
    }

    /// The configuration.
    pub fn config(&self) -> (r: &PipelineConfig)
        ensures
            *r == self.spec_config(),
    {
        &self.config
    }

    /// Begin the calibration phase.
    ///
    /// The number of target frames is derived from `calibration_duration_ms`,
    /// `sample_rate` and `hop_size`.
    pub fn start_calibration(&mut self)
        requires
            calibration_computable(old(self).spec_config()),
        ensures
            final(self).spec_config() == old(self).spec_config(),
            final(self).spec_state() == (PipelineState::Calibrating {
                frames_collected: 0,
                target_frames: calibration_target(old(self).spec_config()) as usize,
            }),
            calibration_target(old(self).spec_config()) <= usize::MAX,
            final(self).spec_state() matches PipelineState::Calibrating {
                frames_collected,
                target_frames,
            } && frames_collected == 0 && target_frames * (old(self).spec_config().hop_size * 1000)
                <= old(self).spec_config().calibration_duration_ms * old(
                self,
            ).spec_config().sample_rate && old(self).spec_config().calibration_duration_ms * old(
                self,
            ).spec_config().sample_rate < (target_frames + 1) * (old(self).spec_config().hop_size
                * 1000),
    {
        proof { lemma_calibration_target_covers(self.config); }
        let ms = self.config.calibration_duration_ms as usize;
        let sr = self.config.sample_rate as usize;
        let hop = self.config.hop_size;
        assert(ms * sr == self.config.calibration_duration_ms * self.config.sample_rate);
        let target_frames = (ms * sr) / (hop * 1000);
        assert(target_frames <= ms * sr) by (nonlinear_arith)
            requires
                target_frames == (ms * sr) / (hop * 1000),
                hop * 1000 >= 1,
                ms * sr >= 0,
        ;
        self.state = PipelineState::Calibrating { frames_collected: 0, target_frames };
    }

    /// Enable or disable bypass mode. Disabling bypass returns to `Processing`.
    pub fn set_bypass(&mut self, bypass: bool)
        ensures
            final(self).spec_config() == old(self).spec_config(),
            final(self).spec_state() == if bypass {
                PipelineState::Bypassed
            } else {
                PipelineState::Processing
            },
    {
        self.state = if bypass {
            PipelineState::Bypassed
        } else {
            PipelineState::Processing
        };
    }

    /// Account for one frame: returns what the signal path has to do with it
    /// and moves to the next state.
    pub fn advance(&mut self) -> (a: FrameAction)
        ensures
            final(self).spec_config() == old(self).spec_config(),
            (final(self).spec_state(), a) == step(old(self).spec_state()),
    {
        proof { use_type_invariant(&*self); }
        match self.state {
            PipelineState::Idle | PipelineState::Bypassed => FrameAction::PassThrough,
            PipelineState::Calibrating { frames_collected, target_frames } => {
                let new_collected = frames_collected + 1;
                if new_collected >= target_frames {
                    self.state = PipelineState::Processing;
                    FrameAction::Calibrate { finalize: true }
                } else {
                    self.state = PipelineState::Calibrating {
                        frames_collected: new_collected,
                        target_frames,
                    };
                    FrameAction::Calibrate { finalize: false }
                }
            },
            PipelineState::Processing => FrameAction::Process,
        }
    }
}

/// Idle, bypassed and processing pipelines stay where they are, frame after
/// frame: idle and bypassed ones pass the audio through, a processing one
/// runs the full chain.
pub proof fn lemma_steady_states(s: PipelineState, n: nat)
    requires
        s == PipelineState::Idle || s == PipelineState::Bypassed || s == PipelineState::Processing,
    ensures
        run(s, n) == s,
        n >= 1 ==> action_at(s, n) == if s == PipelineState::Processing {
            FrameAction::Process
        } else {
            FrameAction::PassThrough
        },
    decreases n,
{
    if n > 0 {
        lemma_steady_states(s, (n - 1) as nat);
    }
}

/// A calibration started with target `t` counts one frame at a time, passes
/// the audio through while it collects, finalizes on frame `max(t, 1)` and is
/// processing from then on.
pub proof fn lemma_calibration_completes(t: usize, n: nat)
    ensures
        run(PipelineState::Calibrating { frames_collected: 0, target_frames: t }, n) == if n == 0 {
            PipelineState::Calibrating { frames_collected: 0, target_frames: t }
        } else if n < t {
            PipelineState::Calibrating { frames_collected: n as usize, target_frames: t }
        } else {
            PipelineState::Processing
        },
        n >= 1 ==> action_at(PipelineState::Calibrating { frames_collected: 0, target_frames: t }, n)
            == if n <= t || n == 1 {
            FrameAction::Calibrate { finalize: n >= t }
        } else {
            FrameAction::Process
        },
    decreases n,
{
    if n > 0 {
        lemma_calibration_completes(t, (n - 1) as nat);
    }
}

/// The calibration target is the number of whole hops of the configured
/// size that fit in the configured duration: `target` hops of `hop_size`
/// samples cover at most `duration_ms * sample_rate / 1000` samples, and one
/// more hop would exceed it.
pub proof fn lemma_calibration_target_covers(config: PipelineConfig)
    requires
        config.hop_size > 0,
    ensures
        calibration_target(config) >= 0,
        calibration_target(config) * (config.hop_size * 1000) <= config.calibration_duration_ms
            * config.sample_rate,
        config.calibration_duration_ms * config.sample_rate < (calibration_target(config) + 1) * (
        config.hop_size * 1000),
{
    let a = config.calibration_duration_ms * config.sample_rate;
    let d = config.hop_size * 1000;
    assert(a >= 0 && d > 0) by (nonlinear_arith)
        requires
            a == config.calibration_duration_ms * config.sample_rate,
            d == config.hop_size * 1000,
            config.hop_size > 0,
    ;
    vstd::arithmetic::div_mod::lemma_fundamental_div_mod(a, d);
    vstd::arithmetic::div_mod::lemma_mod_pos_bound(a, d);
    let q = a / d;
    assert(q >= 0) by (nonlinear_arith) requires a >= 0, d > 0, q == a / d;
    assert(q * d <= a && a < (q + 1) * d) by (nonlinear_arith)
        requires
            a == d * q + a % d,
            0 <= a % d < d,
    ;
}

/// Every step keeps the state reachable.
pub proof fn lemma_step_reachable(s: PipelineState)
    requires
        reachable(s),
    ensures
        reachable(step(s).0),
{
}

} // verus!
