# stadium_eq

Verified integer core of a real-time stadium audio equalizer and source
separator, written in Verus.

- `src/` — the library, proved with Verus:
  - `config`: pipeline configuration, its defaults, and the enums of states,
    environments, crowd densities and noise estimators;
  - `pipeline`: the pipeline's state machine (idle, calibrating, processing,
    bypassed) and what each frame has to go through;
  - `frame`: a ring buffer of samples that overwrites its oldest sample when full;
  - `bands`: the 22 Bark bands over the FFT bins and how band gains are
    spread over the bins;
  - `noise`: the frame and subwindow counters of the minimum-statistics
    noise estimator;
  - `weights`: the integer hashes and offsets behind the neural network's
    deterministic initial weights;
  - `framing`: cutting an input signal into zero-padded frames;
  - `calibration`, `types`: the calibration tuner's parameters and unit newtypes.
- `app/` — the command-line program and the floating-point signal processing
  (FFT, STFT, filters, noise estimation, VAD, source weights, neural gains),
  which uses the library for every decision above.
- `tests/` — tests of the library.
