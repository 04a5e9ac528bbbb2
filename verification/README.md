# Audio Visualizer companion

The companion of an audio visualizer: a process that captures the sound of the
default Windows output device, analyses it, and sends levels and spectra to its
host. It speaks JSON over standard input and output.

## Layout

- `src/` is the verified library. It decides everything that does not take
  floating-point arithmetic or a system call:
  - `session` and `protocol`: the conversation with the host, from the name of
    the protocol in the environment to the exit;
  - `control`: the refresh rate, and what the host and the sampler share;
  - `sampler`: the rounds of capturing, publishing and pausing;
  - `opening`: the steps in which the loopback is opened;
  - `capture`: how packets are taken, collected and released;
  - `format` and `decode`: mix formats, and the samples in a packet's bytes;
  - `analysis` and `binary32`: what is looked at, the peak, and the range of
    what is published.
- `tests/` runs the library on given values.
- `app/` is the program around it: COM and WASAPI, threads and locks, JSON, and
  the measurements in floating point.

The conversation, the sampler, the opening and the capture are machines. Each
takes an event and gives its next state and one action; `app/` performs the
action and reports how it went. The proof functions whose names start with
`law_` state what holds of whole runs.
