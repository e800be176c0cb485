# sendspin

Clock-synchronised audio playback for Sendspin players, verified with Verus.

A server sends audio with timestamps on its own clock. A player keeps the
decoded buffers in a queue, plays them when their time has come, and drops or
repeats single frames to stay in step when clocks drift apart.

`src/` is the verified library:

- `audio::playback_queue`: buffers by server time, the playback cursor, eviction
  of rebased audio, handoffs.
- `audio::sync_correction`: the correction planner, the floor filter over sync
  errors, the engage gate.
- `audio::renderer`: the decisions of an audio callback as steps, and the frames
  it outputs. `audio::renderer_laws` states what holds across steps and frames.
- `audio::callback_stats`: diagnostic counters.
- `audio::device_clock`: the rate of the audio device's clock.
- `audio::pipewire_stream`, `audio::player`: what the backends decide.
- `protocol::client_builder`: the configuration of a client, the roles it
  announces and the message it introduces itself with.

Public `law_` proof functions state what the library promises as a whole.

`app/` is ordinary Rust around it: the cpal and PipeWire players, locks, gain,
logging and the connection. `tests/` runs the library on concrete values, the
correction loop against a simulated clock among them.

Instants are nanoseconds on a monotonic clock of the backend's choice; times on
the server's clock are microseconds.
