# diagnostic_runtime

The diagnostics of a production: what happens to it is reported to a hub as spans, instants,
counters and gaps, and what the hub accepts is written to a store, delivered to sinks and served
while the run goes on.

`src/` is the library. Each operation says in its contract which facts it reports, in which order
and with which references, and what it keeps. The clock, the hub and the other services are traits.
Each has a log of its own, to which every call adds what was asked and what was answered; of the
answers nothing is promised. The contracts say which calls the library makes, with which values, and
what it makes of every answer.

- `event`, `context`, `run`, `identifier`: facts, how they are reported, and the runs they are
  reported in. `references`: what facts refer to.
- `runtime_producer`, `scene_producer`, `scene_drain_producer`, `actor_producer`, `cue_producer`,
  `effect_producer`, `act_producer`, `act_registry`, `load_producer`, `usage_finalization`: the
  lifecycles of a production and its parts.
- `observation_bridge`, `session_bridge`, `turn_bridge`, `agent`: what agents tell of their sessions
  and turns.
- `custom_payload`, `custom_binding`, `custom_act_binding`: facts that user code publishes.
- `hooks`, `sink_registry`, `sink_projection`, `sink_binding`, `sink_admission`: delivery to sinks.
- `activation`, `activation_sequence`, `run_binding`, `bootstrap`, `startup`, `shutdown`, `writer`,
  `writer_supervisor`, `durable_admission`, `archive_views`, `run_identity`: how a run starts, is
  written, and ends.
- `ordered_names`: named values in the order of their names. `json`, `python_error`: calls into
  `serde_json` and `pyo3`.

`app/` is what talks to Python, threads and the clock. `tests/` runs the library.
