# vivarium

The verified core of `viv`, the command-line tool that runs each project in its own microVM
sandbox, and of the guest agent and supervisor that serve it. The library under `src/` holds the
decisions, parsers, and renderings, written in Verus with their contracts proved; `app/` is a thin
program around part of it (help, version, `status`, `stop`) that reads the host and writes what
the library answers. The configuration evaluator, the launcher handoff and the guest-side
programs are not part of this repository.

## Layout

- `src/grammar.rs`, `src/verbs.rs`: `argv` to one parsed invocation.
- `src/resolution.rs`: which manifest a command acts on, and the refusals of an unbound,
  ambiguous, badly named, or undeclared working directory.
- `src/launcher.rs`: the launcher's argument list and what its exit means.
- `src/config_view.rs`: `viv config eval` and `viv config sources`, human and JSON.
- `src/lifecycle.rs`, `src/admission.rs`, `src/start.rs`, `src/reuse.rs`, `src/stop.rs`,
  `src/sweep.rs`: the state model, the start pipeline, the reuse decision a session makes, the
  stop ladder and its post-condition, and the partial-failure rule of the multi-target verbs.
  The long-running ones are machines: the caller performs each action and hands back the event.
- `src/console.rs`, `src/attach.rs`: following the console capture and ending the stream.
- `src/trim.rs`, `src/reclaim.rs`: memory and volume reclaim.
- `src/generations.rs`, `src/destroy.rs`, `src/update.rs`, `src/guest_build.rs`: retained
  generations, the removal plan, input re-resolution, and the guest build.
- `src/failure.rs`, `src/exit.rs`, `src/render.rs`, `src/records.rs`, `src/views.rs`,
  `src/tables.rs`, `src/status.rs`, `src/fleet.rs`, `src/manifest.rs`, `src/provenance.rs`,
  `src/doctor.rs`: diagnostics, exit codes, and every human and JSON rendering.
- `src/workspace.rs`, `src/sources.rs`, `src/session.rs`, `src/paths.rs`, `src/pathsort.rs`:
  workspace resolution findings, host-source refusals, the guest session environment, and paths.
- `src/agent.rs`, `src/connection.rs`, `src/supervisor.rs`: the guest agent's parsers and its
  control connection, and the supervisor's command line and trust checks.
- `src/text.rs`, `src/numbers.rs`, `src/timestamps.rs`: text, integer, and timestamp primitives,
  including the few calls into `serde_json`, `toml`, and std that the library trusts.

The laws the library keeps stand as public proof functions beside the code they are about,
each named `law_...`.
