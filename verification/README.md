# gateway_edge

The private gateway edge of a shared Caddy deployment: route admission,
request and response bounds, inbound secret substitution, the shared-Caddy
configuration template, persistent service capacity, bounded service log
capture, and the fenced decisions that start, supervise and clean up
persistent gateway services.

- `src/` is the library, verified with Verus. Each module states its
  behaviour in `requires`/`ensures` contracts over spec functions, and the
  properties that relate several operations are public proof functions.
  Long asynchronous runs (the coordinator's start-up run, a one-shot VM
  invocation, the log writer, cleanup and boot recovery) are written as
  step functions from a phase and an event to the next phase and action.
  Calls into `uuid`, `subtle`, `http`, `time` and `serde_json` sit behind
  small trusted wrappers whose doc comments say what is assumed of them.
- `app/` holds the asynchronous ports and runners around the library: the
  Caddy administration client, the reconciling provider, the dispatcher,
  the coordinator's start-up run, one-shot VM invocations, a cleanup
  attempt and the service log writer loop. They perform the I/O, timers
  and locking and hand every report to a verified step. The VM runtime and
  durable stores themselves are ports; runners for the supervisor's jobs
  and for boot recovery are not part of this crate.
- `tests/` exercises the library on concrete values.
