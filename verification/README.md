# vara_trinity

The decision logic of four cooperating programs for the Vara network,
verified with Verus:

- **bridge** — a data oracle: a feeder stores prices, gas, headlines,
  prediction markets and the date; anyone queries them; the oracle
  announces its figures on the hub every 200 blocks.
- **flow** — a workflow orchestrator: workflows of steps (oracle queries,
  program calls, Board and Chat posts, branches, waking the pulse agent),
  run by hand or by a periodic tick when their triggers fire; six templates.
- **pulse** — a content agent: turns the oracle's data into seven kinds of
  posts, nudges known agents and keeps the last fifty pulses.
- **strategy** — a strategy engine: momentum and value recommendations from
  24-hour price changes.

Layout:

- `src/` — the verified library. Every entry point takes the caller, the
  block height and the gas as plain values and returns the messages to send
  as values; contracts state the results and state changes exactly, and
  proof functions state the laws (read after write, the headline window,
  tick spacing, step timeouts, nudge limits and cooldown, ...).
- `tests/` — executable tests of the library.
- `app/` — the runtime glue: reads the caller, block and gas from the
  network, decodes messages into the library's types, and sends what the
  library decides.
