# counter_latency_bench

A tiered latency harness for a counter service: it boots the stack tier by
tier (bare model layer, job queue, metric recording, topics, composite metric
sink, scheduler, RocksDB), measures read / write / increment latency, and
decides whether each tier's latency jump is conclusive and whether stack
counters explain it.

- `src/` is the verified library (Verus): order statistics over samples,
  sweep-list parsing, the delta and amplification verdicts, the tier-ladder
  state machine, the boot plan of a tier, store layouts and paths, per-window
  accounting of the bell-curve load, and the root-cause variant plans.
  Samples enter as order keys: a count is itself, a non-negative latency in
  milliseconds is its `f64` bit pattern, which orders as the values do.
- `app/` is the program around it: command line, the embedded store and model
  layer, HTTP load, timing, printing and JSON reports, and the few judgements
  that need floating point arithmetic.
- `tests/` exercises the library on concrete values.
