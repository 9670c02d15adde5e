# awair_exporter

A Prometheus exporter for Awair air-quality monitors: it polls each configured
device's local API and serves the readings, plus per-device scrape and failure
counters, on `/metrics`.

- `src/` is the verified library (Verus):
  - `log_level` — the log levels, their parser and their `tracing` counterparts;
  - `config` — the configured devices;
  - `metrics` — the published metrics and the registry holding them;
  - `collectors` — the trusted contracts of the `prometheus` collectors used;
  - `exposition` — the answer to a scrape in the Prometheus text format.
- `app/` is the program around it: command line, logging, reading the YAML
  configuration, HTTP serving and device polling, and setting the gauges
  (whose values are floating-point numbers).
- `tests/` holds the tests.
