# persona_exporter

A lightweight exporter of machine metrics (CPU, memory and load, disk, network,
sensors), pushed as JSON or InfluxDB line protocol to a configured URL.

- `src/` is the verified library (Verus): configuration layouts and their
  defaults, `${NAME}` environment references in the configuration text,
  turning operating-system readings into metric records, choosing the main
  network interface, the observed disk (mount points compared as Unix paths)
  and the listed processes, assembling line-protocol batches with their
  measurement names and timestamps, request headers and query parameters, the
  target host, and the per-round collection plan.
- `app/` is the program around it: reading the configuration files and the
  environment, reading the machine with `sysinfo`, encoding single records with
  `influxdb_line_protocol`, serialising JSON, and sending with `surf`.
- `tests/` exercises the library on concrete values.
