# sgcia

A log collection toolkit and its terminal companions, written in Verus.

`src/` is the verified library:

- `config`, `components`: loading a YAML config (`${VAR}` expansion,
  durations, pipeline reference checks) and picking the receiver or
  exporter implementation a component names.
- `event`, `field_ref`, `operator`, `chain_build` and the `*_op` modules:
  the event model, dotted field paths, and the operator chain
  (regex, JSON, key=value, severity, timestamp and field operators).
- `exporter`, `splunk_hec`, `s1_hec`, `stdout_exporter`, `hec_config`:
  envelopes, batching, and the retry decisions of the HEC exporters.
- `file_receiver`, `checkpoint`: file patterns and which listed files
  they select (file-name globs and exclude globs), line splitting,
  rotation-aware tail state and the offset checkpoint.
- `pipeline`, `metrics`, `status`, `error`: what a pipeline does with one
  event, the counters, and the redacted config served for status.
- `editor_*`, `dashboard`: the state machines of the config editor (tabs,
  forms, operator lists, source templates, save outcomes) and of the live
  dashboard.
- `json`, `text`, `time`: the JSON model, text helpers and timestamps.

Calls into outside crates (serde_json, serde_yaml_ng, regex, chrono,
globset, url parsing, tui-input) sit behind small trusted wrappers whose
contracts name or state what the call returns.

`app/` is the program around it: the `sgcia edit` and `sgcia dashboard`
terminal runners (drawing, reading keys, files, the validator binary,
HTTP polling) and the collector runtime's tasks and channels.

`tests/` exercises the library from outside.
