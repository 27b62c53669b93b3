# edwloef_plugins

A saturator (Heater) and a compressor (Vice) as CLAP plugins, split in two:

- `src/` is the verified library: the parameter tables of both plugins and how host
  events, value queries, value display and text input map onto them (`heater`,
  `vice`, `params`), the text rules for reading a typed value (`text`), the byte
  layout of the saved state (`state`), the audio ports (`ports`), the checks around
  processing (`process`), the plugin descriptors (`descriptor`) and the plugin
  factory (`entry`).
- `app/` holds what Verus does not take: the CLAP trait implementations, the atomic
  parameter storage, the floating-point signal processing and conversions, and the
  stream I/O of the state extension.
