# octos_makepad

The native Makepad user interface of an agent runtime, as a verified library.

- `src/` holds the logic, verified with Verus: the JSON protocol between runtime
  and host (`protocol`, `inbound`), the channel (`makepad_channel`, `adapters`),
  the host and its window (`makepad_host`), the launch tool (`launch_app`), the
  launcher (`launcher`), the byte transport of host-driven sessions
  (`host_managed`) and two offline model providers (`fake`, `registry`).
  `laws` states what these parts promise one another. `json`, `text`, `chat` and
  `clock` are what they stand on.
- `app/` holds the programs around it: sockets, processes, the window, and the C
  interface.
- `tests/` runs the library on concrete values.

`serde_json` and `chrono` are called behind functions marked `external_body`; the
comment above each says what is believed of it.
