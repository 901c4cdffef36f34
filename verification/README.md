# marcontroller

Controls the lighting of a QMK/Vial keyboard with VialRGB over USB HID: a
command line, a desktop window, an MQTT agent for Home Assistant and a
system-service mode.

## Layout

- `src/` — the library, verified with Verus:
  - `vialrgb` — the VialRGB packets, their encoding and decoding, and the
    protocol exchanges (mode, info, supported effects, LEDs, DIRECT fastset);
  - `hid` — choosing the RAW HID interface, framing reports, and the
    `Keyboard` handle whose ghost record of written reports and received
    replies the protocol contracts speak of;
  - `effects`, `color` — effect names and the HSV→RGB conversion;
  - `agent` — Home Assistant states and commands, the agent's decisions
    (`AgentState`), topics and discovery payloads;
  - `cli`, `config`, `locale`, `logging`, `ui`, `service` — command handling,
    configuration defaults, locale selection, log location, the window's
    state, and reading the service managers' output;
  - `text`, `error` — character-sequence helpers and error texts.
- `app/` — the program: argument parsing, files, MQTT, threads, the eframe
  window, the Windows Service entry point and running the service tools; the
  decisions it acts on come from the library.
- `tests/` — tests of the library on concrete values.
