# wolf_ui

The launcher shown when a Moonlight session starts on a
[Wolf](https://github.com/games-on-whales/wolf) server: it lists the Wolf
profiles and their apps, starts, joins and stops lobbies, updates Docker
images, and is driven by gamepad, keyboard or mouse.

`src/` is the verified library. Every function there carries a contract that
Verus proves: client configuration, Wolf's event-stream framing and event
parsing, Docker pull progress, the lobby lists kept current from events, the
app cards and their order, the launcher's image detection, the app-action
and lobby-action flows and dialogs, PIN entry, toasts, the action registry,
key and gamepad repeat, and the footer glyphs and style classes.

`app/` is the runtime around it: the HTTP client for Wolf's socket or URL,
JSON (de)serialisation, streaming, logging and environment access.

`tests/` exercise the library on concrete values.
