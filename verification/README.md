# Lyra Player

A local music player for a watch, and the phone-side plugin that imports music
into it, written in Verus: the protocols, state machines and request builders
are proved against their contracts.

- `src/` — the verified library.
  - `app`, `playback`, `ui`: the player's routes, playback state and screens.
  - `bridge`, `registry`: the fetch bridge protocol (chunked and streamed responses).
  - `api`, `codec`, `text`: encrypted cloud-service requests and the text they are made of.
  - `model`, `persistence`: songs, sessions and the stored files.
  - `plugin`: the import plugin — the transfer protocol (`import`), the watch library
    (`library`), the cloud service (`netease`) and the plugin's screen (`ui`).
- `tests/` — tests of the library.
- `app/` — JSON, HTTP, files and the host's channel and screen around the library.
