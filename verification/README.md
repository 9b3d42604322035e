# binge_watch_me

A self-hosted media remote: a phone web page sends playback commands through
a small daemon to a browser extension, and the daemon shows the extension's
playback state on every connected phone.

- `src/` is the verified library: the protocol types (`protocol`), the
  daemon's relay decisions (`server`), the volume decisions (`platform`),
  the access token format (`auth`), the update check (`updater`) and the
  menu-bar state machine (`tray`).
- `app/` is the program around it: the HTTP and WebSocket server, JSON,
  the keychain, CoreAudio, the macOS menu bar and the installer.
- `tests/` runs the library on concrete values.
