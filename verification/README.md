# squaregolf_connector

A connector between a SquareGolf launch monitor, golf simulators that speak
GSPro Open Connect (GSPro, Infinite Tees) and the SquareLaunch WebSocket
service, with an HTTP API for the desktop UI.

- `src/` is the library, verified with Verus: command frames and
  notification decoding (`protocol`), configuration from defaults, saved
  settings, the environment and the command line (`config`), the status the
  API reports and how events and updates change it (`state`, `api`),
  peripheral selection and notification routing (`device`), service
  discovery by mDNS and `dns-sd` (`discovery`), the SquareLaunch client's
  messages and connection cycle (`squarelaunch`), Open Connect message
  options and send reports (`simulator`), and the text and JSON helpers they
  share (`text`, `json`).
- `tests/` runs the library on concrete inputs.
- `app/` is the program around it: the HTTP server, Bluetooth, TCP and
  WebSocket I/O, files, and the floating-point conversions.
