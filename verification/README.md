# duangler

Software KVM switch: a server shares its keyboard and mouse with a client
machine; double tapping the right ctrl key switches which machine the inputs
go to.

- `src/` is the verified library (Verus): input events and their Linux and
  Windows codes, the wire framing of messages, the input controller that
  detects the double tap, and the decisions of the server and client
  sessions. A variant of the switch lives under `src/terong/`: a server that
  starts capturing when the mouse bumps against the left edge of the screen,
  and a client that keeps its session alive with pings.
- `app/` is the program around it: configuration, sockets, TLS, evdev
  devices, and the loops that carry out what the library decides.
- `tests/` runs the library on concrete inputs.
