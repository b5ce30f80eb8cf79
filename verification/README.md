# meshcorrode

A client library for [MeshCore](https://meshcore.co.uk/) companion radios,
with its protocol logic verified by Verus.

- `src/` is the verified library: decoding the frames the device sends
  (`proto`), the events they become (`event`), encoding commands
  (`commands`), the decisions of a connection (`connection`), choosing the
  Bluetooth device (`transport`), and the byte buffers and text fields the
  frames are made of (`buffer`, `text`).
- `app/` is the asynchronous side around it: the Bluetooth LE transport
  (btleplug), the event bus and the connection (tokio), the `Display` and
  `std::error::Error` impls of the errors, and floating-point readings of the
  fixed-point quantities the device sends.
- `tests/` runs the library on concrete frames and commands.
