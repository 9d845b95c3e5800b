# carvi_livox_sdk2

Verified support code for the Livox-SDK2 LiDAR SDK.

`src/` is a Verus library:

- `sys` – the SDK's wire records (packet headers, replies, enums) as plain values,
  with byte-exact parsers and serialisers for the packet headers.
- `pointcloud`, `imu`, `cmd` – decoders from the packet bytes the SDK delivers to
  owned packets; each is proved equal to a spec function over the bytes.
- `error`, `text` – SDK status codes, the error types and their display texts.
- `sdk`, `command`, `info` – the SDK handle count, callback slots, device-command
  requests and the decisions on their outcome, and device info messages.
- `wire` – little-endian field access.

`app/` links the library to the SDK's C API: FFI declarations, the callback
trampolines that hand packet bytes to the decoders, blocking on command replies,
RAII guards, and the conversion of decoded integers to `f32` metres.
