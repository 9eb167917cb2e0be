# usbd-storage

USB Mass Storage device class, verified with Verus: Bulk Only Transport, the SCSI
transparent command set, and the information units and tag table of USB Attached SCSI.

The library decides and performs no endpoint I/O. An operation that has to touch an
endpoint returns a step: the effects to perform, then the endpoint operation whose
outcome the library wants to be told. `app/` is the other half on top of `usb-device`:
it owns the endpoints and runs the steps.

| Path | Contents |
|------|----------|
| `src/transport/model.rs` | Bulk Only Transport as a state machine |
| `src/transport/bbb.rs` | its implementation |
| `src/transport/cbw.rs` | command and status wrappers |
| `src/transport/laws.rs`, `trace.rs`, `calls.rs` | what holds across transport operations, of whole histories, and of the calls on a bus |
| `src/transport/uas.rs`, `tags.rs` | UAS information units, table of tagged commands |
| `src/subclass/scsi.rs` | command decoding, the SCSI class and its commands |
| `src/subclass/poll.rs` | polling as a state machine |
| `src/subclass/laws.rs` | what holds of polls |
| `src/subclass/scsi_uas.rs` | BOT and UAS as alternate settings |
| `src/buffer.rs`, `endian.rs`, `text.rs`, `usb.rs` | IO buffer, byte order, numbers as text, USB vocabulary |
| `src/transfer.rs`, `bulk.rs` | traits that bus drivers implement |
