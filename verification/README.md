# uwb_rs

Ultra-wideband ranging between DWM1001 anchors and tags, verified with Verus.

- `src/` is the verified library: the anchor, tag and pinged-tag protocol state
  machines (`anchor`, `tag`, `pinged_tag`) with the outcomes they consume (`radio`),
  the handshake messages and addresses (`handshake`), the device settings
  (`config`), the distance of a ranging response (`ranging`), decimal digits
  (`digits`) and serial-port lines (`uart`).
- `app/` is the firmware: it performs the radio, LED, timer and serial-port actions
  that the state machines ask for and hands their outcomes back.
- `tests/` runs the library on concrete values.
