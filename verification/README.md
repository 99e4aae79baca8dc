# rmk_firmware

Firmware of a trackball keyboard. The decisions are a Verus library; the tasks
that talk to the hardware are ordinary Rust around it.

- `src/steps.rs`: the CPI and scroll divisor tables.
- `src/settings.rs`: the pointing settings in force, and the snapshots that the
  slots keep.
- `src/keys.rs`: what each user key asks for.
- `src/dispatcher.rs`: the user key dispatcher, a state machine that says what it
  waits for and takes in the reply.
- `src/laws.rs`: what holds of the dispatcher over whole runs.
- `src/led.rs`: how the status LED shows the active Bluetooth profile.
- `src/address.rs`: the Bluetooth address.
- `src/board.rs`: how the sensor and the leg encoder are set up.
- `app/`: hardware set-up and the tasks, for an nRF52840. It takes the keymap,
  the Vial definition, the slot storage, the sleep manager and the flexible pin
  from modules `keymap`, `vial`, `pointing_slots`, `sleep` and `nrf_flex`, which
  belong to the board and are not in this tree.
