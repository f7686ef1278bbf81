# maker_firmware

Verified decision logic for three small embedded projects, written in Verus.

- `src/rover/`: a remote-controlled rover. Commands arrive as single
  vi-style key bytes or as 8-byte Dabble gamepad frames (`transport`), drive
  a state machine (`state`), and the state sets the levels of a four-input
  H-bridge (`motor`). `controller::tick` is one pass of the control loop:
  status-LED blink timing, command handling, motor levels. `board` hands out
  the peripherals once each; `test_pattern` is the motor bench test.
- `src/scheduler.rs`: a queue of one-off and repeating tasks. `poll` decides
  whether the loop sleeps or runs the earliest due task; a repeating task is
  then due one period after the time it was due. Task ids come from the
  caller (a process-wide counter in `app/`); the queue declines an id it
  already holds, and descheduling removes a task for good.
- `src/marginilia/`: an e-paper quote display. The screens are drawn into the
  panel's frame buffer with `embedded-graphics` and `embedded-text`.

`app/` holds what cannot be verified: threads, sleeping, the SPI driver of the
panel, pin writes and the serial adapter.
