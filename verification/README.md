# obd2_dashboard

The logic of an OBD2 car dashboard, its ECU simulator and its GPS tracker,
written in Verus and proved against its contracts.

- `src/` — the verified library: radio message types and their CRC framing,
  ISO-TP segmentation and reassembly, the simulator's scripted answers and the
  serial packets that carry them, PID decoding, the command bytes of the CAN
  controller and the touch controller, the display's screen state machine and
  its widgets, the simulated display's frame buffer, the modem's AT answers.
- `tests/` — tests of the library on concrete values.
- `app/` — the simulator host program (serial port, configuration files,
  file watching), serialization of the radio messages, the simulated display
  as a drawing target, and the floating-point scaling of PID values.
