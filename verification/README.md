# rc_receiver

A radio-control receiver library for flight controllers, verified with Verus.

- `src/` is the verified library: the SBUS, iBUS and CRSF decoders (byte-at-a-time state
  machines, each specified by a step function over the bytes received so far), the DVB-S2
  CRC, CRSF payload parsing and channel packing, the interrupt-driven CRSF packet
  collector, channel ranges and PWM steps, mode activation conditions, the flight-mode
  table, and the configuration records (failsafe, rates, adjustments, controls, receiver).
  Each public function states what it returns or changes; the properties that span
  several calls are public proof functions (named `lemma_...`) next to the code they are
  about.
- `tests/` exercises the library on concrete values.
- `app/` holds what the library leaves out: floating-point stick scaling, rates and the
  radio control message, serializable copies of the configuration records (serde,
  postcard, sequential-storage), and the mock UART as an embedded-hal serial port.

The one outside crate that the verified code calls is `simple-bitset`; its `BitSet64`
operations are used through small wrappers in `src/rc_modes.rs` whose contracts are
trusted.
