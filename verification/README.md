# cc1101-embassy

A driver core for the TI CC1101 sub-1 GHz RF transceiver, with proved contracts.

- `src/config.rs` — `RadioConfig` builder and the register maths (FREQ,
  DRATE/CHANBW, DEVIATN, MDMCFG2), with their models and laws.
- `src/driver.rs` — the SPI command model (`Command` and its header bytes),
  the chip-identity check, the configure and transmit command sequences,
  RSSI conversion and packet registers.
- `src/rx.rs` — the receive sequence as a state machine (`Receiver`), with
  the law that a whole receive issues exactly the expected commands and ends
  with the expected packet or error.
- `src/error.rs`, `src/regs.rs` — error type and register map.
- `app/lib.rs` — async glue that performs the planned commands on an
  `embedded-hal-async` `SpiDevice` and GDO0 `Wait` pin.
