# co_no2_calibrator

Calibrator for the CO/NO2 combination sensors with Modbus interface.

- `src/` is the verified library: the sensor description (`sensor`, `kombisensor`),
  which registers and coils the commands address (`commands`), the search for a sensor
  on the bus, the configuration and errors, and the laws that tie them together (`laws`).
- `app/` is the GTK front end and the Modbus conversations with the hardware; it asks the
  library which register to use and how the in-memory state changes.
- `tests/` runs the library on concrete register images.
