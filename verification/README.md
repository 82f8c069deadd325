# embedded-sht3x

Driver for the Sensirion SHT3x (SHT30, SHT31, SHT35) humidity and
temperature sensors, with its decision logic verified by Verus.

- `src/` is the verified library: the command words of the sensor, the
  CRC-8 check of every reply word (the checksum itself is computed by the
  `crc` crate), the decoding of the status register and of raw
  measurements, the text form of the status register, and the driver state
  with the meaning of each bus outcome.
- `app/` runs the bus exchanges over the `embedded-hal` (blocking) and
  `embedded-hal-async` traits, converts raw measurements into degrees
  Celsius and percent of relative humidity with the `weather-utils` types,
  and offers a `bitflags` copy of the status register.
- `tests/` exercises the library with the replies of a real sensor.
