# tildagon

Support library for the EMF Camp Tildagon badge (ESP32-S3), with the logic of
its firmwares proved correct in Verus.

- `src/` is the verified library: the TCA9548A multiplexer channels, the
  AW9523B expander pin map and register updates, the bring-up sequence, the
  button polling, the BQ25895 status decoding, the WS2812B pulse encoding,
  stripe rendering, the iTag finder (advertisement parsing, candidate cache,
  device list and selection, radar LEDs, screen layout) and the demo
  firmwares (WiFi/BLE scanner, battery display, Bluetooth remote).
- `tests/` runs the library on concrete values.
- `app/` performs the I2C, RMT, SPI and radio traffic with the ESP32-S3 HAL
  and runs the embassy tasks around the library.
