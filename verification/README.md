# drogue_board

The logic of a demo device for an STM32L4 IoT board (LED, user button, HTS221
temperature sensor on I2C, an SPI bus shared by lease), written in Verus.

- `src/` is the verified library: the HTS221 register map and the decoding of
  its readings into calibration terms, the sensor actor's state, the SPI bus
  lease, the button's interrupt decision, the es-WiFi initialization buffer and
  the button-to-LED link.
- `app/` is the firmware around it: the drogue-device actors, the GPIO, I2C and
  SPI transfers, the floating-point calibration and the entry point.
