//! The logic of a demo device on an STM32L4 IoT board: the HTS221 sensor
//! driver, the SPI bus lease, the button, and the actors that tie them.
pub mod button;
pub mod device;
pub mod eswifi;
pub mod hts221;
pub mod spi;
