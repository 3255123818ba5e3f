//! A session over one serial line, with the two message framings used on it:
//! fixed-size binary frames checked by a Modbus CRC-16, and ASCII commands and
//! responses ended by CR LF.
pub mod config;
pub mod crc;
pub mod framing;
pub mod session;
