//! Pure logic of the MT7603U USB wireless driver: EEPROM decoding,
//! register-write sequence generation, 802.11 frame building and parsing,
//! RX/TX descriptor transcoding and MCU command framing.

pub mod ffi;
pub mod util;
pub mod regmap;
pub mod eeprom;
pub mod mcu;
pub mod mac;
pub mod sta;
pub mod ap;
pub mod rx;
pub mod tx;
