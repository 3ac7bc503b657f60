//! The CP0 Config register: bit-field layout and decode.
//!
//! Config is written as a flat 32-bit value and observed as named fields:
//! the data-transfer pattern in bits 27:24 (only codes 0 and 6 are
//! architecturally valid; anything else is a fatal decode error), the
//! endianness bit 15, the coprocessor-usability bit 3, and the derived
//! kseg0-cache-enabled flag, true unless the low three bits equal `0b010`.

use vstd::prelude::*;

use crate::errors::EmuError;

verus! {

/// Data-transfer pattern (EP field, bits 27:24).
#[derive(Clone, Copy, Debug, PartialEq, Eq, Structural)]
pub enum DataTransferPattern {
    /// Code 0: D.
    Normal,
    /// Code 6: DxxDxx.
    DxxDxx,
}

/// Memory byte order (BE field, bit 15).
#[derive(Clone, Copy, Debug, PartialEq, Eq, Structural)]
pub enum Endianness {
    Little,
    Big,
}

/// The decoded Config register.
#[derive(Clone, Copy, Debug, PartialEq, Eq, Structural)]
pub struct RegConfig {
    /// EP, bits 27:24.
    pub data_transfer_pattern: DataTransferPattern,
    /// BE, bit 15.
    pub endianness: Endianness,
    /// CU, bit 3.
    pub cu: bool,
    /// Derived from K0, bits 2:0: kseg0 is cached unless they equal `0b010`.
    pub kseg0_cache_enabled: bool,
}

/// The EP field: bits 27:24 of the raw value.
pub open spec fn ep_field(data: u32) -> u32 {
    (data >> 24) & 0xf
}

/// Whether the raw value has a valid data-transfer-pattern code.
pub open spec fn config_decode_ok(data: u32) -> bool {
    ep_field(data) == 0 || ep_field(data) == 6
}

/// The data-transfer pattern a valid raw value decodes to.
pub open spec fn spec_data_transfer_pattern(data: u32) -> DataTransferPattern {
    if ep_field(data) == 6 {
        DataTransferPattern::DxxDxx
    } else {
        DataTransferPattern::Normal
    }
}

/// The endianness the raw value decodes to (bit 15).
pub open spec fn spec_endianness(data: u32) -> Endianness {
    if (data >> 15) & 1 == 1 {
        Endianness::Big
    } else {
        Endianness::Little
    }
}

/// The Config value a valid raw value decodes to, field by field.
pub open spec fn spec_config(data: u32) -> RegConfig {
    RegConfig {
        data_transfer_pattern: spec_data_transfer_pattern(data),
        endianness: spec_endianness(data),
        cu: data & 8 != 0,
        kseg0_cache_enabled: data & 7 != 2,
    }
}

/// Config at power-on, before any reset: both fields at their defaults.
pub open spec fn spec_config_default() -> RegConfig {
    RegConfig {
        data_transfer_pattern: DataTransferPattern::Normal,
        endianness: Endianness::Big,
        cu: false,
        kseg0_cache_enabled: false,
    }
}

/// Config after a power-on reset of `old_config`: the architecturally
/// documented reset values for EP and BE, the remaining fields untouched.
pub open spec fn spec_config_reset(old_config: RegConfig) -> RegConfig {
    RegConfig {
        data_transfer_pattern: DataTransferPattern::Normal,
        endianness: Endianness::Big,
        cu: old_config.cu,
        kseg0_cache_enabled: old_config.kseg0_cache_enabled,
    }
}

impl DataTransferPattern {
    /// Decodes the EP field; exactly the codes 0 and 6 are valid, any other
    /// value is a fatal decode error carrying the raw register value.
    pub fn decode(data: u32) -> (r: Result<DataTransferPattern, EmuError>)
        ensures
            r is Ok <==> config_decode_ok(data),
            r matches Ok(p) ==> p == spec_data_transfer_pattern(data),
            r matches Err(e) ==> e == (EmuError::InvalidDataTransferPattern { raw: data }),
    {
        let ep = (data >> 24) & 0xf;
        match ep {
            0 => Ok(DataTransferPattern::Normal),
            6 => Ok(DataTransferPattern::DxxDxx),
            _ => Err(EmuError::InvalidDataTransferPattern { raw: data }),
        }
    }
}

impl Default for DataTransferPattern {
    fn default() -> (r: DataTransferPattern)
        ensures
            r == DataTransferPattern::Normal,
    {
        DataTransferPattern::Normal
    }
}

impl Endianness {
    /// Decodes the BE bit; never fails.
    pub fn decode(data: u32) -> (r: Endianness)
        ensures
            r == spec_endianness(data),
    {
        if (data >> 15) & 1 == 1 {
            Endianness::Big
        } else {
            Endianness::Little
        }
    }
}

impl Default for Endianness {
    fn default() -> (r: Endianness)
        ensures
            r == Endianness::Big,
    {
        Endianness::Big
    }
}

impl RegConfig {
    /// Decodes a raw 32-bit Config value into its named fields; fails exactly
    /// when the data-transfer-pattern code is invalid.
    pub fn decode(data: u32) -> (r: Result<RegConfig, EmuError>)
        ensures
            r is Ok <==> config_decode_ok(data),
            r matches Ok(c) ==> c == spec_config(data),
            r matches Err(e) ==> e == (EmuError::InvalidDataTransferPattern { raw: data }),
    {
        match DataTransferPattern::decode(data) {
            Ok(pattern) => Ok(RegConfig {
                data_transfer_pattern: pattern,
                endianness: Endianness::decode(data),
                cu: data & 8 != 0,
                kseg0_cache_enabled: data & 7 != 2,
            }),
            Err(e) => Err(e),
        }
    }

    /// Returns EP and BE to their documented reset values; the other fields
    /// have no documented reset value and keep their contents.
    pub fn power_on_reset(&mut self)
        ensures
            *final(self) == spec_config_reset(*old(self)),
    {
        self.data_transfer_pattern = DataTransferPattern::Normal;
        self.endianness = Endianness::Big;
    }
}

impl Default for RegConfig {
    fn default() -> (r: RegConfig)
        ensures
            r == spec_config_default(),
    {
        RegConfig {
            data_transfer_pattern: DataTransferPattern::default(),
            endianness: Endianness::default(),
            cu: false,
            kseg0_cache_enabled: false,
        }
    }
}

} // verus!
