//! The CP0 register bank: the modeled control registers, power-on reset, and
//! indexed writes.
//!
//! The bank owns the decoded forms of the two modeled registers, Status
//! (register index 12) and Config (register index 16). A write routes a raw
//! 32-bit value to the register the index selects and decodes it there;
//! writes to unmodeled indices are accepted and ignored, so the index-to-
//! register mapping stays exact as further registers are added.

use vstd::prelude::*;

use crate::errors::EmuError;
use crate::reg_config::{spec_config, spec_config_default, spec_config_reset, config_decode_ok};
use crate::reg_config::RegConfig;
use crate::reg_status::{spec_status, spec_status_reset, status_decode_ok};
use crate::reg_status::RegStatus;

verus! {

/// CP0 register index of the Status register.
pub const CP0_REG_STATUS: u32 = 12;

/// CP0 register index of the Config register.
pub const CP0_REG_CONFIG: u32 = 16;

/// The CP0 register bank, holding each modeled register in decoded form.
#[derive(Clone, Copy, Debug, PartialEq, Eq, Structural)]
pub struct Cp0 {
    pub reg_config: RegConfig,
    pub reg_status: RegStatus,
}

/// The bank at power-on, before any reset.
pub open spec fn spec_cp0_default() -> Cp0 {
    Cp0 { reg_config: spec_config_default(), reg_status: spec_status_reset() }
}

/// The bank after a power-on reset of `old_cp0`: every modeled register at
/// its architectural reset encoding.
pub open spec fn spec_cp0_reset(old_cp0: Cp0) -> Cp0 {
    Cp0 { reg_config: spec_config_reset(old_cp0.reg_config), reg_status: spec_status_reset() }
}

/// The low 32 bits of a 64-bit register value, as a coprocessor write datum.
pub open spec fn low32_of(data: u64) -> u32 {
    (data & 0xffff_ffff) as u32
}

/// What an indexed 32-bit write does to the bank: the selected register takes
/// the decode of `data`, an unmodeled index leaves the bank as it was, and an
/// invalid encoding for the selected register is a fatal decode error.
pub open spec fn spec_cp0_write(old_cp0: Cp0, index: u32, data: u32) -> Result<Cp0, EmuError> {
    if index == CP0_REG_STATUS {
        if status_decode_ok(data) {
            Ok(Cp0 { reg_config: old_cp0.reg_config, reg_status: spec_status(data) })
        } else {
            Err(EmuError::InvalidPrivilegeMode { raw: data })
        }
    } else if index == CP0_REG_CONFIG {
        if config_decode_ok(data) {
            Ok(Cp0 { reg_config: spec_config(data), reg_status: old_cp0.reg_status })
        } else {
            Err(EmuError::InvalidDataTransferPattern { raw: data })
        }
    } else {
        Ok(old_cp0)
    }
}

impl Cp0 {
    /// Sets every modeled register to its architectural reset encoding; an
    /// unmodeled register has no observable state to reset.
    pub fn power_on_reset(&mut self)
        ensures
            *final(self) == spec_cp0_reset(*old(self)),
    {
        self.reg_config.power_on_reset();
        self.reg_status.power_on_reset();
    }

    /// Routes the low 32 bits of `data` to the register selected by `index`,
    /// decoding them there; fails exactly when the selected register is
    /// modeled and the value has no valid decode, leaving the bank unchanged.
    pub fn write_reg(&mut self, index: u32, data: u64) -> (r: Result<(), EmuError>)
        ensures
            (match spec_cp0_write(*old(self), index, low32_of(data)) {
                Ok(bank) => r is Ok && *final(self) == bank,
                Err(e) => r == Err::<(), EmuError>(e) && *final(self) == *old(self),
            }),
    {
        proof {
            assert(data & 0xffff_ffffu64 <= 0xffff_ffffu64) by (bit_vector);
        }
        let low = (data & 0xffff_ffff) as u32;
        if index == CP0_REG_STATUS {
            match RegStatus::decode(low) {
                Ok(status) => {
                    self.reg_status = status;
                    Ok(())
                },
                Err(e) => Err(e),
            }
        } else if index == CP0_REG_CONFIG {
            match RegConfig::decode(low) {
                Ok(config) => {
                    self.reg_config = config;
                    Ok(())
                },
                Err(e) => Err(e),
            }
        } else {
            Ok(())
        }
    }
}

impl Default for Cp0 {
    fn default() -> (r: Cp0)
        ensures
            r == spec_cp0_default(),
    {
        Cp0 { reg_config: RegConfig::default(), reg_status: RegStatus::default() }
    }
}

} // verus!
