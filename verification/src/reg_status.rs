//! The CP0 Status register: bit-field layout and decode.
//!
//! Status is written as a flat 32-bit value and observed as named fields:
//! four coprocessor-usability flags in bits 31:28, single-bit flags for
//! low power (27), additional FP registers (26), reverse endian (25),
//! 64-bit addressing in kernel/supervisor/user mode (7/6/5), error level (2),
//! exception level (1) and global interrupt enable (0), a diagnostic-status
//! group in bits 24:18, an interrupt-mask group in bits 15:8, and the two-bit
//! privilege mode in bits 4:3, whose encoding `0b11` is a fatal decode error.

use vstd::prelude::*;

use crate::errors::EmuError;

verus! {

/// Location of the TLB-refill and general exception vectors (BEV, bit 22).
#[derive(Clone, Copy, Debug, PartialEq, Eq, Structural)]
pub enum TlbGeneralExceptionVectorsLocation {
    Normal,
    Bootstrap,
}

/// Privilege mode (KSU field, bits 4:3). The fourth encoding, `0b11`, has no
/// architectural meaning and never decodes.
#[derive(Clone, Copy, Debug, PartialEq, Eq, Structural)]
pub enum Mode {
    Kernel,
    Supervisor,
    User,
}

/// The self-diagnostic status group (DS field, bits 24:18).
#[derive(Clone, Copy, Debug, PartialEq, Eq, Structural)]
pub struct SelfDiagnosticStatusField {
    /// ITS, bit 24.
    pub instruction_trace_support: bool,
    /// BEV, bit 22.
    pub tlb_and_general_exception_vectors_location: TlbGeneralExceptionVectorsLocation,
    /// TS, bit 21.
    pub tlb_shutdown: bool,
    /// SR, bit 20.
    pub soft_reset_or_nmi_occurred: bool,
    /// CH, bit 18.
    pub condition_bit: bool,
}

/// The interrupt-mask group (IM field, bits 15:8).
#[derive(Clone, Copy, Debug, PartialEq, Eq, Structural)]
pub struct InterruptMask {
    /// IM(7), bit 15: the timer interrupt.
    pub timer_interrupt: bool,
    /// IM(6:2), bits 14:10: the five external interrupt write requests,
    /// index 0 at bit 10.
    pub external_interrupt_write_req_0: bool,
    pub external_interrupt_write_req_1: bool,
    pub external_interrupt_write_req_2: bool,
    pub external_interrupt_write_req_3: bool,
    pub external_interrupt_write_req_4: bool,
    /// IM(1:0), bits 9:8: the two software interrupt causers, index 0 at bit 8.
    pub software_interrupt_causer_0: bool,
    pub software_interrupt_causer_1: bool,
}

/// The decoded Status register.
#[derive(Clone, Copy, Debug, PartialEq, Eq, Structural)]
pub struct RegStatus {
    /// CU, bits 31:28: coprocessor usability, index 0 at bit 31.
    pub coprocessor_usability_0: bool,
    pub coprocessor_usability_1: bool,
    pub coprocessor_usability_2: bool,
    pub coprocessor_usability_3: bool,
    /// RP, bit 27.
    pub low_power: bool,
    /// FR, bit 26.
    pub additional_fp_regs: bool,
    /// RE, bit 25.
    pub reverse_endian: bool,
    /// DS, bits 24:18.
    pub diagnostic_status: SelfDiagnosticStatusField,
    /// IM, bits 15:8.
    pub interrupt_mask: InterruptMask,
    /// KX, bit 7.
    pub kernel_mode_64bit_addressing: bool,
    /// SX, bit 6.
    pub supervisor_mode_64bit_addressing: bool,
    /// UX, bit 5.
    pub user_mode_64bit_addressing: bool,
    /// KSU, bits 4:3.
    pub mode: Mode,
    /// ERL, bit 2.
    pub error_level: bool,
    /// EXL, bit 1.
    pub exception_level: bool,
    /// IE, bit 0.
    pub global_interrupts_enable: bool,
}

/// Whether bit `index` of `data` is set.
pub open spec fn bit_of(data: u32, index: u32) -> bool
    recommends
        index < 32,
{
    data & (1u32 << index) != 0
}

/// The exception-vector location bit 22 decodes to.
pub open spec fn spec_vectors_location(data: u32) -> TlbGeneralExceptionVectorsLocation {
    if bit_of(data, 22) {
        TlbGeneralExceptionVectorsLocation::Bootstrap
    } else {
        TlbGeneralExceptionVectorsLocation::Normal
    }
}

/// The diagnostic-status group the raw value decodes to.
pub open spec fn spec_diagnostic_status(data: u32) -> SelfDiagnosticStatusField {
    SelfDiagnosticStatusField {
        instruction_trace_support: bit_of(data, 24),
        tlb_and_general_exception_vectors_location: spec_vectors_location(data),
        tlb_shutdown: bit_of(data, 21),
        soft_reset_or_nmi_occurred: bit_of(data, 20),
        condition_bit: bit_of(data, 18),
    }
}

/// The interrupt-mask group the raw value decodes to.
pub open spec fn spec_interrupt_mask(data: u32) -> InterruptMask {
    InterruptMask {
        timer_interrupt: bit_of(data, 15),
        external_interrupt_write_req_0: bit_of(data, 10),
        external_interrupt_write_req_1: bit_of(data, 11),
        external_interrupt_write_req_2: bit_of(data, 12),
        external_interrupt_write_req_3: bit_of(data, 13),
        external_interrupt_write_req_4: bit_of(data, 14),
        software_interrupt_causer_0: bit_of(data, 8),
        software_interrupt_causer_1: bit_of(data, 9),
    }
}

/// The KSU field: bits 4:3 of the raw value.
pub open spec fn mode_field(data: u32) -> u32 {
    (data >> 3) & 3
}

/// Whether the raw value has a valid privilege-mode encoding.
pub open spec fn status_decode_ok(data: u32) -> bool {
    mode_field(data) != 3
}

/// The privilege mode a valid raw value decodes to.
pub open spec fn spec_mode(data: u32) -> Mode {
    if mode_field(data) == 0 {
        Mode::Kernel
    } else if mode_field(data) == 1 {
        Mode::Supervisor
    } else {
        Mode::User
    }
}

/// The Status value a valid raw value decodes to, field by field.
pub open spec fn spec_status(data: u32) -> RegStatus {
    RegStatus {
        coprocessor_usability_0: bit_of(data, 31),
        coprocessor_usability_1: bit_of(data, 30),
        coprocessor_usability_2: bit_of(data, 29),
        coprocessor_usability_3: bit_of(data, 28),
        low_power: bit_of(data, 27),
        additional_fp_regs: bit_of(data, 26),
        reverse_endian: bit_of(data, 25),
        diagnostic_status: spec_diagnostic_status(data),
        interrupt_mask: spec_interrupt_mask(data),
        kernel_mode_64bit_addressing: bit_of(data, 7),
        supervisor_mode_64bit_addressing: bit_of(data, 6),
        user_mode_64bit_addressing: bit_of(data, 5),
        mode: spec_mode(data),
        error_level: bit_of(data, 2),
        exception_level: bit_of(data, 1),
        global_interrupts_enable: bit_of(data, 0),
    }
}

/// Status at power-on reset: every flag clear, kernel mode, normal vectors.
pub open spec fn spec_status_reset() -> RegStatus {
    RegStatus {
        coprocessor_usability_0: false,
        coprocessor_usability_1: false,
        coprocessor_usability_2: false,
        coprocessor_usability_3: false,
        low_power: false,
        additional_fp_regs: false,
        reverse_endian: false,
        diagnostic_status: SelfDiagnosticStatusField {
            instruction_trace_support: false,
            tlb_and_general_exception_vectors_location:
                TlbGeneralExceptionVectorsLocation::Normal,
            tlb_shutdown: false,
            soft_reset_or_nmi_occurred: false,
            condition_bit: false,
        },
        interrupt_mask: InterruptMask {
            timer_interrupt: false,
            external_interrupt_write_req_0: false,
            external_interrupt_write_req_1: false,
            external_interrupt_write_req_2: false,
            external_interrupt_write_req_3: false,
            external_interrupt_write_req_4: false,
            software_interrupt_causer_0: false,
            software_interrupt_causer_1: false,
        },
        kernel_mode_64bit_addressing: false,
        supervisor_mode_64bit_addressing: false,
        user_mode_64bit_addressing: false,
        mode: Mode::Kernel,
        error_level: false,
        exception_level: false,
        global_interrupts_enable: false,
    }
}

/// Whether bit `index` of `data` is set.
fn read_bit(data: u32, index: u32) -> (b: bool)
    requires
        index < 32,
    ensures
        b == bit_of(data, index),
{
    data & (1u32 << index) != 0
}

impl TlbGeneralExceptionVectorsLocation {
    /// Decodes the BEV bit; never fails.
    pub fn decode(data: u32) -> (r: TlbGeneralExceptionVectorsLocation)
        ensures
            r == spec_vectors_location(data),
    {
        if read_bit(data, 22) {
            TlbGeneralExceptionVectorsLocation::Bootstrap
        } else {
            TlbGeneralExceptionVectorsLocation::Normal
        }
    }
}

impl Default for TlbGeneralExceptionVectorsLocation {
    fn default() -> (r: TlbGeneralExceptionVectorsLocation)
        ensures
            r == TlbGeneralExceptionVectorsLocation::Normal,
    {
        TlbGeneralExceptionVectorsLocation::Normal
    }
}

impl Mode {
    /// Decodes the KSU field; the encoding `0b11` is a fatal decode error
    /// carrying the raw register value.
    pub fn decode(data: u32) -> (r: Result<Mode, EmuError>)
        ensures
            r is Ok <==> status_decode_ok(data),
            r matches Ok(m) ==> m == spec_mode(data),
            r matches Err(e) ==> e == (EmuError::InvalidPrivilegeMode { raw: data }),
    {
        let ksu = (data >> 3) & 3;
        proof {
            assert((data >> 3) & 3u32 < 4) by (bit_vector);
        }
        match ksu {
            0 => Ok(Mode::Kernel),
            1 => Ok(Mode::Supervisor),
            2 => Ok(Mode::User),
            _ => Err(EmuError::InvalidPrivilegeMode { raw: data }),
        }
    }
}

impl Default for Mode {
    fn default() -> (r: Mode)
        ensures
            r == Mode::Kernel,
    {
        Mode::Kernel
    }
}

impl SelfDiagnosticStatusField {
    /// Decodes the DS group; never fails.
    pub fn decode(data: u32) -> (r: SelfDiagnosticStatusField)
        ensures
            r == spec_diagnostic_status(data),
    {
        SelfDiagnosticStatusField {
            instruction_trace_support: read_bit(data, 24),
            tlb_and_general_exception_vectors_location: TlbGeneralExceptionVectorsLocation::decode(
                data,
            ),
            tlb_shutdown: read_bit(data, 21),
            soft_reset_or_nmi_occurred: read_bit(data, 20),
            condition_bit: read_bit(data, 18),
        }
    }
}

impl InterruptMask {
    /// Decodes the IM group; never fails.
    pub fn decode(data: u32) -> (r: InterruptMask)
        ensures
            r == spec_interrupt_mask(data),
    {
        InterruptMask {
            timer_interrupt: read_bit(data, 15),
            external_interrupt_write_req_0: read_bit(data, 10),
            external_interrupt_write_req_1: read_bit(data, 11),
            external_interrupt_write_req_2: read_bit(data, 12),
            external_interrupt_write_req_3: read_bit(data, 13),
            external_interrupt_write_req_4: read_bit(data, 14),
            software_interrupt_causer_0: read_bit(data, 8),
            software_interrupt_causer_1: read_bit(data, 9),
        }
    }
}

impl RegStatus {
    /// Decodes a raw 32-bit Status value into its named fields; fails exactly
    /// when the privilege-mode encoding is invalid.
    pub fn decode(data: u32) -> (r: Result<RegStatus, EmuError>)
        ensures
            r is Ok <==> status_decode_ok(data),
            r matches Ok(s) ==> s == spec_status(data),
            r matches Err(e) ==> e == (EmuError::InvalidPrivilegeMode { raw: data }),
    {
        match Mode::decode(data) {
            Ok(mode) => Ok(RegStatus {
                coprocessor_usability_0: read_bit(data, 31),
                coprocessor_usability_1: read_bit(data, 30),
                coprocessor_usability_2: read_bit(data, 29),
                coprocessor_usability_3: read_bit(data, 28),
                low_power: read_bit(data, 27),
                additional_fp_regs: read_bit(data, 26),
                reverse_endian: read_bit(data, 25),
                diagnostic_status: SelfDiagnosticStatusField::decode(data),
                interrupt_mask: InterruptMask::decode(data),
                kernel_mode_64bit_addressing: read_bit(data, 7),
                supervisor_mode_64bit_addressing: read_bit(data, 6),
                user_mode_64bit_addressing: read_bit(data, 5),
                mode,
                error_level: read_bit(data, 2),
                exception_level: read_bit(data, 1),
                global_interrupts_enable: read_bit(data, 0),
            }),
            Err(e) => Err(e),
        }
    }

    /// Returns Status to its reset value: every flag clear, kernel mode,
    /// normal exception vectors.
    pub fn power_on_reset(&mut self)
        ensures
            *final(self) == spec_status_reset(),
    {
        *self = RegStatus::default();
    }
}

impl Default for RegStatus {
    fn default() -> (r: RegStatus)
        ensures
            r == spec_status_reset(),
    {
        RegStatus {
            coprocessor_usability_0: false,
            coprocessor_usability_1: false,
            coprocessor_usability_2: false,
            coprocessor_usability_3: false,
            low_power: false,
            additional_fp_regs: false,
            reverse_endian: false,
            diagnostic_status: SelfDiagnosticStatusField {
                instruction_trace_support: false,
                tlb_and_general_exception_vectors_location:
                    TlbGeneralExceptionVectorsLocation::default(),
                tlb_shutdown: false,
                soft_reset_or_nmi_occurred: false,
                condition_bit: false,
            },
            interrupt_mask: InterruptMask {
                timer_interrupt: false,
                external_interrupt_write_req_0: false,
                external_interrupt_write_req_1: false,
                external_interrupt_write_req_2: false,
                external_interrupt_write_req_3: false,
                external_interrupt_write_req_4: false,
                software_interrupt_causer_0: false,
                software_interrupt_causer_1: false,
            },
            kernel_mode_64bit_addressing: false,
            supervisor_mode_64bit_addressing: false,
            user_mode_64bit_addressing: false,
            mode: Mode::default(),
            error_level: false,
            exception_level: false,
            global_interrupts_enable: false,
        }
    }
}

} // verus!
