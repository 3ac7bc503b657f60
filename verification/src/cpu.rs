//! The CPU state machine: register file, program counter, address
//! translation, and the fetch-decode-execute engine.
//!
//! One call to [`Cpu::run_instruction`] performs one architectural step:
//! translate the program counter into a physical address, fetch the 32-bit
//! instruction word from the interconnect, decode the fixed MIPS fields,
//! dispatch to the one matching semantic handler, and advance the program
//! counter by four. Every unrecognized opcode, invalid control-register
//! encoding, unmapped address or unbacked bus read is a fatal error that
//! leaves the whole state exactly as it was.

use vstd::prelude::*;

use crate::cp0::{low32_of, spec_cp0_default, spec_cp0_reset, spec_cp0_write};
use crate::cp0::Cp0;
use crate::errors::EmuError;
use crate::interconnect::{spec_ic_read, Interconnect};

verus! {

/// Number of general-purpose registers.
pub const NUM_GPR: usize = 32;

/// Number of floating-point registers.
pub const NUM_FPR: usize = 32;

/// The virtual address of the first instruction after power-on reset.
pub const BOOT_VECTOR: u64 = 0xffff_ffff_bfc0_0000;

/// The lowest virtual address of the one implemented segment, kseg1: the
/// fixed, unmapped, uncached segment used for boot and device access.
pub const KSEG1_BASE: u64 = 0xffff_ffff_a000_0000;

/// The size of kseg1 in bytes.
pub const KSEG1_SIZE: u64 = 0x2000_0000;

/// Primary opcode of ORI (bitwise-or immediate).
pub const OP_ORI: u32 = 0b001101;

/// Primary opcode of LUI (load upper immediate).
pub const OP_LUI: u32 = 0b001111;

/// Primary opcode of MTC0 (move to coprocessor 0).
pub const OP_MTC0: u32 = 0b010000;

/// Primary opcode of LW (load word).
pub const OP_LW: u32 = 0b100011;

/// The architectural CPU state: one instance per emulated processor, mutated
/// one instruction at a time.
#[derive(Debug)]
pub struct Cpu {
    /// General-purpose registers; index 0 is architecturally wired to zero.
    pub reg_gpr: Vec<u64>,
    /// Floating-point registers, stored as raw 64-bit IEEE-754 encodings;
    /// floating-point execution semantics are out of scope, only the storage
    /// is architectural.
    pub reg_fpr: Vec<u64>,
    /// Program counter; word-aligned by construction of the fetch/advance
    /// protocol.
    pub reg_pc: u64,
    /// Multiply/divide result registers, reserved for future opcodes.
    pub reg_hi: u64,
    pub reg_lo: u64,
    /// Load-linked bit, reserved for future opcodes.
    pub reg_llbit: bool,
    /// Floating-point control registers, opaque scalar storage at this stage.
    pub reg_fcr0: u32,
    pub reg_fcr31: u32,
    /// The coprocessor-0 register bank.
    pub cp0: Cp0,
    /// The system bus the processor fetches and loads through.
    pub interconnect: Interconnect,
}

/// Well-formedness of the CPU state: full register files, the zero register
/// reading as zero, and a word-aligned program counter.
pub open spec fn cpu_wf(cpu: Cpu) -> bool {
    &&& cpu.reg_gpr@.len() == 32
    &&& cpu.reg_gpr@[0] == 0
    &&& cpu.reg_fpr@.len() == 32
    &&& cpu.reg_pc % 4 == 0
}

/// The primary opcode: bits 31:26 of the instruction word.
pub open spec fn opcode_of(instr: u32) -> u32 {
    (instr >> 26) & 0b111111
}

/// The rs (source register) field: bits 25:21.
pub open spec fn rs_of(instr: u32) -> u32 {
    (instr >> 21) & 0b11111
}

/// The rt (target register) field: bits 20:16.
pub open spec fn rt_of(instr: u32) -> u32 {
    (instr >> 16) & 0b11111
}

/// The rd (destination register) field: bits 15:11.
pub open spec fn rd_of(instr: u32) -> u32 {
    (instr >> 11) & 0b11111
}

/// The 16-bit immediate field: bits 15:0.
pub open spec fn imm_of(instr: u32) -> u32 {
    instr & 0xffff
}

/// A 32-bit value sign-extended to 64 bits: the upper 32 bits replicate
/// bit 31.
pub open spec fn spec_sign_extend_word(word: u32) -> u64 {
    if word & 0x8000_0000 != 0 {
        (word as u64) | 0xffff_ffff_0000_0000
    } else {
        word as u64
    }
}

/// A 16-bit value (held in the low bits of a word) sign-extended to 64 bits:
/// the upper 48 bits replicate bit 15.
pub open spec fn spec_sign_extend_half(half: u32) -> u64 {
    if half & 0x8000 != 0 {
        (half as u64) | 0xffff_ffff_ffff_0000
    } else {
        half as u64
    }
}

/// What reading a general-purpose register returns: zero at index 0, the
/// stored value elsewhere.
pub open spec fn gpr_read_spec(regs: Seq<u64>, index: int) -> u64 {
    if index == 0 {
        0
    } else {
        regs[index]
    }
}

/// What writing a general-purpose register leaves behind: a write to index 0
/// is discarded, any other write replaces the stored value.
pub open spec fn gpr_write_spec(regs: Seq<u64>, index: int, value: u64) -> Seq<u64> {
    if index == 0 {
        regs
    } else {
        regs.update(index, value)
    }
}

/// What address translation returns: a virtual address inside kseg1 maps to
/// its offset from the segment base; every other address — a selector other
/// than `0b101` in bits 31:29, or a selector-matching address below the
/// 64-bit segment base, which has no defined mapping — is a fatal
/// translation error.
pub open spec fn spec_translate(virtual_addr: u64) -> Result<u64, EmuError> {
    if (virtual_addr >> 29) & 0b111 == 0b101 && virtual_addr >= KSEG1_BASE {
        Ok((virtual_addr - KSEG1_BASE) as u64)
    } else {
        Err(EmuError::UnmappedAddress { virtual_addr })
    }
}

/// What a CPU word read at a virtual address returns: translation, then the
/// bus read at the resulting physical address.
pub open spec fn spec_cpu_read_word(cpu: Cpu, virtual_addr: u64) -> Result<u32, EmuError> {
    match spec_translate(virtual_addr) {
        Ok(physical_addr) => spec_ic_read(cpu.interconnect, physical_addr as u32),
        Err(e) => Err(e),
    }
}

/// The destination value of ORI: the rs register bitwise-or the zero-extended
/// immediate.
pub open spec fn ori_result(pre: Cpu, instr: u32) -> u64 {
    gpr_read_spec(pre.reg_gpr@, rs_of(instr) as int) | (imm_of(instr) as u64)
}

/// The destination value of LUI: the immediate shifted left 16 bits, and the
/// 32-bit result sign-extended to 64 bits.
pub open spec fn lui_result(instr: u32) -> u64 {
    spec_sign_extend_word(imm_of(instr) << 16)
}

/// The virtual address LW loads from: the rs register plus the sign-extended
/// immediate, in two's-complement (wrapping) 64-bit address arithmetic.
pub open spec fn lw_target_addr(pre: Cpu, instr: u32) -> u64 {
    gpr_read_spec(pre.reg_gpr@, rs_of(instr) as int).wrapping_add(
        spec_sign_extend_half(imm_of(instr)),
    )
}

/// The registers the engine never touches: floating-point and special
/// registers, and the interconnect it only reads.
pub open spec fn unchanged_special(pre: Cpu, post: Cpu) -> bool {
    &&& post.reg_fpr@ == pre.reg_fpr@
    &&& post.reg_hi == pre.reg_hi
    &&& post.reg_lo == pre.reg_lo
    &&& post.reg_llbit == pre.reg_llbit
    &&& post.reg_fcr0 == pre.reg_fcr0
    &&& post.reg_fcr31 == pre.reg_fcr31
    &&& post.interconnect.base == pre.interconnect.base
    &&& post.interconnect.words@ == pre.interconnect.words@
}

/// A failed step leaves every piece of architectural state exactly as it was.
pub open spec fn cpu_unchanged(pre: Cpu, post: Cpu) -> bool {
    &&& post.reg_gpr@ == pre.reg_gpr@
    &&& post.reg_pc == pre.reg_pc
    &&& post.cp0 == pre.cp0
    &&& unchanged_special(pre, post)
}

/// A successful step that writes `value` to general-purpose register `index`
/// (discarded at index 0), advances the program counter by four, and touches
/// nothing else.
pub open spec fn step_writes_gpr(pre: Cpu, post: Cpu, index: int, value: u64) -> bool {
    &&& post.reg_gpr@ == gpr_write_spec(pre.reg_gpr@, index, value)
    &&& post.reg_pc == pre.reg_pc + 4
    &&& post.cp0 == pre.cp0
    &&& unchanged_special(pre, post)
}

/// The MTC0 step: the low 32 bits of the rt register are routed to the CP0
/// register selected by rd. A valid write updates the bank and advances the
/// program counter; an invalid encoding is a fatal decode error that changes
/// nothing.
pub open spec fn mtc0_step(pre: Cpu, post: Cpu, instr: u32, r: Result<(), EmuError>) -> bool {
    let data = low32_of(gpr_read_spec(pre.reg_gpr@, rt_of(instr) as int));
    match spec_cp0_write(pre.cp0, rd_of(instr), data) {
        Ok(bank) => {
            &&& r is Ok
            &&& post.cp0 == bank
            &&& post.reg_gpr@ == pre.reg_gpr@
            &&& post.reg_pc == pre.reg_pc + 4
            &&& unchanged_special(pre, post)
        },
        Err(e) => r == Err::<(), EmuError>(e) && cpu_unchanged(pre, post),
    }
}

/// The LW step: the word loaded at the translated target address is
/// sign-extended to 64 bits into the rt register. A translation or bus
/// failure is fatal and changes nothing.
pub open spec fn lw_step(pre: Cpu, post: Cpu, instr: u32, r: Result<(), EmuError>) -> bool {
    match spec_cpu_read_word(pre, lw_target_addr(pre, instr)) {
        Ok(word) => {
            &&& r is Ok
            &&& step_writes_gpr(pre, post, rt_of(instr) as int, spec_sign_extend_word(word))
        },
        Err(e) => r == Err::<(), EmuError>(e) && cpu_unchanged(pre, post),
    }
}

/// The full contract of one engine step, relating the state before (`pre`)
/// and after (`post`) and the returned result: fetch at the program counter,
/// then the one matching handler, then the program-counter advance; every
/// failure leaves the state untouched and names the offending value.
pub open spec fn step_spec(pre: Cpu, post: Cpu, r: Result<(), EmuError>) -> bool {
    match spec_cpu_read_word(pre, pre.reg_pc) {
        Err(e) => r == Err::<(), EmuError>(e) && cpu_unchanged(pre, post),
        Ok(instr) => {
            let op = opcode_of(instr);
            if op == OP_ORI {
                r is Ok && step_writes_gpr(pre, post, rt_of(instr) as int, ori_result(pre, instr))
            } else if op == OP_LUI {
                r is Ok && step_writes_gpr(pre, post, rt_of(instr) as int, lui_result(instr))
            } else if op == OP_MTC0 {
                mtc0_step(pre, post, instr, r)
            } else if op == OP_LW {
                lw_step(pre, post, instr, r)
            } else {
                &&& r == Err::<(), EmuError>(EmuError::UnrecognizedInstruction { instruction: instr })
                &&& cpu_unchanged(pre, post)
            }
        },
    }
}

/// A register file of `count` zeroed 64-bit registers.
fn zeroed_register_file(count: usize) -> (regs: Vec<u64>)
    ensures
        regs@.len() == count,
        forall|i: int| 0 <= i < count ==> regs@[i] == 0,
{
    let mut regs: Vec<u64> = Vec::new();
    let mut i: usize = 0;
    while i < count
        invariant
            i <= count,
            regs@.len() == i,
            forall|j: int| 0 <= j < i ==> regs@[j] == 0,
        decreases count - i,
    {
        regs.push(0);
        i = i + 1;
    }
    regs
}

/// A 32-bit value sign-extended to 64 bits.
fn sign_extend_word(word: u32) -> (r: u64)
    ensures
        r == spec_sign_extend_word(word),
{
    if word & 0x8000_0000 != 0 {
        (word as u64) | 0xffff_ffff_0000_0000
    } else {
        word as u64
    }
}

/// A 16-bit immediate sign-extended to 64 bits.
fn sign_extend_half(half: u32) -> (r: u64)
    ensures
        r == spec_sign_extend_half(half),
{
    if half & 0x8000 != 0 {
        (half as u64) | 0xffff_ffff_ffff_0000
    } else {
        half as u64
    }
}

impl Cpu {
    /// A CPU with all registers zero, attached to the given interconnect. The
    /// state only becomes bootable through [`Cpu::power_on_reset`].
    pub fn new(interconnect: Interconnect) -> (cpu: Cpu)
        ensures
            cpu_wf(cpu),
            cpu.reg_gpr@.len() == 32,
            forall|i: int| 0 <= i < 32 ==> cpu.reg_gpr@[i] == 0,
            cpu.reg_fpr@.len() == 32,
            forall|i: int| 0 <= i < 32 ==> cpu.reg_fpr@[i] == 0,
            cpu.reg_pc == 0,
            cpu.reg_hi == 0,
            cpu.reg_lo == 0,
            cpu.reg_llbit == false,
            cpu.reg_fcr0 == 0,
            cpu.reg_fcr31 == 0,
            cpu.cp0 == spec_cp0_default(),
            cpu.interconnect.base == interconnect.base,
            cpu.interconnect.words@ == interconnect.words@,
    {
        Cpu {
            reg_gpr: zeroed_register_file(NUM_GPR),
            reg_fpr: zeroed_register_file(NUM_FPR),
            reg_pc: 0,
            reg_hi: 0,
            reg_lo: 0,
            reg_llbit: false,
            reg_fcr0: 0,
            reg_fcr31: 0,
            cp0: Cp0::default(),
            interconnect,
        }
    }

    /// Establishes the architectural reset state, whatever was held before:
    /// the program counter at the boot vector and every modeled CP0 register
    /// at its reset encoding. General-purpose registers are not touched.
    pub fn power_on_reset(&mut self)
        requires
            cpu_wf(*old(self)),
        ensures
            cpu_wf(*final(self)),
            final(self).reg_pc == BOOT_VECTOR,
            final(self).cp0 == spec_cp0_reset(old(self).cp0),
            final(self).reg_gpr@ == old(self).reg_gpr@,
            unchanged_special(*old(self), *final(self)),
    {
        self.cp0.power_on_reset();
        self.reg_pc = BOOT_VECTOR;
    }

    /// Reads general-purpose register `index`: always zero at index 0, the
    /// stored value elsewhere. Never fails.
    pub fn read_reg_gpr(&self, index: usize) -> (value: u64)
        requires
            cpu_wf(*self),
            index < 32,
        ensures
            value == gpr_read_spec(self.reg_gpr@, index as int),
    {
        match index {
            0 => 0,
            _ => self.reg_gpr[index],
        }
    }

    /// Writes general-purpose register `index`: a write to index 0 is
    /// discarded, preserving the zero-register invariant. Never fails.
    pub fn write_reg_gpr(&mut self, index: usize, value: u64)
        requires
            cpu_wf(*old(self)),
            index < 32,
        ensures
            cpu_wf(*final(self)),
            final(self).reg_gpr@ == gpr_write_spec(old(self).reg_gpr@, index as int, value),
            final(self).reg_pc == old(self).reg_pc,
            final(self).cp0 == old(self).cp0,
            unchanged_special(*old(self), *final(self)),
    {
        if index != 0 {
            self.reg_gpr.set(index, value);
        }
    }

    /// Maps a virtual address to a physical address for kseg1, the one
    /// implemented segment: bits 31:29 must hold the kseg1 selector `0b101`
    /// and the address must lie at or above the 64-bit segment base; the
    /// physical address is the offset from that base. Anything else is a
    /// fatal translation error.
    pub fn virtual_addr_to_physical_addr(&self, virtual_addr: u64) -> (r: Result<u64, EmuError>)
        ensures
            r == spec_translate(virtual_addr),
            r matches Ok(physical_addr) ==> physical_addr < KSEG1_SIZE,
    {
        let addr_bit_values = (virtual_addr >> 29) & 0b111;
        if addr_bit_values == 0b101 && virtual_addr >= KSEG1_BASE {
            proof {
                assert(((virtual_addr >> 29) & 0b111 == 0b101 && virtual_addr
                    >= 0xffff_ffff_a000_0000u64) ==> virtual_addr < 0xffff_ffff_c000_0000u64)
                    by (bit_vector);
            }
            Ok(virtual_addr - KSEG1_BASE)
        } else {
            Err(EmuError::UnmappedAddress { virtual_addr })
        }
    }

    /// Reads the 32-bit word at a virtual address: translation, then the bus
    /// read at the resulting physical address.
    pub fn read_word(&self, virtual_addr: u64) -> (r: Result<u32, EmuError>)
        ensures
            r == spec_cpu_read_word(*self, virtual_addr),
    {
        match self.virtual_addr_to_physical_addr(virtual_addr) {
            Ok(physical_addr) => self.interconnect.read_word(physical_addr as u32),
            Err(e) => Err(e),
        }
    }

    /// Executes exactly one instruction as [`step_spec`] describes: fetch at
    /// the program counter, decode, dispatch, advance. On any fatal condition
    /// the error names the offending value and the state is left exactly as
    /// it was.
    pub fn run_instruction(&mut self) -> (r: Result<(), EmuError>)
        requires
            cpu_wf(*old(self)),
        ensures
            cpu_wf(*final(self)),
            step_spec(*old(self), *final(self), r),
    {
        let instruction = match self.read_word(self.reg_pc) {
            Ok(word) => word,
            Err(e) => {
                return Err(e);
            },
        };

        proof {
            let pc = old(self).reg_pc;
            assert(((pc >> 29) & 0b111 == 0b101 && pc >= 0xffff_ffff_a000_0000u64) ==> pc + 4
                < 0xffff_ffff_c000_0004u64) by (bit_vector);
            assert((instruction >> 21) & 0b11111u32 < 32) by (bit_vector);
            assert((instruction >> 16) & 0b11111u32 < 32) by (bit_vector);
            assert((instruction >> 11) & 0b11111u32 < 32) by (bit_vector);
        }

        let opcode = (instruction >> 26) & 0b111111;
        let rs = (instruction >> 21) & 0b11111;
        let rt = (instruction >> 16) & 0b11111;
        let imm = instruction & 0xffff;

        if opcode == OP_ORI {
            let result = self.read_reg_gpr(rs as usize) | (imm as u64);
            self.write_reg_gpr(rt as usize, result);
        } else if opcode == OP_LUI {
            let value = sign_extend_word(imm << 16);
            self.write_reg_gpr(rt as usize, value);
        } else if opcode == OP_MTC0 {
            let rd = (instruction >> 11) & 0b11111;
            let data = self.read_reg_gpr(rt as usize);
            match self.cp0.write_reg(rd, data) {
                Ok(()) => {},
                Err(e) => {
                    return Err(e);
                },
            }
        } else if opcode == OP_LW {
            let base = self.read_reg_gpr(rs as usize);
            let sign_extended_offset = sign_extend_half(imm);
            let virtual_addr = base.wrapping_add(sign_extended_offset);
            let mem = match self.read_word(virtual_addr) {
                Ok(word) => word,
                Err(e) => {
                    return Err(e);
                },
            };
            let value = sign_extend_word(mem);
            self.write_reg_gpr(rt as usize, value);
        } else {
            return Err(EmuError::UnrecognizedInstruction { instruction });
        }

        self.reg_pc = self.reg_pc + 4;
        Ok(())
    }

    /// Drives the engine for at most `max_steps` instructions, stopping early
    /// at the first fatal condition, which is returned. The unbounded driving
    /// loop — "keep calling until told to stop" — belongs to the surrounding
    /// machine, which calls [`Cpu::run_instruction`] repeatedly.
    pub fn run(&mut self, max_steps: usize) -> (e: Option<EmuError>)
        requires
            cpu_wf(*old(self)),
        ensures
            cpu_wf(*final(self)),
            e is None ==> steps_ok(*old(self), *final(self), max_steps as nat),
            e matches Some(err) ==> (exists|prior: Cpu, k: nat|
                {
                    &&& k < max_steps
                    &&& #[trigger] steps_ok(*old(self), prior, k)
                    &&& step_spec(prior, *final(self), Err::<(), EmuError>(err))
                }),
    {
        let mut steps: usize = 0;
        while steps < max_steps
            invariant
                cpu_wf(*self),
                steps <= max_steps,
                steps_ok(*old(self), *self, steps as nat),
            decreases max_steps - steps,
        {
            let ghost prior = *self;
            match self.run_instruction() {
                Ok(()) => {
                    proof {
                        lemma_steps_ok_snoc(*old(self), prior, *self, steps as nat);
                    }
                },
                Err(e) => {
                    proof {
                        assert(steps_ok(*old(self), prior, steps as nat) && step_spec(
                            prior,
                            *self,
                            Err::<(), EmuError>(e),
                        ));
                    }
                    return Some(e);
                },
            }
            steps = steps + 1;
        }
        None
    }
}

/// `n` successful engine steps in a row lead from `pre` exactly to `post`.
pub open spec fn steps_ok(pre: Cpu, post: Cpu, n: nat) -> bool
    decreases n,
{
    if n == 0 {
        post == pre
    } else {
        exists|mid: Cpu|
            #[trigger] step_spec(pre, mid, Ok::<(), EmuError>(())) && steps_ok(
                mid,
                post,
                (n - 1) as nat,
            )
    }
}

/// A successful run of `n` steps followed by one more successful step is a
/// successful run of `n + 1` steps.
pub proof fn lemma_steps_ok_snoc(pre: Cpu, mid: Cpu, post: Cpu, n: nat)
    requires
        steps_ok(pre, mid, n),
        step_spec(mid, post, Ok::<(), EmuError>(())),
    ensures
        steps_ok(pre, post, (n + 1) as nat),
    decreases n,
{
    if n == 0 {
        assert(step_spec(pre, post, Ok::<(), EmuError>(())) && steps_ok(post, post, 0));
    } else {
        let m = choose|m: Cpu|
            #[trigger] step_spec(pre, m, Ok::<(), EmuError>(())) && steps_ok(
                m,
                mid,
                (n - 1) as nat,
            );
        lemma_steps_ok_snoc(m, mid, post, (n - 1) as nat);
        assert(step_spec(pre, m, Ok::<(), EmuError>(())) && steps_ok(m, post, n));
    }
}

/// Zero-register invariant: for every register file and every value, a write
/// to index 0 is discarded, and a read of index 0 returns zero afterwards.
pub proof fn lemma_gpr_zero_register(regs: Seq<u64>, value: u64)
    ensures
        gpr_write_spec(regs, 0, value) == regs,
        gpr_read_spec(gpr_write_spec(regs, 0, value), 0) == 0,
{
}

/// Register-file storage: for every register file, every valid nonzero index
/// and every value, writing the value and then reading the same index
/// returns exactly that value.
pub proof fn lemma_gpr_write_then_read(regs: Seq<u64>, index: int, value: u64)
    requires
        0 < index < regs.len(),
    ensures
        gpr_read_spec(gpr_write_spec(regs, index, value), index) == value,
{
}

} // verus!

