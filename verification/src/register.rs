//! The CPU register file: named 8-bit and 16-bit registers laid out over a
//! shared 12-byte backing store, with a status-flags view of the F register.

use vstd::prelude::*;

use crate::EmuError;

verus! {

/// Byte order used when a 16-bit register value is split into two stored
/// bytes or rebuilt from them. Keeping the order an explicit parameter lets
/// both branches be exercised and proved, instead of hiding one of them
/// behind build-time conditional compilation.
#[derive(Clone, Copy, PartialEq, Eq, Structural, Debug)]
pub enum Endianness {
    Little,
    Big,
}

/// The declared byte order of the execution target. The crate is built for a
/// little-endian target; `read_dword` and `write_dword` recombine and split
/// through this declaration, so the round-trip contract is independent of it.
pub open spec fn spec_target_endianness() -> Endianness {
    Endianness::Little
}

#[verifier::when_used_as_spec(spec_target_endianness)]
pub fn target_endianness() -> (e: Endianness)
    ensures
        e == spec_target_endianness(),
{
    Endianness::Little
}

/// The byte that a 16-bit value contributes to the lower of its two offsets.
pub open spec fn spec_split_first(e: Endianness, v: u16) -> u8 {
    match e {
        Endianness::Little => (v % 256) as u8,
        Endianness::Big => (v / 256) as u8,
    }
}

/// The byte that a 16-bit value contributes to the higher of its two offsets.
pub open spec fn spec_split_second(e: Endianness, v: u16) -> u8 {
    match e {
        Endianness::Little => (v / 256) as u8,
        Endianness::Big => (v % 256) as u8,
    }
}

/// The 16-bit value rebuilt from the byte at the lower offset (`first`) and
/// the byte at the higher offset (`second`).
pub open spec fn spec_combine(e: Endianness, first: u8, second: u8) -> u16 {
    match e {
        Endianness::Little => (second as int * 256 + first as int) as u16,
        Endianness::Big => (first as int * 256 + second as int) as u16,
    }
}

/// Splits a 16-bit value into the pair of bytes stored at (offset, offset+1)
/// under the given byte order.
pub fn split_word16(e: Endianness, v: u16) -> (r: (u8, u8))
    ensures
        r.0 == spec_split_first(e, v),
        r.1 == spec_split_second(e, v),
{
    let low: u8 = (v % 256) as u8;
    let high: u8 = (v / 256) as u8;
    match e {
        Endianness::Little => (low, high),
        Endianness::Big => (high, low),
    }
}

/// Rebuilds a 16-bit value from the bytes stored at (offset, offset+1) under
/// the given byte order.
pub fn combine_word16(e: Endianness, first: u8, second: u8) -> (v: u16)
    ensures
        v == spec_combine(e, first, second),
{
    match e {
        Endianness::Little => (second as u16) * 256 + (first as u16),
        Endianness::Big => (first as u16) * 256 + (second as u16),
    }
}

/// Law: for either byte order, splitting a 16-bit value and recombining the
/// two bytes gives the value back. The stored layout varies with the declared
/// order, but that variance is fully absorbed by the split/recombine pair.
pub proof fn lemma_split_combine_round_trip(e: Endianness, v: u16)
    ensures
        spec_combine(e, spec_split_first(e, v), spec_split_second(e, v)) == v,
{
    assert((v / 256) * 256 + (v % 256) == v) by (bit_vector);
}

/// A register of the CPU, either 8-bit or 16-bit. The 16-bit registers AF,
/// BC, DE and HL are pairs of the 8-bit ones; SP and PC stand alone.
#[derive(Clone, Copy, PartialEq, Eq, Structural, Debug)]
pub enum Register {
    /// The accumulator register.
    A,
    B,
    C,
    D,
    E,
    /// The status flags register.
    F,
    H,
    L,
    AF,
    BC,
    DE,
    HL,
    /// The stack pointer register.
    SP,
    /// The program counter register.
    PC,
}

impl Register {
    /// Data size of the register in bytes: 1 for the named 8-bit registers,
    /// 2 for the pairs and for SP and PC.
    pub open spec fn spec_reg_size(self) -> nat {
        match self {
            Register::A | Register::B | Register::C | Register::D | Register::E | Register::F
                | Register::H | Register::L => 1,
            _ => 2,
        }
    }

    /// Determines the data size (in bytes) of a register.
    pub fn get_reg_size(self) -> (n: usize)
        ensures
            n == self.spec_reg_size(),
    {
        match self {
            Register::A | Register::B | Register::C | Register::D | Register::E | Register::F
                | Register::H | Register::L => 1,
            _ => 2,
        }
    }

    /// The fixed starting offset of the register within the 12-byte backing
    /// store. The 8-bit register sharing an offset with a pair occupies that
    /// pair's low-address byte; its sibling occupies the adjacent byte.
    pub open spec fn spec_offset(self) -> nat {
        match self {
            Register::F | Register::AF => 0,
            Register::A => 1,
            Register::C | Register::BC => 2,
            Register::B => 3,
            Register::E | Register::DE => 4,
            Register::D => 5,
            Register::L | Register::HL => 6,
            Register::H => 7,
            Register::SP => 8,
            Register::PC => 10,
        }
    }
}

/// The byte an 8-bit register holds in a 12-byte backing store.
pub open spec fn spec_read_word(regs: Seq<u8>, reg: Register) -> u8 {
    regs[reg.spec_offset() as int]
}

/// The backing store after an 8-bit register is set to `data`.
pub open spec fn spec_write_word(regs: Seq<u8>, reg: Register, data: u8) -> Seq<u8> {
    regs.update(reg.spec_offset() as int, data)
}

/// The value a 16-bit register holds, recombined from its two stored bytes
/// under the given byte order.
pub open spec fn spec_read_dword(regs: Seq<u8>, reg: Register, e: Endianness) -> u16 {
    spec_combine(e, regs[reg.spec_offset() as int], regs[reg.spec_offset() as int + 1])
}

/// The backing store after a 16-bit register is set to `data`: the split
/// bytes land at (offset, offset+1) under the given byte order.
pub open spec fn spec_write_dword(regs: Seq<u8>, reg: Register, data: u16, e: Endianness) -> Seq<
    u8,
> {
    regs.update(reg.spec_offset() as int, spec_split_first(e, data)).update(
        reg.spec_offset() as int + 1,
        spec_split_second(e, data),
    )
}

/// The backing store after the bytes of `src` are copied over those of
/// `dst`. Meaningful only for registers of one size class.
pub open spec fn spec_copy_reg(regs: Seq<u8>, dst: Register, src: Register) -> Seq<u8> {
    if dst.spec_reg_size() == 1 {
        regs.update(dst.spec_offset() as int, regs[src.spec_offset() as int])
    } else {
        regs.update(dst.spec_offset() as int, regs[src.spec_offset() as int]).update(
            dst.spec_offset() as int + 1,
            regs[src.spec_offset() as int + 1],
        )
    }
}

/// The zero flag: set when the result of a math operation is zero, or when
/// two values match under a compare instruction.
pub const Z_FLAG: u8 = 0x80;

/// The subtract flag: set when the last math instruction performed a
/// subtraction.
pub const N_FLAG: u8 = 0x40;

/// The half-carry flag: set when the last math operation carried out of the
/// lower nibble.
pub const H_FLAG: u8 = 0x20;

/// The carry flag: set when the last math operation carried, or when the
/// accumulator is the smaller value under a compare instruction.
pub const C_FLAG: u8 = 0x10;

/// A fixed-capacity set over the four status bits in the high nibble of the
/// F register. Every value built through this type's operations keeps the
/// low nibble zero.
#[derive(Clone, Copy, PartialEq, Eq, Structural, Debug)]
pub struct StatusFlags {
    bits: u8,
}

impl StatusFlags {
    /// The raw bit pattern of the set, as stored in the F register.
    pub closed spec fn spec_bits(self) -> u8 {
        self.bits
    }

    /// The empty flag set.
    pub fn empty() -> (r: StatusFlags)
        ensures
            r.spec_bits() == 0,
    {
        StatusFlags { bits: 0 }
    }

    /// Builds a flag set from a raw F-register byte. A byte with any
    /// low-nibble bit set is rejected with `InvalidFlagState`, if and only
    /// if; otherwise the set holds exactly the given bits.
    pub fn from_bits(raw: u8) -> (r: Result<StatusFlags, EmuError>)
        ensures
            raw & 0x0F == 0 ==> (r matches Ok(g) && g.spec_bits() == raw),
            raw & 0x0F != 0 ==> r == Err::<StatusFlags, EmuError>(EmuError::InvalidFlagState),
    {
        if raw & 0x0F == 0 {
            Ok(StatusFlags { bits: raw })
        } else {
            Err(EmuError::InvalidFlagState)
        }
    }

    /// The raw bit pattern of the set.
    pub fn bits(self) -> (r: u8)
        ensures
            r == self.spec_bits(),
    {
        self.bits
    }

    /// True when every bit of `other` is set in `self`.
    pub fn contains(self, other: StatusFlags) -> (r: bool)
        ensures
            r == (self.spec_bits() & other.spec_bits() == other.spec_bits()),
    {
        self.bits & other.bits == other.bits
    }

    /// Adds every bit of `other` to the set.
    pub fn insert(&mut self, other: StatusFlags)
        ensures
            final(self).spec_bits() == (old(self).spec_bits() | other.spec_bits()),
    {
        self.bits = self.bits | other.bits;
    }

    /// Clears every bit of `other` from the set.
    pub fn remove(&mut self, other: StatusFlags)
        ensures
            final(self).spec_bits() == (old(self).spec_bits() & !other.spec_bits()),
    {
        self.bits = self.bits & !other.bits;
    }

    /// The set holding the bits of both arguments.
    pub fn union(self, other: StatusFlags) -> (r: StatusFlags)
        ensures
            r.spec_bits() == (self.spec_bits() | other.spec_bits()),
    {
        StatusFlags { bits: self.bits | other.bits }
    }
}

/// What a read of the status flags returns, as a function of the backing
/// bytes: the flag set stored in F, or `InvalidFlagState` when the low
/// nibble of F is non-zero, if and only if.
pub closed spec fn spec_get_flags(regs: Seq<u8>) -> Result<StatusFlags, EmuError> {
    let fb = regs[Register::F.spec_offset() as int];
    if fb & 0x0F == 0 {
        Ok(StatusFlags { bits: fb })
    } else {
        Err(EmuError::InvalidFlagState)
    }
}

/// The register operations of the CPU, stated over a 12-byte model of the
/// backing store. Word operations accept only 8-bit registers and double
/// word operations only 16-bit ones; a mismatch is rejected with
/// `SizeMismatch` and leaves the store unchanged, if and only if.
pub trait RegOps {
    /// Model: the bytes of the backing store, in offset order.
    spec fn regs(&self) -> Seq<u8>;

    /// Get the value of an 8-bit register.
    fn read_word(&self, reg: Register) -> (r: Result<u8, EmuError>)
        requires
            self.regs().len() == 12,
        ensures
            reg.spec_reg_size() == 1 ==> r == Ok::<u8, EmuError>(spec_read_word(self.regs(), reg)),
            reg.spec_reg_size() == 2 ==> r == Err::<u8, EmuError>(EmuError::SizeMismatch),
    ;

    /// Set the value of an 8-bit register.
    fn write_word(&mut self, reg: Register, data: u8) -> (r: Result<(), EmuError>)
        requires
            old(self).regs().len() == 12,
        ensures
            reg.spec_reg_size() == 1 ==> r == Ok::<(), EmuError>(()) && final(self).regs()
                == spec_write_word(old(self).regs(), reg, data),
            reg.spec_reg_size() == 2 ==> r == Err::<(), EmuError>(EmuError::SizeMismatch)
                && final(self).regs() == old(self).regs(),
    ;

    /// Get the value of a 16-bit register, recombining its two stored bytes
    /// under the target's declared byte order.
    fn read_dword(&self, reg: Register) -> (r: Result<u16, EmuError>)
        requires
            self.regs().len() == 12,
        ensures
            reg.spec_reg_size() == 2 ==> r == Ok::<u16, EmuError>(
                spec_read_dword(self.regs(), reg, spec_target_endianness()),
            ),
            reg.spec_reg_size() == 1 ==> r == Err::<u16, EmuError>(EmuError::SizeMismatch),
    ;

    /// Set the value of a 16-bit register, splitting it under the target's
    /// declared byte order.
    fn write_dword(&mut self, reg: Register, data: u16) -> (r: Result<(), EmuError>)
        requires
            old(self).regs().len() == 12,
        ensures
            reg.spec_reg_size() == 2 ==> r == Ok::<(), EmuError>(()) && final(self).regs()
                == spec_write_dword(old(self).regs(), reg, data, spec_target_endianness()),
            reg.spec_reg_size() == 1 ==> r == Err::<(), EmuError>(EmuError::SizeMismatch)
                && final(self).regs() == old(self).regs(),
    ;

    /// Copy the contents of one register into an equally-sized register.
    fn copy_reg(&mut self, dst: Register, src: Register) -> (r: Result<(), EmuError>)
        requires
            old(self).regs().len() == 12,
        ensures
            dst.spec_reg_size() == src.spec_reg_size() ==> r == Ok::<(), EmuError>(())
                && final(self).regs() == spec_copy_reg(old(self).regs(), dst, src),
            dst.spec_reg_size() != src.spec_reg_size() ==> r == Err::<(), EmuError>(
                EmuError::SizeMismatch,
            ) && final(self).regs() == old(self).regs(),
    ;

    /// Get the flag set stored in the F register; a non-zero low nibble
    /// there is rejected with `InvalidFlagState`.
    fn get_flags(&self) -> (r: Result<StatusFlags, EmuError>)
        requires
            self.regs().len() == 12,
        ensures
            r == spec_get_flags(self.regs()),
            spec_read_word(self.regs(), Register::F) & 0x0F == 0 ==> (r matches Ok(g)
                && g.spec_bits() == spec_read_word(self.regs(), Register::F)),
            spec_read_word(self.regs(), Register::F) & 0x0F != 0 ==> r == Err::<
                StatusFlags,
                EmuError,
            >(EmuError::InvalidFlagState),
    ;

    /// Store the flag set's bit pattern into the F register.
    fn set_flags(&mut self, flags: StatusFlags)
        requires
            old(self).regs().len() == 12,
        ensures
            final(self).regs() == spec_write_word(old(self).regs(), Register::F, flags.spec_bits()),
    ;
}

/// The registers of the CPU as one 12-byte store, laid out over the fixed
/// offsets of `Register::spec_offset`: the pairs AF, BC, DE and HL in the
/// first eight bytes with the low-offset sibling first, then SP, then PC.
#[derive(Clone, Copy, Debug)]
pub struct RegDataArray([u8; 12]);

impl RegDataArray {
    /// Builds a register file holding the given 12 bytes.
    pub fn new(arr: [u8; 12]) -> (r: RegDataArray)
        ensures
            r.regs() == arr@,
    {
        RegDataArray(arr)
    }

    /// Determines the starting index in a RegDataArray for the given register.
    fn get_idx_for_register(&self, reg: Register) -> (idx: usize)
        ensures
            idx == reg.spec_offset(),
    {
        match reg {
            Register::F | Register::AF => 0,
            Register::A => 1,
            Register::C | Register::BC => 2,
            Register::B => 3,
            Register::E | Register::DE => 4,
            Register::D => 5,
            Register::L | Register::HL => 6,
            Register::H => 7,
            Register::SP => 8,
            Register::PC => 10,
        }
    }
}

impl RegOps for RegDataArray {
    closed spec fn regs(&self) -> Seq<u8> {
        self.0@
    }

    fn read_word(&self, reg: Register) -> (r: Result<u8, EmuError>) {
        if reg.get_reg_size() != 1 {
            return Err(EmuError::SizeMismatch);
        }
        let idx = self.get_idx_for_register(reg);
        Ok(self.0[idx])
    }

    fn write_word(&mut self, reg: Register, data: u8) -> (r: Result<(), EmuError>) {
        if reg.get_reg_size() != 1 {
            return Err(EmuError::SizeMismatch);
        }
        let idx = self.get_idx_for_register(reg);
        self.0[idx] = data;
        Ok(())
    }

    fn read_dword(&self, reg: Register) -> (r: Result<u16, EmuError>) {
        if reg.get_reg_size() != 2 {
            return Err(EmuError::SizeMismatch);
        }
        let idx = self.get_idx_for_register(reg);
        let first = self.0[idx];
        let second = self.0[idx + 1];
        Ok(combine_word16(target_endianness(), first, second))
    }

    fn write_dword(&mut self, reg: Register, data: u16) -> (r: Result<(), EmuError>) {
        if reg.get_reg_size() != 2 {
            return Err(EmuError::SizeMismatch);
        }
        let idx = self.get_idx_for_register(reg);
        let (first, second) = split_word16(target_endianness(), data);
        self.0[idx] = first;
        self.0[idx + 1] = second;
        Ok(())
    }

    fn copy_reg(&mut self, dst: Register, src: Register) -> (r: Result<(), EmuError>) {
        if dst.get_reg_size() != src.get_reg_size() {
            return Err(EmuError::SizeMismatch);
        }
        let dst_idx = self.get_idx_for_register(dst);
        let src_idx = self.get_idx_for_register(src);
        self.0[dst_idx] = self.0[src_idx];
        if dst.get_reg_size() == 2 {
            self.0[dst_idx + 1] = self.0[src_idx + 1];
        }
        Ok(())
    }

    fn get_flags(&self) -> (r: Result<StatusFlags, EmuError>) {
        let idx = self.get_idx_for_register(Register::F);
        StatusFlags::from_bits(self.0[idx])
    }

    fn set_flags(&mut self, flags: StatusFlags) {
        let idx = self.get_idx_for_register(Register::F);
        self.0[idx] = flags.bits();
    }
}

/// Law: writing a 16-bit register and reading it back returns the value
/// written, under either declared byte order.
pub proof fn lemma_dword_round_trip(regs: Seq<u8>, reg: Register, v: u16, e: Endianness)
    requires
        regs.len() == 12,
        reg.spec_reg_size() == 2,
    ensures
        spec_read_dword(spec_write_dword(regs, reg, v, e), reg, e) == v,
{
    lemma_split_combine_round_trip(e, v);
}

/// Law: writing an 8-bit register and reading it back returns the byte
/// written.
pub proof fn lemma_word_round_trip(regs: Seq<u8>, reg: Register, b: u8)
    requires
        regs.len() == 12,
        reg.spec_reg_size() == 1,
    ensures
        spec_read_word(spec_write_word(regs, reg, b), reg) == b,
{
}

/// Law: a 16-bit write leaves the split bytes at the register's two offsets
/// in a fixed order — the first split byte at the lower offset, the second
/// at the higher one — whatever the declared byte order; only the
/// recombination into a 16-bit value varies with it.
pub proof fn lemma_dword_byte_layout(regs: Seq<u8>, reg: Register, v: u16, e: Endianness)
    requires
        regs.len() == 12,
        reg.spec_reg_size() == 2,
    ensures
        spec_write_dword(regs, reg, v, e)[reg.spec_offset() as int] == spec_split_first(e, v),
        spec_write_dword(regs, reg, v, e)[reg.spec_offset() as int + 1] == spec_split_second(e, v),
{
}

/// Law: after a 16-bit write to AF under the target's declared byte order,
/// the 8-bit register F (the lower offset of the pair) holds the low byte of
/// the value and A holds the high byte.
pub proof fn lemma_af_aliasing(regs: Seq<u8>, v: u16)
    requires
        regs.len() == 12,
    ensures
        spec_read_word(spec_write_dword(regs, Register::AF, v, spec_target_endianness()), Register::F)
            == v % 256,
        spec_read_word(spec_write_dword(regs, Register::AF, v, spec_target_endianness()), Register::A)
            == v / 256,
{
}

/// Law: storing a well-formed flag set into F and reading the flags back
/// returns the same set, and the stored F byte keeps its low nibble zero.
pub proof fn lemma_flags_round_trip(regs: Seq<u8>, f: StatusFlags)
    requires
        regs.len() == 12,
        f.spec_bits() & 0x0F == 0,
    ensures
        spec_read_word(spec_write_word(regs, Register::F, f.spec_bits()), Register::F) & 0x0F == 0,
        spec_get_flags(spec_write_word(regs, Register::F, f.spec_bits())) == Ok::<
            StatusFlags,
            EmuError,
        >(f),
{
}

/// Law: a raw F byte with any low-nibble bit set is rejected when the flags
/// are read, whatever the rest of the store holds.
pub proof fn lemma_flags_rejection(regs: Seq<u8>, b: u8)
    requires
        regs.len() == 12,
        b & 0x0F != 0,
    ensures
        spec_get_flags(spec_write_word(regs, Register::F, b)) == Err::<StatusFlags, EmuError>(
            EmuError::InvalidFlagState,
        ),
{
}

} // verus!
