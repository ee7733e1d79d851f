//! An encoder of x86-64 instructions.
//!
//! Each instruction is one method of `AssemblerX64`, which writes the bytes
//! of the instruction at the place of writing. The contract of a method
//! names the bytes: prefixes, opcode, ModRM, SIB, displacement and immediate,
//! in the order in which the processor reads them.

use crate::assembler::le32;
use crate::assembler::le64;
use crate::assembler::lemma_write_join;
use crate::assembler::write_at;
use crate::assembler::AssemblerBuffer;
use crate::assembler::Label;
use vstd::prelude::*;
use vstd::slice::slice_subrange;

verus! {

/// The low byte of `v`.
pub open spec fn byte(v: int) -> u8 {
    v as u8
}

/// The low byte of `d`.
pub open spec fn low_byte(d: i64) -> u8 {
    d as u8
}

/// The low four bytes of `d`.
pub open spec fn low_word(d: i64) -> u32 {
    d as u32
}

fn low_byte_of(d: i64) -> (r: u8)
    ensures
        r == low_byte(d),
{
    #[verifier::truncate]
    (d as u8)
}

fn low_word_of(d: i64) -> (r: u32)
    ensures
        r == low_word(d),
{
    #[verifier::truncate]
    (d as u32)
}

/// A general register, by its number.
#[derive(Copy, Clone, PartialEq, Eq, Structural, Debug)]
pub struct Register(pub u8);

impl Register {
    /// The register of number `value`.
    pub fn new(value: u8) -> (r: Register)
        requires
            value < 16,
        ensures
            r == Register(value),
    {
        Register(value)
    }

    pub open spec fn spec_low_bits(self) -> u8 {
        self.0 & 0b111
    }

    pub open spec fn spec_value(self) -> u8 {
        self.0
    }

    pub open spec fn spec_needs_rex(self) -> bool {
        self.0 > 7
    }

    /// The three low bits of the number, which go into ModRM or SIB.
    #[verifier::when_used_as_spec(spec_low_bits)]
    pub fn low_bits(self) -> (r: u8)
        ensures
            r == self.spec_low_bits(),
            r < 8,
    {
        let n = self.0;
        let r = n & 0b111;
        assert(r < 8) by (bit_vector)
            requires
                r == n & 0b111,
        ;
        r
    }

    #[verifier::when_used_as_spec(spec_value)]
    pub fn value(self) -> (r: u8)
        ensures
            r == self.spec_value(),
    {
        self.0
    }

    /// Whether the fourth bit of the number is set, which goes into a REX
    /// prefix.
    #[verifier::when_used_as_spec(spec_needs_rex)]
    pub fn needs_rex(self) -> (r: bool)
        ensures
            r == self.spec_needs_rex(),
    {
        self.0 > 7
    }
}

/// The general register of number 0.
#[allow(non_snake_case)]
pub fn RAX() -> (r: Register)
    ensures
        r == Register(0),
{
    Register(0)
}

/// The general register of number 1.
#[allow(non_snake_case)]
pub fn RCX() -> (r: Register)
    ensures
        r == Register(1),
{
    Register(1)
}

/// The general register of number 2.
#[allow(non_snake_case)]
pub fn RDX() -> (r: Register)
    ensures
        r == Register(2),
{
    Register(2)
}

/// The general register of number 3.
#[allow(non_snake_case)]
pub fn RBX() -> (r: Register)
    ensures
        r == Register(3),
{
    Register(3)
}

/// The general register of number 4.
#[allow(non_snake_case)]
pub fn RSP() -> (r: Register)
    ensures
        r == Register(4),
{
    Register(4)
}

/// The general register of number 5.
#[allow(non_snake_case)]
pub fn RBP() -> (r: Register)
    ensures
        r == Register(5),
{
    Register(5)
}

/// The general register of number 6.
#[allow(non_snake_case)]
pub fn RSI() -> (r: Register)
    ensures
        r == Register(6),
{
    Register(6)
}

/// The general register of number 7.
#[allow(non_snake_case)]
pub fn RDI() -> (r: Register)
    ensures
        r == Register(7),
{
    Register(7)
}

/// The general register of number 8.
#[allow(non_snake_case)]
pub fn R8() -> (r: Register)
    ensures
        r == Register(8),
{
    Register(8)
}

/// The general register of number 9.
#[allow(non_snake_case)]
pub fn R9() -> (r: Register)
    ensures
        r == Register(9),
{
    Register(9)
}

/// The general register of number 10.
#[allow(non_snake_case)]
pub fn R10() -> (r: Register)
    ensures
        r == Register(10),
{
    Register(10)
}

/// The general register of number 11.
#[allow(non_snake_case)]
pub fn R11() -> (r: Register)
    ensures
        r == Register(11),
{
    Register(11)
}

/// The general register of number 12.
#[allow(non_snake_case)]
pub fn R12() -> (r: Register)
    ensures
        r == Register(12),
{
    Register(12)
}

/// The general register of number 13.
#[allow(non_snake_case)]
pub fn R13() -> (r: Register)
    ensures
        r == Register(13),
{
    Register(13)
}

/// The general register of number 14.
#[allow(non_snake_case)]
pub fn R14() -> (r: Register)
    ensures
        r == Register(14),
{
    Register(14)
}

/// The general register of number 15.
#[allow(non_snake_case)]
pub fn R15() -> (r: Register)
    ensures
        r == Register(15),
{
    Register(15)
}

/// The vector register of number 0.
#[allow(non_snake_case)]
pub fn XMM0() -> (r: XmmRegister)
    ensures
        r == XmmRegister(0),
{
    XmmRegister(0)
}

/// The vector register of number 1.
#[allow(non_snake_case)]
pub fn XMM1() -> (r: XmmRegister)
    ensures
        r == XmmRegister(1),
{
    XmmRegister(1)
}

/// The vector register of number 2.
#[allow(non_snake_case)]
pub fn XMM2() -> (r: XmmRegister)
    ensures
        r == XmmRegister(2),
{
    XmmRegister(2)
}

/// The vector register of number 3.
#[allow(non_snake_case)]
pub fn XMM3() -> (r: XmmRegister)
    ensures
        r == XmmRegister(3),
{
    XmmRegister(3)
}

/// The vector register of number 4.
#[allow(non_snake_case)]
pub fn XMM4() -> (r: XmmRegister)
    ensures
        r == XmmRegister(4),
{
    XmmRegister(4)
}

/// The vector register of number 5.
#[allow(non_snake_case)]
pub fn XMM5() -> (r: XmmRegister)
    ensures
        r == XmmRegister(5),
{
    XmmRegister(5)
}

/// The vector register of number 6.
#[allow(non_snake_case)]
pub fn XMM6() -> (r: XmmRegister)
    ensures
        r == XmmRegister(6),
{
    XmmRegister(6)
}

/// The vector register of number 7.
#[allow(non_snake_case)]
pub fn XMM7() -> (r: XmmRegister)
    ensures
        r == XmmRegister(7),
{
    XmmRegister(7)
}

/// The vector register of number 8.
#[allow(non_snake_case)]
pub fn XMM8() -> (r: XmmRegister)
    ensures
        r == XmmRegister(8),
{
    XmmRegister(8)
}

/// The vector register of number 9.
#[allow(non_snake_case)]
pub fn XMM9() -> (r: XmmRegister)
    ensures
        r == XmmRegister(9),
{
    XmmRegister(9)
}

/// The vector register of number 10.
#[allow(non_snake_case)]
pub fn XMM10() -> (r: XmmRegister)
    ensures
        r == XmmRegister(10),
{
    XmmRegister(10)
}

/// The vector register of number 11.
#[allow(non_snake_case)]
pub fn XMM11() -> (r: XmmRegister)
    ensures
        r == XmmRegister(11),
{
    XmmRegister(11)
}

/// The vector register of number 12.
#[allow(non_snake_case)]
pub fn XMM12() -> (r: XmmRegister)
    ensures
        r == XmmRegister(12),
{
    XmmRegister(12)
}

/// The vector register of number 13.
#[allow(non_snake_case)]
pub fn XMM13() -> (r: XmmRegister)
    ensures
        r == XmmRegister(13),
{
    XmmRegister(13)
}

/// The vector register of number 14.
#[allow(non_snake_case)]
pub fn XMM14() -> (r: XmmRegister)
    ensures
        r == XmmRegister(14),
{
    XmmRegister(14)
}

/// The vector register of number 15.
#[allow(non_snake_case)]
pub fn XMM15() -> (r: XmmRegister)
    ensures
        r == XmmRegister(15),
{
    XmmRegister(15)
}

/// The register `RAX`.
pub open spec fn spec_rax() -> Register {
    Register(0)
}

/// The register `RSP`.
pub open spec fn spec_rsp() -> Register {
    Register(4)
}

/// The register `RBP`.
pub open spec fn spec_rbp() -> Register {
    Register(5)
}

/// A vector register, by its number.
#[derive(Copy, Clone, PartialEq, Eq, Structural, Debug)]
pub struct XmmRegister(pub u8);

impl XmmRegister {
    pub fn new(value: u8) -> (r: XmmRegister)
        ensures
            r == XmmRegister(value),
    {
        XmmRegister(value)
    }

    pub open spec fn spec_low_bits(self) -> u8 {
        self.0 & 0b111
    }

    pub open spec fn spec_value(self) -> u8 {
        self.0
    }

    pub open spec fn spec_needs_rex(self) -> bool {
        self.0 > 7
    }

    #[verifier::when_used_as_spec(spec_low_bits)]
    pub fn low_bits(self) -> (r: u8)
        ensures
            r == self.spec_low_bits(),
            r < 8,
    {
        let n = self.0;
        let r = n & 0b111;
        assert(r < 8) by (bit_vector)
            requires
                r == n & 0b111,
        ;
        r
    }

    #[verifier::when_used_as_spec(spec_value)]
    pub fn value(self) -> (r: u8)
        ensures
            r == self.spec_value(),
    {
        self.0
    }

    #[verifier::when_used_as_spec(spec_needs_rex)]
    pub fn needs_rex(self) -> (r: bool)
        ensures
            r == self.spec_needs_rex(),
    {
        self.0 > 7
    }
}

/// A jump that was written before its label was bound: where its distance
/// stands in the code, the label, and the room that was left for the
/// distance.
#[derive(Copy, Clone, PartialEq, Eq, Structural, Debug)]
pub struct ForwardJump {
    pub offset: u32,
    pub label: Label,
    pub distance: JumpDistance,
}

/// The room of a jump distance: one byte or four.
#[derive(Copy, Clone, PartialEq, Eq, Structural, Debug)]
pub enum JumpDistance {
    Near,
    Far,
}

/// The condition of a conditional instruction. Several names stand for the
/// same condition.
#[derive(Copy, Clone, PartialEq, Eq, Structural, Debug)]
pub enum Condition {
    Overflow,
    NoOverflow,
    Below,
    NeitherAboveNorEqual,
    NotBelow,
    AboveOrEqual,
    Equal,
    Zero,
    NotEqual,
    NotZero,
    BelowOrEqual,
    NotAbove,
    NeitherBelowNorEqual,
    Above,
    Sign,
    NoSign,
    Parity,
    ParityEven,
    NoParity,
    ParityOdd,
    Less,
    NeitherGreaterNorEqual,
    NotLess,
    GreaterOrEqual,
    LessOrEqual,
    NotGreater,
    NeitherLessNorEqual,
    Greater,
}

impl Condition {
    pub open spec fn spec_number(self) -> u8 {
        match self {
            Condition::Overflow => 0b0000,
            Condition::NoOverflow => 0b0001,
            Condition::Below | Condition::NeitherAboveNorEqual => 0b0010,
            Condition::NotBelow | Condition::AboveOrEqual => 0b0011,
            Condition::Equal | Condition::Zero => 0b0100,
            Condition::NotEqual | Condition::NotZero => 0b0101,
            Condition::BelowOrEqual | Condition::NotAbove => 0b0110,
            Condition::NeitherBelowNorEqual | Condition::Above => 0b0111,
            Condition::Sign => 0b1000,
            Condition::NoSign => 0b1001,
            Condition::Parity | Condition::ParityEven => 0b1010,
            Condition::NoParity | Condition::ParityOdd => 0b1011,
            Condition::Less | Condition::NeitherGreaterNorEqual => 0b1100,
            Condition::NotLess | Condition::GreaterOrEqual => 0b1101,
            Condition::LessOrEqual | Condition::NotGreater => 0b1110,
            Condition::NeitherLessNorEqual | Condition::Greater => 0b1111,
        }
    }

    /// The four bits that stand for the condition in an opcode.
    #[verifier::when_used_as_spec(spec_number)]
    pub fn number(self) -> (r: u8)
        ensures
            r == self.spec_number(),
            r < 16,
    {
        match self {
            Condition::Overflow => 0b0000,
            Condition::NoOverflow => 0b0001,
            Condition::Below | Condition::NeitherAboveNorEqual => 0b0010,
            Condition::NotBelow | Condition::AboveOrEqual => 0b0011,
            Condition::Equal | Condition::Zero => 0b0100,
            Condition::NotEqual | Condition::NotZero => 0b0101,
            Condition::BelowOrEqual | Condition::NotAbove => 0b0110,
            Condition::NeitherBelowNorEqual | Condition::Above => 0b0111,
            Condition::Sign => 0b1000,
            Condition::NoSign => 0b1001,
            Condition::Parity | Condition::ParityEven => 0b1010,
            Condition::NoParity | Condition::ParityOdd => 0b1011,
            Condition::Less | Condition::NeitherGreaterNorEqual => 0b1100,
            Condition::NotLess | Condition::GreaterOrEqual => 0b1101,
            Condition::LessOrEqual | Condition::NotGreater => 0b1110,
            Condition::NeitherLessNorEqual | Condition::Greater => 0b1111,
        }
    }
}

/// A number that is written into an instruction.
pub struct Immediate(pub i64);

impl Immediate {
    pub open spec fn spec_is_int8(&self) -> bool {
        -128 <= self.0 < 128
    }

    pub open spec fn spec_is_int32(&self) -> bool {
        -0x8000_0000 <= self.0 < 0x8000_0000
    }

    pub open spec fn spec_is_uint8(&self) -> bool {
        0 <= self.0 < 256
    }

    pub open spec fn spec_is_uint32(&self) -> bool {
        0 <= self.0 < 0x1_0000_0000
    }

    pub open spec fn spec_uint8(&self) -> u8 {
        self.0 as u8
    }

    pub open spec fn spec_int8(&self) -> i8 {
        self.0 as i8
    }

    pub open spec fn spec_int32(&self) -> i32 {
        self.0 as i32
    }

    pub open spec fn spec_uint32(&self) -> u32 {
        self.0 as u32
    }

    pub open spec fn spec_int64(&self) -> i64 {
        self.0
    }

    pub open spec fn spec_int8_bits(&self) -> u8 {
        (self.0 as i8) as u8
    }

    pub open spec fn spec_int32_bits(&self) -> u32 {
        (self.0 as i32) as u32
    }

    pub open spec fn spec_int64_bits(&self) -> u64 {
        self.0 as u64
    }

    #[verifier::when_used_as_spec(spec_is_int8)]
    pub fn is_int8(&self) -> (r: bool)
        ensures
            r == self.spec_is_int8(),
    {
        -128 <= self.0 && self.0 < 128
    }

    #[verifier::when_used_as_spec(spec_is_int32)]
    pub fn is_int32(&self) -> (r: bool)
        ensures
            r == self.spec_is_int32(),
    {
        -0x8000_0000 <= self.0 && self.0 < 0x8000_0000
    }

    #[verifier::when_used_as_spec(spec_is_uint8)]
    pub fn is_uint8(&self) -> (r: bool)
        ensures
            r == self.spec_is_uint8(),
    {
        0 <= self.0 && self.0 < 256
    }

    #[verifier::when_used_as_spec(spec_is_uint32)]
    pub fn is_uint32(&self) -> (r: bool)
        ensures
            r == self.spec_is_uint32(),
    {
        0 <= self.0 && self.0 < 0x1_0000_0000
    }

    #[verifier::when_used_as_spec(spec_uint8)]
    pub fn uint8(&self) -> (r: u8)
        ensures
            r == self.spec_uint8(),
    {
        #[verifier::truncate]
        (self.0 as u8)
    }

    #[verifier::when_used_as_spec(spec_int8)]
    pub fn int8(&self) -> (r: i8)
        ensures
            r == self.spec_int8(),
    {
        #[verifier::truncate]
        (self.0 as i8)
    }

    #[verifier::when_used_as_spec(spec_int32)]
    pub fn int32(&self) -> (r: i32)
        ensures
            r == self.spec_int32(),
    {
        #[verifier::truncate]
        (self.0 as i32)
    }

    #[verifier::when_used_as_spec(spec_uint32)]
    pub fn uint32(&self) -> (r: u32)
        ensures
            r == self.spec_uint32(),
    {
        #[verifier::truncate]
        (self.0 as u32)
    }

    #[verifier::when_used_as_spec(spec_int64)]
    pub fn int64(&self) -> (r: i64)
        ensures
            r == self.spec_int64(),
    {
        self.0
    }

    /// The byte that holds the number as it is written into an instruction
    /// that takes eight bits.
    #[verifier::when_used_as_spec(spec_int8_bits)]
    pub fn int8_bits(&self) -> (r: u8)
        ensures
            r == self.spec_int8_bits(),
    {
        let narrow = #[verifier::truncate] (self.0 as i8);
        #[verifier::truncate]
        (narrow as u8)
    }

    /// The four bytes that hold the number as it is written into an
    /// instruction that takes thirty-two bits.
    #[verifier::when_used_as_spec(spec_int32_bits)]
    pub fn int32_bits(&self) -> (r: u32)
        ensures
            r == self.spec_int32_bits(),
    {
        let narrow = #[verifier::truncate] (self.0 as i32);
        #[verifier::truncate]
        (narrow as u32)
    }

    /// The eight bytes that hold the number.
    #[verifier::when_used_as_spec(spec_int64_bits)]
    pub fn int64_bits(&self) -> (r: u64)
        ensures
            r == self.spec_int64_bits(),
    {
        #[verifier::truncate]
        (self.0 as u64)
    }
}

/// By how much an index is scaled.
#[derive(Copy, Clone, PartialEq, Eq, Structural, Debug)]
pub enum ScaleFactor {
    One,
    Two,
    Four,
    Eight,
}

impl ScaleFactor {
    pub open spec fn spec_value(self) -> u8 {
        match self {
            ScaleFactor::One => 0,
            ScaleFactor::Two => 1,
            ScaleFactor::Four => 2,
            ScaleFactor::Eight => 3,
        }
    }

    /// The two bits that stand for the factor in SIB.
    #[verifier::when_used_as_spec(spec_value)]
    pub fn value(self) -> (r: u8)
        ensures
            r == self.spec_value(),
            r < 4,
    {
        match self {
            ScaleFactor::One => 0,
            ScaleFactor::Two => 1,
            ScaleFactor::Four => 2,
            ScaleFactor::Eight => 3,
        }
    }
}

/// The ModRM byte of an address: the mode and the low bits of the register,
/// with room left for the other operand.
pub open spec fn modrm_rm(mode: u8, reg: Register) -> u8 {
    mode << 6 | reg.low_bits()
}

/// The SIB byte.
pub open spec fn sib(scale: ScaleFactor, index: Register, base: Register) -> u8 {
    scale.value() << 6 | index.low_bits() << 3 | base.low_bits()
}

/// The REX bits that an address has after its ModRM byte names `reg`.
pub open spec fn rex_of_modrm(rex: u8, reg: Register) -> u8 {
    if reg.needs_rex() {
        rex | 0x41
    } else {
        rex
    }
}

/// The REX bits that an address has after its SIB byte names `index` and
/// `base`.
pub open spec fn rex_of_sib(rex: u8, index: Register, base: Register) -> u8 {
    let with_base = if base.needs_rex() {
        rex | 0x41
    } else {
        rex
    };
    if index.needs_rex() {
        with_base | 0x42
    } else {
        with_base
    }
}

/// The mode of an address with the displacement `disp` from `base`: none
/// where there is no displacement and the base is not `RBP`, one byte where
/// the displacement fits, four bytes else.
pub open spec fn mode_of(disp: i32, base: Register) -> u8 {
    if disp == 0 && base != spec_rbp() {
        0b00
    } else if -128 <= disp < 128 {
        0b01
    } else {
        0b10
    }
}

/// The bytes of the displacement `disp` in mode `mode`.
pub open spec fn disp_bytes(mode: u8, disp: i32) -> Seq<u8> {
    if mode == 0b00 {
        Seq::empty()
    } else if mode == 0b01 {
        seq![(disp as i8) as u8]
    } else {
        le32(disp as u32)
    }
}

/// The operand of an instruction that lies in memory: the bytes that name
/// it, without the bits of the other operand, and the REX bits it needs.
#[derive(Copy, Clone)]
pub struct Address {
    rex: u8,
    length: u8,
    bytes: [u8; 6],
}

impl Address {
    /// The address holds its ModRM byte and at most six bytes in all.
    pub closed spec fn wf(&self) -> bool {
        1 <= self.length <= 6
    }

    /// The REX bits that the address needs.
    pub closed spec fn rex_bits(&self) -> u8 {
        self.rex
    }

    /// The bytes that name the address: ModRM, then SIB and displacement
    /// where it has them.
    pub closed spec fn encoded(&self) -> Seq<u8> {
        self.bytes@.subrange(0, self.length as int)
    }

    fn new() -> (r: Address)
        ensures
            r.rex == 0,
            r.length == 0,
    {
        Address { rex: 0, length: 0, bytes: [0; 6] }
    }

    fn set_modrm(&mut self, mode: u8, reg: Register)
        requires
            mode < 4,
            old(self).length == 0,
        ensures
            final(self).rex == rex_of_modrm(old(self).rex, reg),
            final(self).length == 1,
            final(self).encoded() == seq![modrm_rm(mode, reg)],
    {
        if reg.needs_rex() {
            self.rex |= 0x41;
        }
        let b = mode << 6 | reg.low_bits();
        self.bytes[0] = b;
        self.length += 1;
        assert(self.encoded() =~= seq![modrm_rm(mode, reg)]);
    }

    fn set_sib(&mut self, scale: ScaleFactor, index: Register, base: Register)
        requires
            old(self).length == 1,
        ensures
            final(self).rex == rex_of_sib(old(self).rex, index, base),
            final(self).length == 2,
            final(self).encoded() == old(self).encoded().push(sib(scale, index, base)),
    {
        if base.needs_rex() {
            self.rex |= 0x41;
        }
        if index.needs_rex() {
            self.rex |= 0x42;
        }
        let b = scale.value() << 6 | index.low_bits() << 3 | base.low_bits();
        self.bytes[1] = b;
        self.length += 1;
        assert(self.encoded() =~= old(self).encoded().push(sib(scale, index, base)));
    }

    fn set_disp8(&mut self, imm: i8)
        requires
            old(self).length == 1 || old(self).length == 2,
        ensures
            final(self).rex == old(self).rex,
            final(self).length == old(self).length + 1,
            final(self).encoded() == old(self).encoded().push(imm as u8),
    {
        let b = #[verifier::truncate] (imm as u8);
        let at = self.length as usize;
        self.bytes[at] = b;
        self.length += 1;
        assert(self.encoded() =~= old(self).encoded().push(imm as u8));
    }

    fn set_disp32(&mut self, imm: i32)
        requires
            old(self).length == 1 || old(self).length == 2,
        ensures
            final(self).rex == old(self).rex,
            final(self).length == old(self).length + 4,
            final(self).encoded() == old(self).encoded() + le32(imm as u32),
    {
        let idx = self.length as usize;
        let imm = #[verifier::truncate] (imm as u32);
        let b0 = #[verifier::truncate] (imm as u8);
        let b1 = #[verifier::truncate] ((imm >> 8) as u8);
        let b2 = #[verifier::truncate] ((imm >> 16) as u8);
        let b3 = #[verifier::truncate] ((imm >> 24) as u8);
        self.bytes[idx] = b0;
        self.bytes[idx + 1] = b1;
        self.bytes[idx + 2] = b2;
        self.bytes[idx + 3] = b3;
        self.length += 4;
        assert(self.encoded() =~= old(self).encoded() + le32(imm));
    }

    fn set_disp(&mut self, mode: u8, disp: i32)
        requires
            mode < 3,
            old(self).length == 1 || old(self).length == 2,
        ensures
            final(self).rex == old(self).rex,
            final(self).wf(),
            final(self).encoded() == old(self).encoded() + disp_bytes(mode, disp),
    {
        if mode == 0b00 {
            assert(self.encoded() + disp_bytes(mode, disp) =~= self.encoded());
        } else if mode == 0b01 {
            let narrow = #[verifier::truncate] (disp as i8);
            self.set_disp8(narrow);
            assert(old(self).encoded().push(narrow as u8) =~= old(self).encoded() + disp_bytes(
                mode,
                disp,
            ));
        } else {
            self.set_disp32(disp);
        }
    }

    /// The address that `base` holds.
    pub fn reg(base: Register) -> (r: Address)
        ensures
            r.wf(),
            r.rex_bits() == offset_rex(base),
            r.encoded() == offset_bytes(base, 0),
    {
        Address::offset(base, 0)
    }

    /// The address `offset` bytes behind the one that `base` holds.
    pub fn offset(base: Register, offset: i32) -> (r: Address)
        ensures
            r.wf(),
            r.rex_bits() == offset_rex(base),
            r.encoded() == offset_bytes(base, offset),
    {
        let mut address = Address::new();
        let mode: u8 = if offset == 0 && base != RBP() {
            0b00
        } else if -128 <= offset && offset < 128 {
            0b01
        } else {
            0b10
        };
        address.set_modrm(mode, base);
        if base == RSP() {
            address.set_sib(ScaleFactor::One, RSP(), base);
        }
        address.set_disp(mode, offset);
        address
    }

    /// The address `disp` bytes behind `factor` times what `index` holds.
    pub fn index(index: Register, factor: ScaleFactor, disp: i32) -> (r: Address)
        requires
            index != spec_rsp(),
        ensures
            r.wf(),
            r.rex_bits() == rex_of_sib(rex_of_modrm(0, spec_rsp()), index, spec_rbp()),
            r.encoded() == seq![modrm_rm(0b00, spec_rsp()), sib(factor, index, spec_rbp())] + le32(disp as u32),
    {
        let mut address = Address::new();
        address.set_modrm(0b00, RSP());
        address.set_sib(factor, index, RBP());
        address.set_disp32(disp);
        assert(address.encoded() =~= seq![modrm_rm(0b00, spec_rsp()), sib(factor, index, spec_rbp())] + le32(
            disp as u32,
        ));
        address
    }

    /// The address `disp` bytes behind what `base` holds plus `factor` times
    /// what `index` holds.
    pub fn array(base: Register, index: Register, factor: ScaleFactor, disp: i32) -> (r: Address)
        requires
            index != spec_rsp(),
        ensures
            r.wf(),
            r.rex_bits() == rex_of_sib(rex_of_modrm(0, spec_rsp()), index, base),
            r.encoded() == seq![modrm_rm(mode_of(disp, base), spec_rsp()), sib(factor, index, base)]
                + disp_bytes(mode_of(disp, base), disp),
    {
        let mut address = Address::new();
        let mode: u8 = if disp == 0 && base != RBP() {
            0b00
        } else if -128 <= disp && disp < 128 {
            0b01
        } else {
            0b10
        };
        address.set_modrm(mode, RSP());
        address.set_sib(factor, index, base);
        assert(address.encoded() =~= seq![modrm_rm(mode, spec_rsp()), sib(factor, index, base)]);
        address.set_disp(mode, disp);
        address
    }

    /// The address `disp` bytes behind the instruction.
    pub fn rip(disp: i32) -> (r: Address)
        ensures
            r.wf(),
            r.rex_bits() == rex_of_modrm(0, spec_rbp()),
            r.encoded() == seq![modrm_rm(0b00, spec_rbp())] + le32(disp as u32),
    {
        let mut address = Address::new();
        address.set_modrm(0b00, RBP());
        address.set_disp32(disp);
        address
    }

    /// The bytes that name the address.
    pub fn encoded_bytes(&self) -> (r: &[u8])
        requires
            self.wf(),
        ensures
            r@ == self.encoded(),
    {
        slice_subrange(self.bytes.as_slice(), 0, self.length as usize)
    }

    /// The REX bits that the address needs.
    pub fn rex(&self) -> (r: u8)
        ensures
            r == self.rex_bits(),
    {
        self.rex
    }
}

/// The REX bits of the address of `Address::offset`.
pub open spec fn offset_rex(base: Register) -> u8 {
    if base == spec_rsp() {
        rex_of_sib(rex_of_modrm(0, base), spec_rsp(), base)
    } else {
        rex_of_modrm(0, base)
    }
}

/// The bytes of the address of `Address::offset`: ModRM, a SIB byte where
/// the base is `RSP`, and the displacement.
pub open spec fn offset_bytes(base: Register, offset: i32) -> Seq<u8> {
    let mode = mode_of(offset, base);
    if base == spec_rsp() {
        seq![modrm_rm(mode, base)].push(sib(ScaleFactor::One, spec_rsp(), base)) + disp_bytes(mode, offset)
    } else {
        seq![modrm_rm(mode, base)] + disp_bytes(mode, offset)
    }
}

/// The REX prefix with the bits `w`, `r`, `x` and `b`.
pub open spec fn rex(w: bool, r: bool, x: bool, b: bool) -> u8 {
    0x40u8 | (if w {
        8u8
    } else {
        0u8
    }) | (if r {
        4u8
    } else {
        0u8
    }) | (if x {
        2u8
    } else {
        0u8
    }) | (if b {
        1u8
    } else {
        0u8
    })
}

/// The ModRM byte.
pub open spec fn modrm(mode: u8, reg: u8, rm: u8) -> u8 {
    mode << 6 | reg << 3 | rm
}

pub open spec fn lock_prefix() -> Seq<u8> {
    seq![0xF0u8]
}

pub open spec fn rex_prefix(w: bool, r: bool, x: bool, b: bool) -> Seq<u8> {
    seq![rex(w, r, x, b)]
}

pub open spec fn rex_optional(w: bool, r: bool, x: bool, b: bool) -> Seq<u8> {
    if w || r || x || b {
        rex_prefix(w, r, x, b)
    } else {
        Seq::empty()
    }
}

pub open spec fn rex_sse_modrm_optional(reg: XmmRegister, rm: XmmRegister) -> Seq<u8> {
    if reg.needs_rex() || rm.needs_rex() {
        rex_prefix(false, reg.needs_rex(), false, rm.needs_rex())
    } else {
        Seq::empty()
    }
}

/// The REX bit of the register operand beside an address.
pub open spec fn reg_bit(needs_rex: bool) -> u8 {
    if needs_rex {
        0x04
    } else {
        0
    }
}

pub open spec fn rex_sse_address_optional(reg: XmmRegister, address: Address) -> Seq<u8> {
    if address.rex_bits() != 0 || reg.needs_rex() {
        seq![0x40u8 | address.rex_bits() | reg_bit(reg.needs_rex())]
    } else {
        Seq::empty()
    }
}

pub open spec fn rex32_rm_optional(reg: Register) -> Seq<u8> {
    if reg.needs_rex() {
        rex_prefix(false, false, false, true)
    } else {
        Seq::empty()
    }
}

pub open spec fn rex32_byte_optional(reg: Register, rm: Register) -> Seq<u8> {
    if reg.needs_rex() || rm.needs_rex() || rm.value() > 3 {
        rex_prefix(false, reg.needs_rex(), false, rm.needs_rex())
    } else {
        Seq::empty()
    }
}

pub open spec fn rex32_optional(reg: Register, rm: Register) -> Seq<u8> {
    if reg.needs_rex() || rm.needs_rex() {
        rex_prefix(false, reg.needs_rex(), false, rm.needs_rex())
    } else {
        Seq::empty()
    }
}

pub open spec fn rex64() -> Seq<u8> {
    rex_prefix(true, false, false, false)
}

pub open spec fn rex64_rm(rm: Register) -> Seq<u8> {
    rex_prefix(true, false, false, rm.needs_rex())
}

pub open spec fn rex64_modrm_address(reg: Register, address: Address) -> Seq<u8> {
    seq![0x48u8 | address.rex_bits() | reg_bit(reg.needs_rex())]
}

pub open spec fn rex64_address(address: Address) -> Seq<u8> {
    seq![0x48u8 | address.rex_bits()]
}

pub open spec fn rex32_modrm_address(reg: Register, address: Address) -> Seq<u8> {
    if address.rex_bits() != 0 || reg.needs_rex() {
        seq![0x40u8 | address.rex_bits() | reg_bit(reg.needs_rex())]
    } else {
        Seq::empty()
    }
}

pub open spec fn rex32_byte_address(reg: Register, address: Address) -> Seq<u8> {
    if address.rex_bits() != 0 || reg.value() > 3 {
        seq![0x40u8 | address.rex_bits() | reg_bit(reg.needs_rex())]
    } else {
        Seq::empty()
    }
}

pub open spec fn rex32_address_optional(address: Address) -> Seq<u8> {
    if address.rex_bits() != 0 {
        seq![0x40u8 | address.rex_bits()]
    } else {
        Seq::empty()
    }
}

pub open spec fn rex64_modrm(reg: Register, rm: Register) -> Seq<u8> {
    rex_prefix(true, reg.needs_rex(), false, rm.needs_rex())
}

pub open spec fn modrm_bytes(mode: u8, reg: u8, rm: u8) -> Seq<u8> {
    seq![modrm(mode, reg, rm)]
}

pub open spec fn modrm_registers(reg: Register, rm: Register) -> Seq<u8> {
    modrm_bytes(0b11, reg.low_bits(), rm.low_bits())
}

pub open spec fn modrm_sse_registers(reg: XmmRegister, rm: XmmRegister) -> Seq<u8> {
    modrm_bytes(0b11, reg.low_bits(), rm.low_bits())
}

pub open spec fn modrm_opcode(opcode: u8, reg: Register) -> Seq<u8> {
    modrm_bytes(0b11, opcode, reg.low_bits())
}

/// The bytes of `address` with `reg_or_opcode` in the room that its ModRM
/// byte leaves.
pub open spec fn address_bytes(reg_or_opcode: u8, address: Address) -> Seq<u8> {
    seq![reg_or_opcode << 3 | address.encoded()[0]] + address.encoded().subrange(
        1,
        address.encoded().len() as int,
    )
}

/// Opcode, ModRM and immediate of an arithmetic instruction on `reg` and
/// `imm`: the short form for one byte, the form of `RAX` for that register,
/// the long form else.
pub open spec fn alu_imm(reg: Register, imm: Immediate, modrm_reg: u8, rax_opcode: u8) -> Seq<u8> {
    if imm.is_int8() {
        seq![0x83u8] + modrm_opcode(modrm_reg, reg) + seq![imm.int8_bits()]
    } else if reg == spec_rax() {
        seq![rax_opcode] + le32(imm.int32_bits())
    } else {
        seq![0x81u8] + modrm_opcode(modrm_reg, reg) + le32(imm.int32_bits())
    }
}

pub open spec fn alu64_imm(reg: Register, imm: Immediate, modrm_reg: u8, rax_opcode: u8) -> Seq<u8> {
    rex64_rm(reg) + alu_imm(reg, imm, modrm_reg, rax_opcode)
}

pub open spec fn alu32_imm(reg: Register, imm: Immediate, modrm_reg: u8, rax_opcode: u8) -> Seq<u8> {
    rex32_rm_optional(reg) + alu_imm(reg, imm, modrm_reg, rax_opcode)
}

/// An encoder of instructions, with the jumps whose labels are not bound
/// yet.
pub struct AssemblerX64 {
    pub unresolved_jumps: Vec<ForwardJump>,
    pub buffer: AssemblerBuffer,
}

/// Writing `x` and then `y` is writing `x + y`.
pub proof fn lemma_wrote_join(
    a: AssemblerX64,
    b: AssemblerX64,
    c: AssemblerX64,
    x: Seq<u8>,
    y: Seq<u8>,
)
    requires
        a.wf(),
        a.wrote(b, x),
        b.wrote(c, y),
    ensures
        a.wrote(c, x + y),
{
    lemma_write_join(a.buffer.code@, a.buffer.position as int, x, y);
}

/// Writing nothing is writing the empty sequence.
pub proof fn lemma_wrote_nothing(a: AssemblerX64)
    requires
        a.wf(),
    ensures
        a.wrote(a, Seq::empty()),
{
    assert(write_at(a.buffer.code@, a.buffer.position as int, Seq::empty()) =~= a.buffer.code@);
}

impl AssemblerX64 {
    /// The place of writing lies in the code or at its end.
    pub open spec fn wf(&self) -> bool {
        self.buffer.wf()
    }

    /// Whether `next` is this encoder after `bytes` have been written at
    /// its place of writing, which has moved behind them, and nothing else
    /// has changed.
    pub open spec fn wrote(&self, next: AssemblerX64, bytes: Seq<u8>) -> bool {
        &&& self.buffer.wrote(next.buffer, bytes)
        &&& next.unresolved_jumps@ == self.unresolved_jumps@
    }

    pub fn new() -> (r: AssemblerX64)
        ensures
            r.wf(),
            r.buffer.code@.len() == 0,
            r.buffer.position == 0,
            r.buffer.labels@.len() == 0,
            r.unresolved_jumps@.len() == 0,
    {
        AssemblerX64 { unresolved_jumps: Vec::new(), buffer: AssemblerBuffer::new() }
    }

    pub fn create_label(&mut self) -> (r: Label)
        ensures
            r.index() == old(self).buffer.labels@.len(),
            final(self).buffer.labels@ == old(self).buffer.labels@.push(None),
            final(self).buffer.code == old(self).buffer.code,
            final(self).buffer.position == old(self).buffer.position,
            final(self).unresolved_jumps == old(self).unresolved_jumps,
    {
        self.buffer.create_label()
    }

    pub fn create_and_bind_label(&mut self) -> (r: Label)
        requires
            old(self).buffer.position <= u32::MAX,
        ensures
            r.index() == old(self).buffer.labels@.len(),
            final(self).buffer.labels@ == old(self).buffer.labels@.push(
                Some(old(self).buffer.position as u32),
            ),
            final(self).buffer.code == old(self).buffer.code,
            final(self).buffer.position == old(self).buffer.position,
            final(self).unresolved_jumps == old(self).unresolved_jumps,
    {
        self.buffer.create_and_bind_label()
    }

    pub fn bind_label(&mut self, lbl: Label)
        requires
            lbl.index() < old(self).buffer.labels@.len(),
            old(self).buffer.labels@[lbl.index()] is None,
            old(self).buffer.position <= u32::MAX,
        ensures
            final(self).buffer.labels@ == old(self).buffer.labels@.update(
                lbl.index(),
                Some(old(self).buffer.position as u32),
            ),
            final(self).buffer.code == old(self).buffer.code,
            final(self).buffer.position == old(self).buffer.position,
            final(self).unresolved_jumps == old(self).unresolved_jumps,
    {
        self.buffer.bind_label(lbl);
    }

    fn offset(&self, lbl: Label) -> (r: Option<u32>)
        requires
            lbl.index() < self.buffer.labels@.len(),
        ensures
            r == self.buffer.labels@[lbl.index()],
    {
        self.buffer.offset(lbl)
    }

    pub fn position(&self) -> (r: usize)
        ensures
            r == self.buffer.position,
    {
        self.buffer.position()
    }

    pub fn set_position(&mut self, pos: usize)
        ensures
            final(self).buffer.position == pos,
            final(self).buffer.code == old(self).buffer.code,
            final(self).buffer.labels == old(self).buffer.labels,
            final(self).unresolved_jumps == old(self).unresolved_jumps,
    {
        self.buffer.set_position(pos);
    }

    pub fn set_position_end(&mut self)
        ensures
            final(self).wf(),
            final(self).buffer.position == old(self).buffer.code@.len(),
            final(self).buffer.code == old(self).buffer.code,
            final(self).buffer.labels == old(self).buffer.labels,
            final(self).unresolved_jumps == old(self).unresolved_jumps,
    {
        self.buffer.set_position_end();
    }

    pub fn emit_u8(&mut self, value: u8)
        requires
            old(self).wf(),
        ensures
            old(self).wrote(*final(self), seq![value]),
    {
        self.buffer.emit_u8(value);
    }

    pub fn emit_u32(&mut self, value: u32)
        requires
            old(self).wf(),
        ensures
            old(self).wrote(*final(self), le32(value)),
    {
        self.buffer.emit_u32(value);
    }

    pub fn emit_u64(&mut self, value: u64)
        requires
            old(self).wf(),
        ensures
            old(self).wrote(*final(self), le64(value)),
    {
        self.buffer.emit_u64(value);
    }

    fn emit_nothing(&mut self)
        requires
            old(self).wf(),
        ensures
            old(self).wrote(*final(self), Seq::empty()),
    {
        proof {
            lemma_wrote_nothing(*self);
        }
    }

    fn emit_lock_prefix(&mut self)
        requires
            old(self).wf(),
        ensures
            old(self).wrote(*final(self), lock_prefix()),
    {
        self.emit_u8(0xF0);
    }

    fn emit_rex(&mut self, w: bool, r: bool, x: bool, b: bool)
        requires
            old(self).wf(),
        ensures
            old(self).wrote(*final(self), rex_prefix(w, r, x, b)),
    {
        // w - 64-bit width
        // r - extension of modrm-reg field
        // x - extension of sib index field
        // b - extension of modrm-rm/sib base/opcode reg field
        let wb: u8 = if w {
            8
        } else {
            0
        };
        let rb: u8 = if r {
            4
        } else {
            0
        };
        let xb: u8 = if x {
            2
        } else {
            0
        };
        let bb: u8 = if b {
            1
        } else {
            0
        };
        let opcode = 0x40u8 | wb | rb | xb | bb;
        self.emit_u8(opcode);
    }

    fn emit_rex_optional(&mut self, w: bool, r: bool, x: bool, b: bool)
        requires
            old(self).wf(),
        ensures
            old(self).wrote(*final(self), rex_optional(w, r, x, b)),
    {
        if w || r || x || b {
            self.emit_rex(w, r, x, b);
        } else {
            self.emit_nothing();
        }
    }

    fn emit_rex_sse_modrm_optional(&mut self, reg: XmmRegister, rm: XmmRegister)
        requires
            old(self).wf(),
        ensures
            old(self).wrote(*final(self), rex_sse_modrm_optional(reg, rm)),
    {
        if reg.needs_rex() || rm.needs_rex() {
            self.emit_rex(false, reg.needs_rex(), false, rm.needs_rex());
        } else {
            self.emit_nothing();
        }
    }

    fn emit_rex_sse_address_optional(&mut self, reg: XmmRegister, address: Address)
        requires
            old(self).wf(),
        ensures
            old(self).wrote(*final(self), rex_sse_address_optional(reg, address)),
    {
        if address.rex() != 0 || reg.needs_rex() {
            self.emit_u8(
                0x40 | address.rex() | if reg.needs_rex() {
                    0x04
                } else {
                    0
                },
            );
        } else {
            self.emit_nothing();
        }
    }

    fn emit_rex32_rm_optional(&mut self, reg: Register)
        requires
            old(self).wf(),
        ensures
            old(self).wrote(*final(self), rex32_rm_optional(reg)),
    {
        if reg.needs_rex() {
            self.emit_rex(false, false, false, true);
        } else {
            self.emit_nothing();
        }
    }

    fn emit_rex32_byte_optional(&mut self, reg: Register, rm: Register)
        requires
            old(self).wf(),
        ensures
            old(self).wrote(*final(self), rex32_byte_optional(reg, rm)),
    {
        if reg.needs_rex() || rm.needs_rex() || rm.value() > 3 {
            self.emit_rex(false, reg.needs_rex(), false, rm.needs_rex());
        } else {
            self.emit_nothing();
        }
    }

    fn emit_rex32_optional(&mut self, reg: Register, rm: Register)
        requires
            old(self).wf(),
        ensures
            old(self).wrote(*final(self), rex32_optional(reg, rm)),
    {
        if reg.needs_rex() || rm.needs_rex() {
            self.emit_rex(false, reg.needs_rex(), false, rm.needs_rex());
        } else {
            self.emit_nothing();
        }
    }

    fn emit_rex64(&mut self)
        requires
            old(self).wf(),
        ensures
            old(self).wrote(*final(self), rex64()),
    {
        self.emit_rex(true, false, false, false);
    }

    fn emit_rex64_rm(&mut self, rm: Register)
        requires
            old(self).wf(),
        ensures
            old(self).wrote(*final(self), rex64_rm(rm)),
    {
        self.emit_rex(true, false, false, rm.needs_rex());
    }

    fn emit_rex64_modrm_address(&mut self, reg: Register, address: Address)
        requires
            old(self).wf(),
        ensures
            old(self).wrote(*final(self), rex64_modrm_address(reg, address)),
    {
        let rex = 0x48 | address.rex() | if reg.needs_rex() {
            0x04
        } else {
            0
        };
        self.emit_u8(rex);
    }

    fn emit_rex64_address(&mut self, address: Address)
        requires
            old(self).wf(),
        ensures
            old(self).wrote(*final(self), rex64_address(address)),
    {
        self.emit_u8(0x48 | address.rex());
    }

    fn emit_rex32_modrm_address(&mut self, reg: Register, address: Address)
        requires
            old(self).wf(),
        ensures
            old(self).wrote(*final(self), rex32_modrm_address(reg, address)),
    {
        if address.rex() != 0 || reg.needs_rex() {
            self.emit_u8(
                0x40 | address.rex() | if reg.needs_rex() {
                    0x04
                } else {
                    0
                },
            );
        } else {
            self.emit_nothing();
        }
    }

    fn emit_rex32_byte_address(&mut self, reg: Register, address: Address)
        requires
            old(self).wf(),
        ensures
            old(self).wrote(*final(self), rex32_byte_address(reg, address)),
    {
        if address.rex() != 0 || reg.value() > 3 {
            self.emit_u8(
                0x40 | address.rex() | if reg.needs_rex() {
                    0x04
                } else {
                    0
                },
            );
        } else {
            self.emit_nothing();
        }
    }

    fn emit_rex32_address_optional(&mut self, address: Address)
        requires
            old(self).wf(),
        ensures
            old(self).wrote(*final(self), rex32_address_optional(address)),
    {
        if address.rex() != 0 {
            self.emit_u8(0x40 | address.rex());
        } else {
            self.emit_nothing();
        }
    }

    fn emit_rex64_modrm(&mut self, reg: Register, rm: Register)
        requires
            old(self).wf(),
        ensures
            old(self).wrote(*final(self), rex64_modrm(reg, rm)),
    {
        self.emit_rex(true, reg.needs_rex(), false, rm.needs_rex());
    }

    fn emit_modrm_registers(&mut self, reg: Register, rm: Register)
        requires
            old(self).wf(),
        ensures
            old(self).wrote(*final(self), modrm_registers(reg, rm)),
    {
        self.emit_modrm(0b11, reg.low_bits(), rm.low_bits());
    }

    fn emit_modrm_sse_registers(&mut self, reg: XmmRegister, rm: XmmRegister)
        requires
            old(self).wf(),
        ensures
            old(self).wrote(*final(self), modrm_sse_registers(reg, rm)),
    {
        self.emit_modrm(0b11, reg.low_bits(), rm.low_bits());
    }

    fn emit_modrm_opcode(&mut self, opcode: u8, reg: Register)
        requires
            old(self).wf(),
            opcode < 8,
        ensures
            old(self).wrote(*final(self), modrm_opcode(opcode, reg)),
    {
        self.emit_modrm(0b11, opcode, reg.low_bits());
    }

    fn emit_modrm(&mut self, mode: u8, reg: u8, rm: u8)
        requires
            old(self).wf(),
            mode < 4,
            reg < 8,
            rm < 8,
        ensures
            old(self).wrote(*final(self), modrm_bytes(mode, reg, rm)),
    {
        self.emit_u8(mode << 6 | reg << 3 | rm);
    }

    fn emit_address(&mut self, reg_or_opcode: u8, address: Address)
        requires
            old(self).wf(),
            reg_or_opcode < 8,
            address.wf(),
        ensures
            old(self).wrote(*final(self), address_bytes(reg_or_opcode, address)),
    {
        let ghost start = *self;
        let ghost all = address.encoded();
        let bytes = address.encoded_bytes();
        // emit modrm-byte with the given rm value
        self.emit_u8(reg_or_opcode << 3 | bytes[0]);
        let ghost first = seq![reg_or_opcode << 3 | all[0]];
        let n = bytes.len();
        let mut i: usize = 1;
        proof {
            assert(first + all.subrange(1, 1) =~= first);
        }
        while i < n
            invariant
                1 <= i <= n,
                n == all.len(),
                bytes@ == all,
                start.wf(),
                start.wrote(*self, first + all.subrange(1, i as int)),
            decreases n - i,
        {
            let ghost before = *self;
            self.emit_u8(bytes[i]);
            proof {
                lemma_wrote_join(start, before, *self, first + all.subrange(1, i as int), seq![all[i as int]]);
                assert(first + all.subrange(1, i as int) + seq![all[i as int]] =~= first
                    + all.subrange(1, i + 1));
            }
            i += 1;
        }
    }

    fn emit_alu_imm(&mut self, reg: Register, imm: Immediate, modrm_reg: u8, rax_opcode: u8)
        requires
            old(self).wf(),
            imm.is_int32(),
            modrm_reg < 8,
        ensures
            old(self).wrote(*final(self), alu_imm(reg, imm, modrm_reg, rax_opcode)),
    {
        let ghost s0 = *self;
        if imm.is_int8() {
            self.emit_u8(0x83);
            let ghost s1 = *self;
            self.emit_modrm_opcode(modrm_reg, reg);
            proof {
                lemma_wrote_join(s0, s1, *self, seq![0x83u8], modrm_opcode(modrm_reg, reg));
            }
            let ghost s2 = *self;
            self.emit_u8(imm.int8_bits());
            proof {
                lemma_wrote_join(
                    s0,
                    s2,
                    *self,
                    seq![0x83u8] + modrm_opcode(modrm_reg, reg),
                    seq![imm.int8_bits()],
                );
            }
        } else if reg == RAX() {
            self.emit_u8(rax_opcode);
            let ghost s1 = *self;
            self.emit_u32(imm.int32_bits());
            proof {
                lemma_wrote_join(s0, s1, *self, seq![rax_opcode], le32(imm.int32_bits()));
            }
        } else {
            self.emit_u8(0x81);
            let ghost s1 = *self;
            self.emit_modrm_opcode(modrm_reg, reg);
            proof {
                lemma_wrote_join(s0, s1, *self, seq![0x81u8], modrm_opcode(modrm_reg, reg));
            }
            let ghost s2 = *self;
            self.emit_u32(imm.int32_bits());
            proof {
                lemma_wrote_join(
                    s0,
                    s2,
                    *self,
                    seq![0x81u8] + modrm_opcode(modrm_reg, reg),
                    le32(imm.int32_bits()),
                );
            }
        }
    }

    fn emit_alu64_imm(&mut self, reg: Register, imm: Immediate, modrm_reg: u8, rax_opcode: u8)
        requires
            old(self).wf(),
            imm.is_int32(),
            modrm_reg < 8,
        ensures
            old(self).wrote(*final(self), alu64_imm(reg, imm, modrm_reg, rax_opcode)),
    {
        let ghost s0 = *self;
        self.emit_rex64_rm(reg);
        let ghost s1 = *self;
        self.emit_alu_imm(reg, imm, modrm_reg, rax_opcode);
        proof {
            lemma_wrote_join(s0, s1, *self, rex64_rm(reg), alu_imm(reg, imm, modrm_reg, rax_opcode));
        }
    }

    fn emit_alu32_imm(&mut self, reg: Register, imm: Immediate, modrm_reg: u8, rax_opcode: u8)
        requires
            old(self).wf(),
            imm.is_int32(),
            modrm_reg < 8,
        ensures
            old(self).wrote(*final(self), alu32_imm(reg, imm, modrm_reg, rax_opcode)),
    {
        let ghost s0 = *self;
        self.emit_rex32_rm_optional(reg);
        let ghost s1 = *self;
        self.emit_alu_imm(reg, imm, modrm_reg, rax_opcode);
        proof {
            lemma_wrote_join(
                s0,
                s1,
                *self,
                rex32_rm_optional(reg),
                alu_imm(reg, imm, modrm_reg, rax_opcode),
            );
        }
    }

    pub fn pushq_r(&mut self, reg: Register)
        requires
            old(self).wf(),
        ensures
            old(self).wrote(*final(self), rex32_rm_optional(reg) + seq![byte(0x50 + reg.low_bits())]),
    {
        let ghost s0 = *self;
        self.emit_rex32_rm_optional(reg);
        let ghost s1 = *self;
        self.emit_u8(0x50 + reg.low_bits());
        proof {
            lemma_wrote_join(s0, s1, *self, rex32_rm_optional(reg), seq![byte(0x50 + reg.low_bits())]);
        }
    }

    pub fn popq_r(&mut self, reg: Register)
        requires
            old(self).wf(),
        ensures
            old(self).wrote(*final(self), rex32_rm_optional(reg) + seq![byte(0x58 + reg.low_bits())]),
    {
        let ghost s0 = *self;
        self.emit_rex32_rm_optional(reg);
        let ghost s1 = *self;
        self.emit_u8(0x58 + reg.low_bits());
        proof {
            lemma_wrote_join(s0, s1, *self, rex32_rm_optional(reg), seq![byte(0x58 + reg.low_bits())]);
        }
    }

    pub fn int3(&mut self)
        requires
            old(self).wf(),
        ensures
            old(self).wrote(*final(self), seq![0xCCu8]),
    {
        self.emit_u8(0xCC);
    }

    pub fn retq(&mut self)
        requires
            old(self).wf(),
        ensures
            old(self).wrote(*final(self), seq![0xC3u8]),
    {
        self.emit_u8(0xC3);
    }

    pub fn nop(&mut self)
        requires
            old(self).wf(),
        ensures
            old(self).wrote(*final(self), seq![0x90u8]),
    {
        self.emit_u8(0x90);
    }

    pub fn cmovl(&mut self, condition: Condition, dest: Register, src: Register)
        requires
            old(self).wf(),
        ensures
            old(self).wrote(*final(self), rex32_optional(dest, src) + seq![0x0Fu8] + seq![byte(0x40 + condition.number())] + modrm_registers(dest, src)),
    {
        let ghost s0 = *self;
        self.emit_rex32_optional(dest, src);
        let ghost s1 = *self;
        self.emit_u8(0x0F);
        proof {
            lemma_wrote_join(s0, s1, *self, rex32_optional(dest, src), seq![0x0Fu8]);
        }
        let ghost s2 = *self;
        self.emit_u8(0x40 + condition.number());
        proof {
            lemma_wrote_join(s0, s2, *self, rex32_optional(dest, src) + seq![0x0Fu8], seq![byte(0x40 + condition.number())]);
        }
        let ghost s3 = *self;
        self.emit_modrm_registers(dest, src);
        proof {
            lemma_wrote_join(s0, s3, *self, rex32_optional(dest, src) + seq![0x0Fu8] + seq![byte(0x40 + condition.number())], modrm_registers(dest, src));
        }
    }

    pub fn cmovq(&mut self, condition: Condition, dest: Register, src: Register)
        requires
            old(self).wf(),
        ensures
            old(self).wrote(*final(self), rex64_modrm(dest, src) + seq![0x0Fu8] + seq![byte(0x40 + condition.number())] + modrm_registers(dest, src)),
    {
        let ghost s0 = *self;
        self.emit_rex64_modrm(dest, src);
        let ghost s1 = *self;
        self.emit_u8(0x0F);
        proof {
            lemma_wrote_join(s0, s1, *self, rex64_modrm(dest, src), seq![0x0Fu8]);
        }
        let ghost s2 = *self;
        self.emit_u8(0x40 + condition.number());
        proof {
            lemma_wrote_join(s0, s2, *self, rex64_modrm(dest, src) + seq![0x0Fu8], seq![byte(0x40 + condition.number())]);
        }
        let ghost s3 = *self;
        self.emit_modrm_registers(dest, src);
        proof {
            lemma_wrote_join(s0, s3, *self, rex64_modrm(dest, src) + seq![0x0Fu8] + seq![byte(0x40 + condition.number())], modrm_registers(dest, src));
        }
    }

    pub fn lea(&mut self, dest: Register, src: Address)
        requires
            old(self).wf(),
            src.wf(),
        ensures
            old(self).wrote(*final(self), rex64_modrm_address(dest, src) + seq![0x8Du8] + address_bytes(dest.low_bits(), src)),
    {
        let ghost s0 = *self;
        self.emit_rex64_modrm_address(dest, src);
        let ghost s1 = *self;
        self.emit_u8(0x8D);
        proof {
            lemma_wrote_join(s0, s1, *self, rex64_modrm_address(dest, src), seq![0x8Du8]);
        }
        let ghost s2 = *self;
        self.emit_address(dest.low_bits(), src);
        proof {
            lemma_wrote_join(s0, s2, *self, rex64_modrm_address(dest, src) + seq![0x8Du8], address_bytes(dest.low_bits(), src));
        }
    }

    pub fn movq_rr(&mut self, dest: Register, src: Register)
        requires
            old(self).wf(),
        ensures
            old(self).wrote(*final(self), rex64_modrm(src, dest) + seq![0x89u8] + modrm_registers(src, dest)),
    {
        let ghost s0 = *self;
        self.emit_rex64_modrm(src, dest);
        let ghost s1 = *self;
        self.emit_u8(0x89);
        proof {
            lemma_wrote_join(s0, s1, *self, rex64_modrm(src, dest), seq![0x89u8]);
        }
        let ghost s2 = *self;
        self.emit_modrm_registers(src, dest);
        proof {
            lemma_wrote_join(s0, s2, *self, rex64_modrm(src, dest) + seq![0x89u8], modrm_registers(src, dest));
        }
    }

    pub fn movq_ra(&mut self, dest: Register, src: Address)
        requires
            old(self).wf(),
            src.wf(),
        ensures
            old(self).wrote(*final(self), rex64_modrm_address(dest, src) + seq![0x8Bu8] + address_bytes(dest.low_bits(), src)),
    {
        let ghost s0 = *self;
        self.emit_rex64_modrm_address(dest, src);
        let ghost s1 = *self;
        self.emit_u8(0x8B);
        proof {
            lemma_wrote_join(s0, s1, *self, rex64_modrm_address(dest, src), seq![0x8Bu8]);
        }
        let ghost s2 = *self;
        self.emit_address(dest.low_bits(), src);
        proof {
            lemma_wrote_join(s0, s2, *self, rex64_modrm_address(dest, src) + seq![0x8Bu8], address_bytes(dest.low_bits(), src));
        }
    }

    pub fn movb_ar(&mut self, dest: Address, src: Register)
        requires
            old(self).wf(),
            dest.wf(),
        ensures
            old(self).wrote(*final(self), rex32_byte_address(src, dest) + seq![0x88u8] + address_bytes(src.low_bits(), dest)),
    {
        let ghost s0 = *self;
        self.emit_rex32_byte_address(src, dest);
        let ghost s1 = *self;
        self.emit_u8(0x88);
        proof {
            lemma_wrote_join(s0, s1, *self, rex32_byte_address(src, dest), seq![0x88u8]);
        }
        let ghost s2 = *self;
        self.emit_address(src.low_bits(), dest);
        proof {
            lemma_wrote_join(s0, s2, *self, rex32_byte_address(src, dest) + seq![0x88u8], address_bytes(src.low_bits(), dest));
        }
    }

    pub fn movb_ai(&mut self, dest: Address, src: Immediate)
        requires
            old(self).wf(),
            dest.wf(),
            src.is_int8() || src.is_uint8(),
        ensures
            old(self).wrote(*final(self), rex32_address_optional(dest) + seq![0xc6u8] + address_bytes(0b000, dest) + seq![src.uint8()]),
    {
        let ghost s0 = *self;
        self.emit_rex32_address_optional(dest);
        let ghost s1 = *self;
        self.emit_u8(0xc6);
        proof {
            lemma_wrote_join(s0, s1, *self, rex32_address_optional(dest), seq![0xc6u8]);
        }
        let ghost s2 = *self;
        self.emit_address(0b000, dest);
        proof {
            lemma_wrote_join(s0, s2, *self, rex32_address_optional(dest) + seq![0xc6u8], address_bytes(0b000, dest));
        }
        let ghost s3 = *self;
        self.emit_u8(src.uint8());
        proof {
            lemma_wrote_join(s0, s3, *self, rex32_address_optional(dest) + seq![0xc6u8] + address_bytes(0b000, dest), seq![src.uint8()]);
        }
    }

    pub fn movq_ar(&mut self, dest: Address, src: Register)
        requires
            old(self).wf(),
            dest.wf(),
        ensures
            old(self).wrote(*final(self), rex64_modrm_address(src, dest) + seq![0x89u8] + address_bytes(src.low_bits(), dest)),
    {
        let ghost s0 = *self;
        self.emit_rex64_modrm_address(src, dest);
        let ghost s1 = *self;
        self.emit_u8(0x89);
        proof {
            lemma_wrote_join(s0, s1, *self, rex64_modrm_address(src, dest), seq![0x89u8]);
        }
        let ghost s2 = *self;
        self.emit_address(src.low_bits(), dest);
        proof {
            lemma_wrote_join(s0, s2, *self, rex64_modrm_address(src, dest) + seq![0x89u8], address_bytes(src.low_bits(), dest));
        }
    }

    pub fn movq_ai(&mut self, dest: Address, imm: Immediate)
        requires
            old(self).wf(),
            dest.wf(),
            imm.is_int32(),
        ensures
            old(self).wrote(*final(self), rex64_address(dest) + seq![0xc7u8] + address_bytes(0b000, dest) + le32(imm.int32_bits())),
    {
        let ghost s0 = *self;
        self.emit_rex64_address(dest);
        let ghost s1 = *self;
        self.emit_u8(0xc7);
        proof {
            lemma_wrote_join(s0, s1, *self, rex64_address(dest), seq![0xc7u8]);
        }
        let ghost s2 = *self;
        self.emit_address(0b000, dest);
        proof {
            lemma_wrote_join(s0, s2, *self, rex64_address(dest) + seq![0xc7u8], address_bytes(0b000, dest));
        }
        let ghost s3 = *self;
        self.emit_u32(imm.int32_bits());
        proof {
            lemma_wrote_join(s0, s3, *self, rex64_address(dest) + seq![0xc7u8] + address_bytes(0b000, dest), le32(imm.int32_bits()));
        }
    }

    pub fn movl_ra(&mut self, dest: Register, src: Address)
        requires
            old(self).wf(),
            src.wf(),
        ensures
            old(self).wrote(*final(self), rex32_modrm_address(dest, src) + seq![0x8Bu8] + address_bytes(dest.low_bits(), src)),
    {
        let ghost s0 = *self;
        self.emit_rex32_modrm_address(dest, src);
        let ghost s1 = *self;
        self.emit_u8(0x8B);
        proof {
            lemma_wrote_join(s0, s1, *self, rex32_modrm_address(dest, src), seq![0x8Bu8]);
        }
        let ghost s2 = *self;
        self.emit_address(dest.low_bits(), src);
        proof {
            lemma_wrote_join(s0, s2, *self, rex32_modrm_address(dest, src) + seq![0x8Bu8], address_bytes(dest.low_bits(), src));
        }
    }

    pub fn movl_ar(&mut self, dest: Address, src: Register)
        requires
            old(self).wf(),
            dest.wf(),
        ensures
            old(self).wrote(*final(self), rex32_modrm_address(src, dest) + seq![0x89u8] + address_bytes(src.low_bits(), dest)),
    {
        let ghost s0 = *self;
        self.emit_rex32_modrm_address(src, dest);
        let ghost s1 = *self;
        self.emit_u8(0x89);
        proof {
            lemma_wrote_join(s0, s1, *self, rex32_modrm_address(src, dest), seq![0x89u8]);
        }
        let ghost s2 = *self;
        self.emit_address(src.low_bits(), dest);
        proof {
            lemma_wrote_join(s0, s2, *self, rex32_modrm_address(src, dest) + seq![0x89u8], address_bytes(src.low_bits(), dest));
        }
    }

    pub fn movl_ai(&mut self, dest: Address, imm: Immediate)
        requires
            old(self).wf(),
            dest.wf(),
            imm.is_int32() || imm.is_uint32(),
        ensures
            old(self).wrote(*final(self), rex32_address_optional(dest) + seq![0xc7u8] + address_bytes(0b000, dest) + le32(imm.uint32())),
    {
        let ghost s0 = *self;
        self.emit_rex32_address_optional(dest);
        let ghost s1 = *self;
        self.emit_u8(0xc7);
        proof {
            lemma_wrote_join(s0, s1, *self, rex32_address_optional(dest), seq![0xc7u8]);
        }
        let ghost s2 = *self;
        self.emit_address(0b000, dest);
        proof {
            lemma_wrote_join(s0, s2, *self, rex32_address_optional(dest) + seq![0xc7u8], address_bytes(0b000, dest));
        }
        let ghost s3 = *self;
        self.emit_u32(imm.uint32());
        proof {
            lemma_wrote_join(s0, s3, *self, rex32_address_optional(dest) + seq![0xc7u8] + address_bytes(0b000, dest), le32(imm.uint32()));
        }
    }

    pub fn movl_rr(&mut self, dest: Register, src: Register)
        requires
            old(self).wf(),
        ensures
            old(self).wrote(*final(self), rex32_optional(src, dest) + seq![0x89u8] + modrm_registers(src, dest)),
    {
        let ghost s0 = *self;
        self.emit_rex32_optional(src, dest);
        let ghost s1 = *self;
        self.emit_u8(0x89);
        proof {
            lemma_wrote_join(s0, s1, *self, rex32_optional(src, dest), seq![0x89u8]);
        }
        let ghost s2 = *self;
        self.emit_modrm_registers(src, dest);
        proof {
            lemma_wrote_join(s0, s2, *self, rex32_optional(src, dest) + seq![0x89u8], modrm_registers(src, dest));
        }
    }

    pub fn movl_ri(&mut self, dest: Register, imm: Immediate)
        requires
            old(self).wf(),
            imm.is_int32(),
        ensures
            old(self).wrote(*final(self), rex32_rm_optional(dest) + seq![byte(0xB8 + dest.low_bits())] + le32(imm.int32_bits())),
    {
        let ghost s0 = *self;
        self.emit_rex32_rm_optional(dest);
        let ghost s1 = *self;
        self.emit_u8(0xB8 + dest.low_bits());
        proof {
            lemma_wrote_join(s0, s1, *self, rex32_rm_optional(dest), seq![byte(0xB8 + dest.low_bits())]);
        }
        let ghost s2 = *self;
        self.emit_u32(imm.int32_bits());
        proof {
            lemma_wrote_join(s0, s2, *self, rex32_rm_optional(dest) + seq![byte(0xB8 + dest.low_bits())], le32(imm.int32_bits()));
        }
    }

    pub fn movzxb_rr(&mut self, dest: Register, src: Register)
        requires
            old(self).wf(),
        ensures
            old(self).wrote(*final(self), rex32_byte_optional(dest, src) + seq![0x0fu8] + seq![0xb6u8] + modrm_registers(dest, src)),
    {
        let ghost s0 = *self;
        self.emit_rex32_byte_optional(dest, src);
        let ghost s1 = *self;
        self.emit_u8(0x0f);
        proof {
            lemma_wrote_join(s0, s1, *self, rex32_byte_optional(dest, src), seq![0x0fu8]);
        }
        let ghost s2 = *self;
        self.emit_u8(0xb6);
        proof {
            lemma_wrote_join(s0, s2, *self, rex32_byte_optional(dest, src) + seq![0x0fu8], seq![0xb6u8]);
        }
        let ghost s3 = *self;
        self.emit_modrm_registers(dest, src);
        proof {
            lemma_wrote_join(s0, s3, *self, rex32_byte_optional(dest, src) + seq![0x0fu8] + seq![0xb6u8], modrm_registers(dest, src));
        }
    }

    pub fn movzxb_ra(&mut self, dest: Register, src: Address)
        requires
            old(self).wf(),
            src.wf(),
        ensures
            old(self).wrote(*final(self), rex32_modrm_address(dest, src) + seq![0x0fu8] + seq![0xb6u8] + address_bytes(dest.low_bits(), src)),
    {
        let ghost s0 = *self;
        self.emit_rex32_modrm_address(dest, src);
        let ghost s1 = *self;
        self.emit_u8(0x0f);
        proof {
            lemma_wrote_join(s0, s1, *self, rex32_modrm_address(dest, src), seq![0x0fu8]);
        }
        let ghost s2 = *self;
        self.emit_u8(0xb6);
        proof {
            lemma_wrote_join(s0, s2, *self, rex32_modrm_address(dest, src) + seq![0x0fu8], seq![0xb6u8]);
        }
        let ghost s3 = *self;
        self.emit_address(dest.low_bits(), src);
        proof {
            lemma_wrote_join(s0, s3, *self, rex32_modrm_address(dest, src) + seq![0x0fu8] + seq![0xb6u8], address_bytes(dest.low_bits(), src));
        }
    }

    pub fn movsxbl_rr(&mut self, dest: Register, src: Register)
        requires
            old(self).wf(),
        ensures
            old(self).wrote(*final(self), rex32_byte_optional(dest, src) + seq![0x0fu8] + seq![0xbeu8] + modrm_registers(dest, src)),
    {
        let ghost s0 = *self;
        self.emit_rex32_byte_optional(dest, src);
        let ghost s1 = *self;
        self.emit_u8(0x0f);
        proof {
            lemma_wrote_join(s0, s1, *self, rex32_byte_optional(dest, src), seq![0x0fu8]);
        }
        let ghost s2 = *self;
        self.emit_u8(0xbe);
        proof {
            lemma_wrote_join(s0, s2, *self, rex32_byte_optional(dest, src) + seq![0x0fu8], seq![0xbeu8]);
        }
        let ghost s3 = *self;
        self.emit_modrm_registers(dest, src);
        proof {
            lemma_wrote_join(s0, s3, *self, rex32_byte_optional(dest, src) + seq![0x0fu8] + seq![0xbeu8], modrm_registers(dest, src));
        }
    }

    pub fn movsxbl_ra(&mut self, dest: Register, src: Address)
        requires
            old(self).wf(),
            src.wf(),
        ensures
            old(self).wrote(*final(self), rex32_modrm_address(dest, src) + seq![0x0fu8] + seq![0xbeu8] + address_bytes(dest.low_bits(), src)),
    {
        let ghost s0 = *self;
        self.emit_rex32_modrm_address(dest, src);
        let ghost s1 = *self;
        self.emit_u8(0x0f);
        proof {
            lemma_wrote_join(s0, s1, *self, rex32_modrm_address(dest, src), seq![0x0fu8]);
        }
        let ghost s2 = *self;
        self.emit_u8(0xbe);
        proof {
            lemma_wrote_join(s0, s2, *self, rex32_modrm_address(dest, src) + seq![0x0fu8], seq![0xbeu8]);
        }
        let ghost s3 = *self;
        self.emit_address(dest.low_bits(), src);
        proof {
            lemma_wrote_join(s0, s3, *self, rex32_modrm_address(dest, src) + seq![0x0fu8] + seq![0xbeu8], address_bytes(dest.low_bits(), src));
        }
    }

    pub fn movsxbq_rr(&mut self, dest: Register, src: Register)
        requires
            old(self).wf(),
        ensures
            old(self).wrote(*final(self), rex64_modrm(dest, src) + seq![0x0fu8] + seq![0xbeu8] + modrm_registers(dest, src)),
    {
        let ghost s0 = *self;
        self.emit_rex64_modrm(dest, src);
        let ghost s1 = *self;
        self.emit_u8(0x0f);
        proof {
            lemma_wrote_join(s0, s1, *self, rex64_modrm(dest, src), seq![0x0fu8]);
        }
        let ghost s2 = *self;
        self.emit_u8(0xbe);
        proof {
            lemma_wrote_join(s0, s2, *self, rex64_modrm(dest, src) + seq![0x0fu8], seq![0xbeu8]);
        }
        let ghost s3 = *self;
        self.emit_modrm_registers(dest, src);
        proof {
            lemma_wrote_join(s0, s3, *self, rex64_modrm(dest, src) + seq![0x0fu8] + seq![0xbeu8], modrm_registers(dest, src));
        }
    }

    pub fn movsxbq_ra(&mut self, dest: Register, src: Address)
        requires
            old(self).wf(),
            src.wf(),
        ensures
            old(self).wrote(*final(self), rex64_modrm_address(dest, src) + seq![0x0fu8] + seq![0xbeu8] + address_bytes(dest.low_bits(), src)),
    {
        let ghost s0 = *self;
        self.emit_rex64_modrm_address(dest, src);
        let ghost s1 = *self;
        self.emit_u8(0x0f);
        proof {
            lemma_wrote_join(s0, s1, *self, rex64_modrm_address(dest, src), seq![0x0fu8]);
        }
        let ghost s2 = *self;
        self.emit_u8(0xbe);
        proof {
            lemma_wrote_join(s0, s2, *self, rex64_modrm_address(dest, src) + seq![0x0fu8], seq![0xbeu8]);
        }
        let ghost s3 = *self;
        self.emit_address(dest.low_bits(), src);
        proof {
            lemma_wrote_join(s0, s3, *self, rex64_modrm_address(dest, src) + seq![0x0fu8] + seq![0xbeu8], address_bytes(dest.low_bits(), src));
        }
    }

    pub fn movsxlq_rr(&mut self, dest: Register, src: Register)
        requires
            old(self).wf(),
        ensures
            old(self).wrote(*final(self), rex64_modrm(dest, src) + seq![0x63u8] + modrm_registers(dest, src)),
    {
        let ghost s0 = *self;
        self.emit_rex64_modrm(dest, src);
        let ghost s1 = *self;
        self.emit_u8(0x63);
        proof {
            lemma_wrote_join(s0, s1, *self, rex64_modrm(dest, src), seq![0x63u8]);
        }
        let ghost s2 = *self;
        self.emit_modrm_registers(dest, src);
        proof {
            lemma_wrote_join(s0, s2, *self, rex64_modrm(dest, src) + seq![0x63u8], modrm_registers(dest, src));
        }
    }

    pub fn movss_rr(&mut self, dest: XmmRegister, src: XmmRegister)
        requires
            old(self).wf(),
        ensures
            old(self).wrote(*final(self), seq![0xf3u8] + rex_sse_modrm_optional(dest, src) + seq![0x0fu8] + seq![0x10u8] + modrm_sse_registers(dest, src)),
    {
        let ghost s0 = *self;
        self.emit_u8(0xf3);
        let ghost s1 = *self;
        self.emit_rex_sse_modrm_optional(dest, src);
        proof {
            lemma_wrote_join(s0, s1, *self, seq![0xf3u8], rex_sse_modrm_optional(dest, src));
        }
        let ghost s2 = *self;
        self.emit_u8(0x0f);
        proof {
            lemma_wrote_join(s0, s2, *self, seq![0xf3u8] + rex_sse_modrm_optional(dest, src), seq![0x0fu8]);
        }
        let ghost s3 = *self;
        self.emit_u8(0x10);
        proof {
            lemma_wrote_join(s0, s3, *self, seq![0xf3u8] + rex_sse_modrm_optional(dest, src) + seq![0x0fu8], seq![0x10u8]);
        }
        let ghost s4 = *self;
        self.emit_modrm_sse_registers(dest, src);
        proof {
            lemma_wrote_join(s0, s4, *self, seq![0xf3u8] + rex_sse_modrm_optional(dest, src) + seq![0x0fu8] + seq![0x10u8], modrm_sse_registers(dest, src));
        }
    }

    pub fn movss_ra(&mut self, dest: XmmRegister, src: Address)
        requires
            old(self).wf(),
            src.wf(),
        ensures
            old(self).wrote(*final(self), seq![0xf3u8] + rex_sse_address_optional(dest, src) + seq![0x0fu8] + seq![0x10u8] + address_bytes(dest.low_bits(), src)),
    {
        let ghost s0 = *self;
        self.emit_u8(0xf3);
        let ghost s1 = *self;
        self.emit_rex_sse_address_optional(dest, src);
        proof {
            lemma_wrote_join(s0, s1, *self, seq![0xf3u8], rex_sse_address_optional(dest, src));
        }
        let ghost s2 = *self;
        self.emit_u8(0x0f);
        proof {
            lemma_wrote_join(s0, s2, *self, seq![0xf3u8] + rex_sse_address_optional(dest, src), seq![0x0fu8]);
        }
        let ghost s3 = *self;
        self.emit_u8(0x10);
        proof {
            lemma_wrote_join(s0, s3, *self, seq![0xf3u8] + rex_sse_address_optional(dest, src) + seq![0x0fu8], seq![0x10u8]);
        }
        let ghost s4 = *self;
        self.emit_address(dest.low_bits(), src);
        proof {
            lemma_wrote_join(s0, s4, *self, seq![0xf3u8] + rex_sse_address_optional(dest, src) + seq![0x0fu8] + seq![0x10u8], address_bytes(dest.low_bits(), src));
        }
    }

    pub fn movss_ar(&mut self, dest: Address, src: XmmRegister)
        requires
            old(self).wf(),
            dest.wf(),
        ensures
            old(self).wrote(*final(self), seq![0xf3u8] + rex_sse_address_optional(src, dest) + seq![0x0fu8] + seq![0x11u8] + address_bytes(src.low_bits(), dest)),
    {
        let ghost s0 = *self;
        self.emit_u8(0xf3);
        let ghost s1 = *self;
        self.emit_rex_sse_address_optional(src, dest);
        proof {
            lemma_wrote_join(s0, s1, *self, seq![0xf3u8], rex_sse_address_optional(src, dest));
        }
        let ghost s2 = *self;
        self.emit_u8(0x0f);
        proof {
            lemma_wrote_join(s0, s2, *self, seq![0xf3u8] + rex_sse_address_optional(src, dest), seq![0x0fu8]);
        }
        let ghost s3 = *self;
        self.emit_u8(0x11);
        proof {
            lemma_wrote_join(s0, s3, *self, seq![0xf3u8] + rex_sse_address_optional(src, dest) + seq![0x0fu8], seq![0x11u8]);
        }
        let ghost s4 = *self;
        self.emit_address(src.low_bits(), dest);
        proof {
            lemma_wrote_join(s0, s4, *self, seq![0xf3u8] + rex_sse_address_optional(src, dest) + seq![0x0fu8] + seq![0x11u8], address_bytes(src.low_bits(), dest));
        }
    }

    pub fn movsd_rr(&mut self, dest: XmmRegister, src: XmmRegister)
        requires
            old(self).wf(),
        ensures
            old(self).wrote(*final(self), seq![0xf2u8] + rex_sse_modrm_optional(dest, src) + seq![0x0fu8] + seq![0x10u8] + modrm_sse_registers(dest, src)),
    {
        let ghost s0 = *self;
        self.emit_u8(0xf2);
        let ghost s1 = *self;
        self.emit_rex_sse_modrm_optional(dest, src);
        proof {
            lemma_wrote_join(s0, s1, *self, seq![0xf2u8], rex_sse_modrm_optional(dest, src));
        }
        let ghost s2 = *self;
        self.emit_u8(0x0f);
        proof {
            lemma_wrote_join(s0, s2, *self, seq![0xf2u8] + rex_sse_modrm_optional(dest, src), seq![0x0fu8]);
        }
        let ghost s3 = *self;
        self.emit_u8(0x10);
        proof {
            lemma_wrote_join(s0, s3, *self, seq![0xf2u8] + rex_sse_modrm_optional(dest, src) + seq![0x0fu8], seq![0x10u8]);
        }
        let ghost s4 = *self;
        self.emit_modrm_sse_registers(dest, src);
        proof {
            lemma_wrote_join(s0, s4, *self, seq![0xf2u8] + rex_sse_modrm_optional(dest, src) + seq![0x0fu8] + seq![0x10u8], modrm_sse_registers(dest, src));
        }
    }

    pub fn movsd_ra(&mut self, dest: XmmRegister, src: Address)
        requires
            old(self).wf(),
            src.wf(),
        ensures
            old(self).wrote(*final(self), seq![0xf2u8] + rex_sse_address_optional(dest, src) + seq![0x0fu8] + seq![0x10u8] + address_bytes(dest.low_bits(), src)),
    {
        let ghost s0 = *self;
        self.emit_u8(0xf2);
        let ghost s1 = *self;
        self.emit_rex_sse_address_optional(dest, src);
        proof {
            lemma_wrote_join(s0, s1, *self, seq![0xf2u8], rex_sse_address_optional(dest, src));
        }
        let ghost s2 = *self;
        self.emit_u8(0x0f);
        proof {
            lemma_wrote_join(s0, s2, *self, seq![0xf2u8] + rex_sse_address_optional(dest, src), seq![0x0fu8]);
        }
        let ghost s3 = *self;
        self.emit_u8(0x10);
        proof {
            lemma_wrote_join(s0, s3, *self, seq![0xf2u8] + rex_sse_address_optional(dest, src) + seq![0x0fu8], seq![0x10u8]);
        }
        let ghost s4 = *self;
        self.emit_address(dest.low_bits(), src);
        proof {
            lemma_wrote_join(s0, s4, *self, seq![0xf2u8] + rex_sse_address_optional(dest, src) + seq![0x0fu8] + seq![0x10u8], address_bytes(dest.low_bits(), src));
        }
    }

    pub fn movsd_ar(&mut self, dest: Address, src: XmmRegister)
        requires
            old(self).wf(),
            dest.wf(),
        ensures
            old(self).wrote(*final(self), seq![0xf2u8] + rex_sse_address_optional(src, dest) + seq![0x0fu8] + seq![0x11u8] + address_bytes(src.low_bits(), dest)),
    {
        let ghost s0 = *self;
        self.emit_u8(0xf2);
        let ghost s1 = *self;
        self.emit_rex_sse_address_optional(src, dest);
        proof {
            lemma_wrote_join(s0, s1, *self, seq![0xf2u8], rex_sse_address_optional(src, dest));
        }
        let ghost s2 = *self;
        self.emit_u8(0x0f);
        proof {
            lemma_wrote_join(s0, s2, *self, seq![0xf2u8] + rex_sse_address_optional(src, dest), seq![0x0fu8]);
        }
        let ghost s3 = *self;
        self.emit_u8(0x11);
        proof {
            lemma_wrote_join(s0, s3, *self, seq![0xf2u8] + rex_sse_address_optional(src, dest) + seq![0x0fu8], seq![0x11u8]);
        }
        let ghost s4 = *self;
        self.emit_address(src.low_bits(), dest);
        proof {
            lemma_wrote_join(s0, s4, *self, seq![0xf2u8] + rex_sse_address_optional(src, dest) + seq![0x0fu8] + seq![0x11u8], address_bytes(src.low_bits(), dest));
        }
    }

    pub fn addq_rr(&mut self, dest: Register, src: Register)
        requires
            old(self).wf(),
        ensures
            old(self).wrote(*final(self), rex64_modrm(src, dest) + seq![0x01u8] + modrm_registers(src, dest)),
    {
        let ghost s0 = *self;
        self.emit_rex64_modrm(src, dest);
        let ghost s1 = *self;
        self.emit_u8(0x01);
        proof {
            lemma_wrote_join(s0, s1, *self, rex64_modrm(src, dest), seq![0x01u8]);
        }
        let ghost s2 = *self;
        self.emit_modrm_registers(src, dest);
        proof {
            lemma_wrote_join(s0, s2, *self, rex64_modrm(src, dest) + seq![0x01u8], modrm_registers(src, dest));
        }
    }

    pub fn addl_ri(&mut self, dest: Register, imm: Immediate)
        requires
            old(self).wf(),
            imm.is_int32(),
        ensures
            old(self).wrote(*final(self), alu32_imm(dest, imm, 0b000, 0x05)),
    {
        self.emit_alu32_imm(dest, imm, 0b000, 0x05);
    }

    pub fn addq_ri(&mut self, dest: Register, imm: Immediate)
        requires
            old(self).wf(),
            imm.is_int32(),
        ensures
            old(self).wrote(*final(self), alu64_imm(dest, imm, 0b000, 0x05)),
    {
        self.emit_alu64_imm(dest, imm, 0b000, 0x05);
    }

    pub fn addl_rr(&mut self, dest: Register, src: Register)
        requires
            old(self).wf(),
        ensures
            old(self).wrote(*final(self), rex32_optional(src, dest) + seq![0x01u8] + modrm_registers(src, dest)),
    {
        let ghost s0 = *self;
        self.emit_rex32_optional(src, dest);
        let ghost s1 = *self;
        self.emit_u8(0x01);
        proof {
            lemma_wrote_join(s0, s1, *self, rex32_optional(src, dest), seq![0x01u8]);
        }
        let ghost s2 = *self;
        self.emit_modrm_registers(src, dest);
        proof {
            lemma_wrote_join(s0, s2, *self, rex32_optional(src, dest) + seq![0x01u8], modrm_registers(src, dest));
        }
    }

    pub fn addss_rr(&mut self, dest: XmmRegister, src: XmmRegister)
        requires
            old(self).wf(),
        ensures
            old(self).wrote(*final(self), seq![0xf3u8] + rex_sse_modrm_optional(dest, src) + seq![0x0fu8] + seq![0x58u8] + modrm_sse_registers(dest, src)),
    {
        let ghost s0 = *self;
        self.emit_u8(0xf3);
        let ghost s1 = *self;
        self.emit_rex_sse_modrm_optional(dest, src);
        proof {
            lemma_wrote_join(s0, s1, *self, seq![0xf3u8], rex_sse_modrm_optional(dest, src));
        }
        let ghost s2 = *self;
        self.emit_u8(0x0f);
        proof {
            lemma_wrote_join(s0, s2, *self, seq![0xf3u8] + rex_sse_modrm_optional(dest, src), seq![0x0fu8]);
        }
        let ghost s3 = *self;
        self.emit_u8(0x58);
        proof {
            lemma_wrote_join(s0, s3, *self, seq![0xf3u8] + rex_sse_modrm_optional(dest, src) + seq![0x0fu8], seq![0x58u8]);
        }
        let ghost s4 = *self;
        self.emit_modrm_sse_registers(dest, src);
        proof {
            lemma_wrote_join(s0, s4, *self, seq![0xf3u8] + rex_sse_modrm_optional(dest, src) + seq![0x0fu8] + seq![0x58u8], modrm_sse_registers(dest, src));
        }
    }

    pub fn addsd_rr(&mut self, dest: XmmRegister, src: XmmRegister)
        requires
            old(self).wf(),
        ensures
            old(self).wrote(*final(self), seq![0xf2u8] + rex_sse_modrm_optional(dest, src) + seq![0x0fu8] + seq![0x58u8] + modrm_sse_registers(dest, src)),
    {
        let ghost s0 = *self;
        self.emit_u8(0xf2);
        let ghost s1 = *self;
        self.emit_rex_sse_modrm_optional(dest, src);
        proof {
            lemma_wrote_join(s0, s1, *self, seq![0xf2u8], rex_sse_modrm_optional(dest, src));
        }
        let ghost s2 = *self;
        self.emit_u8(0x0f);
        proof {
            lemma_wrote_join(s0, s2, *self, seq![0xf2u8] + rex_sse_modrm_optional(dest, src), seq![0x0fu8]);
        }
        let ghost s3 = *self;
        self.emit_u8(0x58);
        proof {
            lemma_wrote_join(s0, s3, *self, seq![0xf2u8] + rex_sse_modrm_optional(dest, src) + seq![0x0fu8], seq![0x58u8]);
        }
        let ghost s4 = *self;
        self.emit_modrm_sse_registers(dest, src);
        proof {
            lemma_wrote_join(s0, s4, *self, seq![0xf2u8] + rex_sse_modrm_optional(dest, src) + seq![0x0fu8] + seq![0x58u8], modrm_sse_registers(dest, src));
        }
    }

    pub fn subq_rr(&mut self, dest: Register, src: Register)
        requires
            old(self).wf(),
        ensures
            old(self).wrote(*final(self), rex64_modrm(src, dest) + seq![0x29u8] + modrm_registers(src, dest)),
    {
        let ghost s0 = *self;
        self.emit_rex64_modrm(src, dest);
        let ghost s1 = *self;
        self.emit_u8(0x29);
        proof {
            lemma_wrote_join(s0, s1, *self, rex64_modrm(src, dest), seq![0x29u8]);
        }
        let ghost s2 = *self;
        self.emit_modrm_registers(src, dest);
        proof {
            lemma_wrote_join(s0, s2, *self, rex64_modrm(src, dest) + seq![0x29u8], modrm_registers(src, dest));
        }
    }

    pub fn subq_ri(&mut self, dest: Register, imm: Immediate)
        requires
            old(self).wf(),
            imm.is_int32(),
        ensures
            old(self).wrote(*final(self), alu64_imm(dest, imm, 0b101, 0x2D)),
    {
        self.emit_alu64_imm(dest, imm, 0b101, 0x2D);
    }

    pub fn subq_ri32(&mut self, dest: Register, imm: Immediate)
        requires
            old(self).wf(),
            imm.is_int32(),
        ensures
            old(self).wrote(*final(self), alu64_imm(dest, imm, 0b101, 0x2D)),
    {
        self.emit_alu64_imm(dest, imm, 0b101, 0x2D);
    }

    pub fn subl_rr(&mut self, dest: Register, src: Register)
        requires
            old(self).wf(),
        ensures
            old(self).wrote(*final(self), rex32_optional(src, dest) + seq![0x29u8] + modrm_registers(src, dest)),
    {
        let ghost s0 = *self;
        self.emit_rex32_optional(src, dest);
        let ghost s1 = *self;
        self.emit_u8(0x29);
        proof {
            lemma_wrote_join(s0, s1, *self, rex32_optional(src, dest), seq![0x29u8]);
        }
        let ghost s2 = *self;
        self.emit_modrm_registers(src, dest);
        proof {
            lemma_wrote_join(s0, s2, *self, rex32_optional(src, dest) + seq![0x29u8], modrm_registers(src, dest));
        }
    }

    pub fn subss_rr(&mut self, dest: XmmRegister, src: XmmRegister)
        requires
            old(self).wf(),
        ensures
            old(self).wrote(*final(self), seq![0xf3u8] + rex_sse_modrm_optional(dest, src) + seq![0x0fu8] + seq![0x5cu8] + modrm_sse_registers(dest, src)),
    {
        let ghost s0 = *self;
        self.emit_u8(0xf3);
        let ghost s1 = *self;
        self.emit_rex_sse_modrm_optional(dest, src);
        proof {
            lemma_wrote_join(s0, s1, *self, seq![0xf3u8], rex_sse_modrm_optional(dest, src));
        }
        let ghost s2 = *self;
        self.emit_u8(0x0f);
        proof {
            lemma_wrote_join(s0, s2, *self, seq![0xf3u8] + rex_sse_modrm_optional(dest, src), seq![0x0fu8]);
        }
        let ghost s3 = *self;
        self.emit_u8(0x5c);
        proof {
            lemma_wrote_join(s0, s3, *self, seq![0xf3u8] + rex_sse_modrm_optional(dest, src) + seq![0x0fu8], seq![0x5cu8]);
        }
        let ghost s4 = *self;
        self.emit_modrm_sse_registers(dest, src);
        proof {
            lemma_wrote_join(s0, s4, *self, seq![0xf3u8] + rex_sse_modrm_optional(dest, src) + seq![0x0fu8] + seq![0x5cu8], modrm_sse_registers(dest, src));
        }
    }

    pub fn subsd_rr(&mut self, dest: XmmRegister, src: XmmRegister)
        requires
            old(self).wf(),
        ensures
            old(self).wrote(*final(self), seq![0xf2u8] + rex_sse_modrm_optional(dest, src) + seq![0x0fu8] + seq![0x5cu8] + modrm_sse_registers(dest, src)),
    {
        let ghost s0 = *self;
        self.emit_u8(0xf2);
        let ghost s1 = *self;
        self.emit_rex_sse_modrm_optional(dest, src);
        proof {
            lemma_wrote_join(s0, s1, *self, seq![0xf2u8], rex_sse_modrm_optional(dest, src));
        }
        let ghost s2 = *self;
        self.emit_u8(0x0f);
        proof {
            lemma_wrote_join(s0, s2, *self, seq![0xf2u8] + rex_sse_modrm_optional(dest, src), seq![0x0fu8]);
        }
        let ghost s3 = *self;
        self.emit_u8(0x5c);
        proof {
            lemma_wrote_join(s0, s3, *self, seq![0xf2u8] + rex_sse_modrm_optional(dest, src) + seq![0x0fu8], seq![0x5cu8]);
        }
        let ghost s4 = *self;
        self.emit_modrm_sse_registers(dest, src);
        proof {
            lemma_wrote_join(s0, s4, *self, seq![0xf2u8] + rex_sse_modrm_optional(dest, src) + seq![0x0fu8] + seq![0x5cu8], modrm_sse_registers(dest, src));
        }
    }

    pub fn andl_rr(&mut self, dest: Register, src: Register)
        requires
            old(self).wf(),
        ensures
            old(self).wrote(*final(self), rex32_optional(src, dest) + seq![0x21u8] + modrm_registers(src, dest)),
    {
        let ghost s0 = *self;
        self.emit_rex32_optional(src, dest);
        let ghost s1 = *self;
        self.emit_u8(0x21);
        proof {
            lemma_wrote_join(s0, s1, *self, rex32_optional(src, dest), seq![0x21u8]);
        }
        let ghost s2 = *self;
        self.emit_modrm_registers(src, dest);
        proof {
            lemma_wrote_join(s0, s2, *self, rex32_optional(src, dest) + seq![0x21u8], modrm_registers(src, dest));
        }
    }

    pub fn andq_rr(&mut self, dest: Register, src: Register)
        requires
            old(self).wf(),
        ensures
            old(self).wrote(*final(self), rex64_modrm(src, dest) + seq![0x21u8] + modrm_registers(src, dest)),
    {
        let ghost s0 = *self;
        self.emit_rex64_modrm(src, dest);
        let ghost s1 = *self;
        self.emit_u8(0x21);
        proof {
            lemma_wrote_join(s0, s1, *self, rex64_modrm(src, dest), seq![0x21u8]);
        }
        let ghost s2 = *self;
        self.emit_modrm_registers(src, dest);
        proof {
            lemma_wrote_join(s0, s2, *self, rex64_modrm(src, dest) + seq![0x21u8], modrm_registers(src, dest));
        }
    }

    pub fn andq_ri(&mut self, dest: Register, imm: Immediate)
        requires
            old(self).wf(),
            imm.is_int32(),
        ensures
            old(self).wrote(*final(self), alu64_imm(dest, imm, 0b100, 0x25)),
    {
        self.emit_alu64_imm(dest, imm, 0b100, 0x25);
    }

    pub fn cmpb_ar(&mut self, lhs: Address, rhs: Register)
        requires
            old(self).wf(),
            lhs.wf(),
        ensures
            old(self).wrote(*final(self), rex32_byte_address(rhs, lhs) + seq![0x38u8] + address_bytes(rhs.low_bits(), lhs)),
    {
        let ghost s0 = *self;
        self.emit_rex32_byte_address(rhs, lhs);
        let ghost s1 = *self;
        self.emit_u8(0x38);
        proof {
            lemma_wrote_join(s0, s1, *self, rex32_byte_address(rhs, lhs), seq![0x38u8]);
        }
        let ghost s2 = *self;
        self.emit_address(rhs.low_bits(), lhs);
        proof {
            lemma_wrote_join(s0, s2, *self, rex32_byte_address(rhs, lhs) + seq![0x38u8], address_bytes(rhs.low_bits(), lhs));
        }
    }

    pub fn cmpb_ai(&mut self, lhs: Address, rhs: Immediate)
        requires
            old(self).wf(),
            lhs.wf(),
            rhs.is_int8() || rhs.is_uint8(),
        ensures
            old(self).wrote(*final(self), rex32_address_optional(lhs) + seq![0x80u8] + address_bytes(0b111, lhs) + seq![rhs.uint8()]),
    {
        let ghost s0 = *self;
        self.emit_rex32_address_optional(lhs);
        let ghost s1 = *self;
        self.emit_u8(0x80);
        proof {
            lemma_wrote_join(s0, s1, *self, rex32_address_optional(lhs), seq![0x80u8]);
        }
        let ghost s2 = *self;
        self.emit_address(0b111, lhs);
        proof {
            lemma_wrote_join(s0, s2, *self, rex32_address_optional(lhs) + seq![0x80u8], address_bytes(0b111, lhs));
        }
        let ghost s3 = *self;
        self.emit_u8(rhs.uint8());
        proof {
            lemma_wrote_join(s0, s3, *self, rex32_address_optional(lhs) + seq![0x80u8] + address_bytes(0b111, lhs), seq![rhs.uint8()]);
        }
    }

    pub fn cmpl_rr(&mut self, dest: Register, src: Register)
        requires
            old(self).wf(),
        ensures
            old(self).wrote(*final(self), rex32_optional(src, dest) + seq![0x39u8] + modrm_registers(src, dest)),
    {
        let ghost s0 = *self;
        self.emit_rex32_optional(src, dest);
        let ghost s1 = *self;
        self.emit_u8(0x39);
        proof {
            lemma_wrote_join(s0, s1, *self, rex32_optional(src, dest), seq![0x39u8]);
        }
        let ghost s2 = *self;
        self.emit_modrm_registers(src, dest);
        proof {
            lemma_wrote_join(s0, s2, *self, rex32_optional(src, dest) + seq![0x39u8], modrm_registers(src, dest));
        }
    }

    pub fn cmpl_ar(&mut self, lhs: Address, rhs: Register)
        requires
            old(self).wf(),
            lhs.wf(),
        ensures
            old(self).wrote(*final(self), rex32_modrm_address(rhs, lhs) + seq![0x39u8] + address_bytes(rhs.low_bits(), lhs)),
    {
        let ghost s0 = *self;
        self.emit_rex32_modrm_address(rhs, lhs);
        let ghost s1 = *self;
        self.emit_u8(0x39);
        proof {
            lemma_wrote_join(s0, s1, *self, rex32_modrm_address(rhs, lhs), seq![0x39u8]);
        }
        let ghost s2 = *self;
        self.emit_address(rhs.low_bits(), lhs);
        proof {
            lemma_wrote_join(s0, s2, *self, rex32_modrm_address(rhs, lhs) + seq![0x39u8], address_bytes(rhs.low_bits(), lhs));
        }
    }

    pub fn cmpq_rr(&mut self, lhs: Register, rhs: Register)
        requires
            old(self).wf(),
        ensures
            old(self).wrote(*final(self), rex64_modrm(rhs, lhs) + seq![0x39u8] + modrm_registers(rhs, lhs)),
    {
        let ghost s0 = *self;
        self.emit_rex64_modrm(rhs, lhs);
        let ghost s1 = *self;
        self.emit_u8(0x39);
        proof {
            lemma_wrote_join(s0, s1, *self, rex64_modrm(rhs, lhs), seq![0x39u8]);
        }
        let ghost s2 = *self;
        self.emit_modrm_registers(rhs, lhs);
        proof {
            lemma_wrote_join(s0, s2, *self, rex64_modrm(rhs, lhs) + seq![0x39u8], modrm_registers(rhs, lhs));
        }
    }

    pub fn cmpq_ar(&mut self, lhs: Address, rhs: Register)
        requires
            old(self).wf(),
            lhs.wf(),
        ensures
            old(self).wrote(*final(self), rex64_modrm_address(rhs, lhs) + seq![0x39u8] + address_bytes(rhs.low_bits(), lhs)),
    {
        let ghost s0 = *self;
        self.emit_rex64_modrm_address(rhs, lhs);
        let ghost s1 = *self;
        self.emit_u8(0x39);
        proof {
            lemma_wrote_join(s0, s1, *self, rex64_modrm_address(rhs, lhs), seq![0x39u8]);
        }
        let ghost s2 = *self;
        self.emit_address(rhs.low_bits(), lhs);
        proof {
            lemma_wrote_join(s0, s2, *self, rex64_modrm_address(rhs, lhs) + seq![0x39u8], address_bytes(rhs.low_bits(), lhs));
        }
    }

    pub fn cmpq_ri(&mut self, reg: Register, imm: Immediate)
        requires
            old(self).wf(),
            imm.is_int32(),
        ensures
            old(self).wrote(*final(self), alu64_imm(reg, imm, 0b111, 0x3d)),
    {
        self.emit_alu64_imm(reg, imm, 0b111, 0x3d);
    }

    pub fn cmpl_ri(&mut self, reg: Register, imm: Immediate)
        requires
            old(self).wf(),
            imm.is_int32(),
        ensures
            old(self).wrote(*final(self), alu32_imm(reg, imm, 0b111, 0x3d)),
    {
        self.emit_alu32_imm(reg, imm, 0b111, 0x3d);
    }

    pub fn ucomiss_rr(&mut self, dest: XmmRegister, src: XmmRegister)
        requires
            old(self).wf(),
        ensures
            old(self).wrote(*final(self), rex_sse_modrm_optional(dest, src) + seq![0x0fu8] + seq![0x2eu8] + modrm_sse_registers(dest, src)),
    {
        let ghost s0 = *self;
        self.emit_rex_sse_modrm_optional(dest, src);
        let ghost s1 = *self;
        self.emit_u8(0x0f);
        proof {
            lemma_wrote_join(s0, s1, *self, rex_sse_modrm_optional(dest, src), seq![0x0fu8]);
        }
        let ghost s2 = *self;
        self.emit_u8(0x2e);
        proof {
            lemma_wrote_join(s0, s2, *self, rex_sse_modrm_optional(dest, src) + seq![0x0fu8], seq![0x2eu8]);
        }
        let ghost s3 = *self;
        self.emit_modrm_sse_registers(dest, src);
        proof {
            lemma_wrote_join(s0, s3, *self, rex_sse_modrm_optional(dest, src) + seq![0x0fu8] + seq![0x2eu8], modrm_sse_registers(dest, src));
        }
    }

    pub fn ucomisd_rr(&mut self, dest: XmmRegister, src: XmmRegister)
        requires
            old(self).wf(),
        ensures
            old(self).wrote(*final(self), seq![0x66u8] + rex_sse_modrm_optional(dest, src) + seq![0x0fu8] + seq![0x2eu8] + modrm_sse_registers(dest, src)),
    {
        let ghost s0 = *self;
        self.emit_u8(0x66);
        let ghost s1 = *self;
        self.emit_rex_sse_modrm_optional(dest, src);
        proof {
            lemma_wrote_join(s0, s1, *self, seq![0x66u8], rex_sse_modrm_optional(dest, src));
        }
        let ghost s2 = *self;
        self.emit_u8(0x0f);
        proof {
            lemma_wrote_join(s0, s2, *self, seq![0x66u8] + rex_sse_modrm_optional(dest, src), seq![0x0fu8]);
        }
        let ghost s3 = *self;
        self.emit_u8(0x2e);
        proof {
            lemma_wrote_join(s0, s3, *self, seq![0x66u8] + rex_sse_modrm_optional(dest, src) + seq![0x0fu8], seq![0x2eu8]);
        }
        let ghost s4 = *self;
        self.emit_modrm_sse_registers(dest, src);
        proof {
            lemma_wrote_join(s0, s4, *self, seq![0x66u8] + rex_sse_modrm_optional(dest, src) + seq![0x0fu8] + seq![0x2eu8], modrm_sse_registers(dest, src));
        }
    }

    pub fn sqrtss_rr(&mut self, dest: XmmRegister, src: XmmRegister)
        requires
            old(self).wf(),
        ensures
            old(self).wrote(*final(self), seq![0xf3u8] + rex_sse_modrm_optional(dest, src) + seq![0x0fu8] + seq![0x51u8] + modrm_sse_registers(dest, src)),
    {
        let ghost s0 = *self;
        self.emit_u8(0xf3);
        let ghost s1 = *self;
        self.emit_rex_sse_modrm_optional(dest, src);
        proof {
            lemma_wrote_join(s0, s1, *self, seq![0xf3u8], rex_sse_modrm_optional(dest, src));
        }
        let ghost s2 = *self;
        self.emit_u8(0x0f);
        proof {
            lemma_wrote_join(s0, s2, *self, seq![0xf3u8] + rex_sse_modrm_optional(dest, src), seq![0x0fu8]);
        }
        let ghost s3 = *self;
        self.emit_u8(0x51);
        proof {
            lemma_wrote_join(s0, s3, *self, seq![0xf3u8] + rex_sse_modrm_optional(dest, src) + seq![0x0fu8], seq![0x51u8]);
        }
        let ghost s4 = *self;
        self.emit_modrm_sse_registers(dest, src);
        proof {
            lemma_wrote_join(s0, s4, *self, seq![0xf3u8] + rex_sse_modrm_optional(dest, src) + seq![0x0fu8] + seq![0x51u8], modrm_sse_registers(dest, src));
        }
    }

    pub fn sqrtsd_rr(&mut self, dest: XmmRegister, src: XmmRegister)
        requires
            old(self).wf(),
        ensures
            old(self).wrote(*final(self), seq![0xf2u8] + rex_sse_modrm_optional(dest, src) + seq![0x0fu8] + seq![0x51u8] + modrm_sse_registers(dest, src)),
    {
        let ghost s0 = *self;
        self.emit_u8(0xf2);
        let ghost s1 = *self;
        self.emit_rex_sse_modrm_optional(dest, src);
        proof {
            lemma_wrote_join(s0, s1, *self, seq![0xf2u8], rex_sse_modrm_optional(dest, src));
        }
        let ghost s2 = *self;
        self.emit_u8(0x0f);
        proof {
            lemma_wrote_join(s0, s2, *self, seq![0xf2u8] + rex_sse_modrm_optional(dest, src), seq![0x0fu8]);
        }
        let ghost s3 = *self;
        self.emit_u8(0x51);
        proof {
            lemma_wrote_join(s0, s3, *self, seq![0xf2u8] + rex_sse_modrm_optional(dest, src) + seq![0x0fu8], seq![0x51u8]);
        }
        let ghost s4 = *self;
        self.emit_modrm_sse_registers(dest, src);
        proof {
            lemma_wrote_join(s0, s4, *self, seq![0xf2u8] + rex_sse_modrm_optional(dest, src) + seq![0x0fu8] + seq![0x51u8], modrm_sse_registers(dest, src));
        }
    }

    pub fn pxor_rr(&mut self, dest: XmmRegister, src: XmmRegister)
        requires
            old(self).wf(),
        ensures
            old(self).wrote(*final(self), seq![0x66u8] + rex_sse_modrm_optional(dest, src) + seq![0x0fu8] + seq![0xefu8] + modrm_sse_registers(dest, src)),
    {
        let ghost s0 = *self;
        self.emit_u8(0x66);
        let ghost s1 = *self;
        self.emit_rex_sse_modrm_optional(dest, src);
        proof {
            lemma_wrote_join(s0, s1, *self, seq![0x66u8], rex_sse_modrm_optional(dest, src));
        }
        let ghost s2 = *self;
        self.emit_u8(0x0f);
        proof {
            lemma_wrote_join(s0, s2, *self, seq![0x66u8] + rex_sse_modrm_optional(dest, src), seq![0x0fu8]);
        }
        let ghost s3 = *self;
        self.emit_u8(0xef);
        proof {
            lemma_wrote_join(s0, s3, *self, seq![0x66u8] + rex_sse_modrm_optional(dest, src) + seq![0x0fu8], seq![0xefu8]);
        }
        let ghost s4 = *self;
        self.emit_modrm_sse_registers(dest, src);
        proof {
            lemma_wrote_join(s0, s4, *self, seq![0x66u8] + rex_sse_modrm_optional(dest, src) + seq![0x0fu8] + seq![0xefu8], modrm_sse_registers(dest, src));
        }
    }

    pub fn orl_rr(&mut self, dest: Register, src: Register)
        requires
            old(self).wf(),
        ensures
            old(self).wrote(*final(self), rex32_optional(src, dest) + seq![0x09u8] + modrm_registers(src, dest)),
    {
        let ghost s0 = *self;
        self.emit_rex32_optional(src, dest);
        let ghost s1 = *self;
        self.emit_u8(0x09);
        proof {
            lemma_wrote_join(s0, s1, *self, rex32_optional(src, dest), seq![0x09u8]);
        }
        let ghost s2 = *self;
        self.emit_modrm_registers(src, dest);
        proof {
            lemma_wrote_join(s0, s2, *self, rex32_optional(src, dest) + seq![0x09u8], modrm_registers(src, dest));
        }
    }

    pub fn orq_rr(&mut self, dest: Register, src: Register)
        requires
            old(self).wf(),
        ensures
            old(self).wrote(*final(self), rex64_modrm(src, dest) + seq![0x09u8] + modrm_registers(src, dest)),
    {
        let ghost s0 = *self;
        self.emit_rex64_modrm(src, dest);
        let ghost s1 = *self;
        self.emit_u8(0x09);
        proof {
            lemma_wrote_join(s0, s1, *self, rex64_modrm(src, dest), seq![0x09u8]);
        }
        let ghost s2 = *self;
        self.emit_modrm_registers(src, dest);
        proof {
            lemma_wrote_join(s0, s2, *self, rex64_modrm(src, dest) + seq![0x09u8], modrm_registers(src, dest));
        }
    }

    pub fn xchgq_ar(&mut self, dest: Address, src: Register)
        requires
            old(self).wf(),
            dest.wf(),
        ensures
            old(self).wrote(*final(self), rex64_modrm_address(src, dest) + seq![0x87u8] + address_bytes(src.low_bits(), dest)),
    {
        let ghost s0 = *self;
        self.emit_rex64_modrm_address(src, dest);
        let ghost s1 = *self;
        self.emit_u8(0x87);
        proof {
            lemma_wrote_join(s0, s1, *self, rex64_modrm_address(src, dest), seq![0x87u8]);
        }
        let ghost s2 = *self;
        self.emit_address(src.low_bits(), dest);
        proof {
            lemma_wrote_join(s0, s2, *self, rex64_modrm_address(src, dest) + seq![0x87u8], address_bytes(src.low_bits(), dest));
        }
    }

    pub fn xchgl_ar(&mut self, dest: Address, src: Register)
        requires
            old(self).wf(),
            dest.wf(),
        ensures
            old(self).wrote(*final(self), rex32_modrm_address(src, dest) + seq![0x87u8] + address_bytes(src.low_bits(), dest)),
    {
        let ghost s0 = *self;
        self.emit_rex32_modrm_address(src, dest);
        let ghost s1 = *self;
        self.emit_u8(0x87);
        proof {
            lemma_wrote_join(s0, s1, *self, rex32_modrm_address(src, dest), seq![0x87u8]);
        }
        let ghost s2 = *self;
        self.emit_address(src.low_bits(), dest);
        proof {
            lemma_wrote_join(s0, s2, *self, rex32_modrm_address(src, dest) + seq![0x87u8], address_bytes(src.low_bits(), dest));
        }
    }

    pub fn cmpxchgq_ar(&mut self, dest: Address, src: Register)
        requires
            old(self).wf(),
            dest.wf(),
        ensures
            old(self).wrote(*final(self), rex64_modrm_address(src, dest) + seq![0x0fu8] + seq![0xb1u8] + address_bytes(src.low_bits(), dest)),
    {
        let ghost s0 = *self;
        self.emit_rex64_modrm_address(src, dest);
        let ghost s1 = *self;
        self.emit_u8(0x0f);
        proof {
            lemma_wrote_join(s0, s1, *self, rex64_modrm_address(src, dest), seq![0x0fu8]);
        }
        let ghost s2 = *self;
        self.emit_u8(0xb1);
        proof {
            lemma_wrote_join(s0, s2, *self, rex64_modrm_address(src, dest) + seq![0x0fu8], seq![0xb1u8]);
        }
        let ghost s3 = *self;
        self.emit_address(src.low_bits(), dest);
        proof {
            lemma_wrote_join(s0, s3, *self, rex64_modrm_address(src, dest) + seq![0x0fu8] + seq![0xb1u8], address_bytes(src.low_bits(), dest));
        }
    }

    pub fn cmpxchgl_ar(&mut self, dest: Address, src: Register)
        requires
            old(self).wf(),
            dest.wf(),
        ensures
            old(self).wrote(*final(self), rex32_modrm_address(src, dest) + seq![0x0fu8] + seq![0xb1u8] + address_bytes(src.low_bits(), dest)),
    {
        let ghost s0 = *self;
        self.emit_rex32_modrm_address(src, dest);
        let ghost s1 = *self;
        self.emit_u8(0x0f);
        proof {
            lemma_wrote_join(s0, s1, *self, rex32_modrm_address(src, dest), seq![0x0fu8]);
        }
        let ghost s2 = *self;
        self.emit_u8(0xb1);
        proof {
            lemma_wrote_join(s0, s2, *self, rex32_modrm_address(src, dest) + seq![0x0fu8], seq![0xb1u8]);
        }
        let ghost s3 = *self;
        self.emit_address(src.low_bits(), dest);
        proof {
            lemma_wrote_join(s0, s3, *self, rex32_modrm_address(src, dest) + seq![0x0fu8] + seq![0xb1u8], address_bytes(src.low_bits(), dest));
        }
    }

    pub fn lock_cmpxchgq_ar(&mut self, dest: Address, src: Register)
        requires
            old(self).wf(),
            dest.wf(),
        ensures
            old(self).wrote(*final(self), lock_prefix() + rex64_modrm_address(src, dest) + seq![0x0fu8] + seq![0xb1u8] + address_bytes(src.low_bits(), dest)),
    {
        let ghost s0 = *self;
        self.emit_lock_prefix();
        let ghost s1 = *self;
        self.emit_rex64_modrm_address(src, dest);
        proof {
            lemma_wrote_join(s0, s1, *self, lock_prefix(), rex64_modrm_address(src, dest));
        }
        let ghost s2 = *self;
        self.emit_u8(0x0f);
        proof {
            lemma_wrote_join(s0, s2, *self, lock_prefix() + rex64_modrm_address(src, dest), seq![0x0fu8]);
        }
        let ghost s3 = *self;
        self.emit_u8(0xb1);
        proof {
            lemma_wrote_join(s0, s3, *self, lock_prefix() + rex64_modrm_address(src, dest) + seq![0x0fu8], seq![0xb1u8]);
        }
        let ghost s4 = *self;
        self.emit_address(src.low_bits(), dest);
        proof {
            lemma_wrote_join(s0, s4, *self, lock_prefix() + rex64_modrm_address(src, dest) + seq![0x0fu8] + seq![0xb1u8], address_bytes(src.low_bits(), dest));
        }
    }

    pub fn lock_cmpxchgl_ar(&mut self, dest: Address, src: Register)
        requires
            old(self).wf(),
            dest.wf(),
        ensures
            old(self).wrote(*final(self), lock_prefix() + rex32_modrm_address(src, dest) + seq![0x0fu8] + seq![0xb1u8] + address_bytes(src.low_bits(), dest)),
    {
        let ghost s0 = *self;
        self.emit_lock_prefix();
        let ghost s1 = *self;
        self.emit_rex32_modrm_address(src, dest);
        proof {
            lemma_wrote_join(s0, s1, *self, lock_prefix(), rex32_modrm_address(src, dest));
        }
        let ghost s2 = *self;
        self.emit_u8(0x0f);
        proof {
            lemma_wrote_join(s0, s2, *self, lock_prefix() + rex32_modrm_address(src, dest), seq![0x0fu8]);
        }
        let ghost s3 = *self;
        self.emit_u8(0xb1);
        proof {
            lemma_wrote_join(s0, s3, *self, lock_prefix() + rex32_modrm_address(src, dest) + seq![0x0fu8], seq![0xb1u8]);
        }
        let ghost s4 = *self;
        self.emit_address(src.low_bits(), dest);
        proof {
            lemma_wrote_join(s0, s4, *self, lock_prefix() + rex32_modrm_address(src, dest) + seq![0x0fu8] + seq![0xb1u8], address_bytes(src.low_bits(), dest));
        }
    }

    pub fn xorl_rr(&mut self, dest: Register, src: Register)
        requires
            old(self).wf(),
        ensures
            old(self).wrote(*final(self), rex32_optional(src, dest) + seq![0x31u8] + modrm_registers(src, dest)),
    {
        let ghost s0 = *self;
        self.emit_rex32_optional(src, dest);
        let ghost s1 = *self;
        self.emit_u8(0x31);
        proof {
            lemma_wrote_join(s0, s1, *self, rex32_optional(src, dest), seq![0x31u8]);
        }
        let ghost s2 = *self;
        self.emit_modrm_registers(src, dest);
        proof {
            lemma_wrote_join(s0, s2, *self, rex32_optional(src, dest) + seq![0x31u8], modrm_registers(src, dest));
        }
    }

    pub fn xorl_ri(&mut self, lhs: Register, rhs: Immediate)
        requires
            old(self).wf(),
            rhs.is_int32(),
        ensures
            old(self).wrote(*final(self), alu32_imm(lhs, rhs, 0b110, 0x35)),
    {
        self.emit_alu32_imm(lhs, rhs, 0b110, 0x35);
    }

    pub fn xorq_rr(&mut self, dest: Register, src: Register)
        requires
            old(self).wf(),
        ensures
            old(self).wrote(*final(self), rex64_modrm(src, dest) + seq![0x31u8] + modrm_registers(src, dest)),
    {
        let ghost s0 = *self;
        self.emit_rex64_modrm(src, dest);
        let ghost s1 = *self;
        self.emit_u8(0x31);
        proof {
            lemma_wrote_join(s0, s1, *self, rex64_modrm(src, dest), seq![0x31u8]);
        }
        let ghost s2 = *self;
        self.emit_modrm_registers(src, dest);
        proof {
            lemma_wrote_join(s0, s2, *self, rex64_modrm(src, dest) + seq![0x31u8], modrm_registers(src, dest));
        }
    }

    pub fn xorps_ra(&mut self, dest: XmmRegister, src: Address)
        requires
            old(self).wf(),
            src.wf(),
        ensures
            old(self).wrote(*final(self), rex_sse_address_optional(dest, src) + seq![0x0fu8] + seq![0x57u8] + address_bytes(dest.low_bits(), src)),
    {
        let ghost s0 = *self;
        self.emit_rex_sse_address_optional(dest, src);
        let ghost s1 = *self;
        self.emit_u8(0x0f);
        proof {
            lemma_wrote_join(s0, s1, *self, rex_sse_address_optional(dest, src), seq![0x0fu8]);
        }
        let ghost s2 = *self;
        self.emit_u8(0x57);
        proof {
            lemma_wrote_join(s0, s2, *self, rex_sse_address_optional(dest, src) + seq![0x0fu8], seq![0x57u8]);
        }
        let ghost s3 = *self;
        self.emit_address(dest.low_bits(), src);
        proof {
            lemma_wrote_join(s0, s3, *self, rex_sse_address_optional(dest, src) + seq![0x0fu8] + seq![0x57u8], address_bytes(dest.low_bits(), src));
        }
    }

    pub fn xorps_rr(&mut self, dest: XmmRegister, src: XmmRegister)
        requires
            old(self).wf(),
        ensures
            old(self).wrote(*final(self), rex_sse_modrm_optional(dest, src) + seq![0x0fu8] + seq![0x57u8] + modrm_sse_registers(dest, src)),
    {
        let ghost s0 = *self;
        self.emit_rex_sse_modrm_optional(dest, src);
        let ghost s1 = *self;
        self.emit_u8(0x0f);
        proof {
            lemma_wrote_join(s0, s1, *self, rex_sse_modrm_optional(dest, src), seq![0x0fu8]);
        }
        let ghost s2 = *self;
        self.emit_u8(0x57);
        proof {
            lemma_wrote_join(s0, s2, *self, rex_sse_modrm_optional(dest, src) + seq![0x0fu8], seq![0x57u8]);
        }
        let ghost s3 = *self;
        self.emit_modrm_sse_registers(dest, src);
        proof {
            lemma_wrote_join(s0, s3, *self, rex_sse_modrm_optional(dest, src) + seq![0x0fu8] + seq![0x57u8], modrm_sse_registers(dest, src));
        }
    }

    pub fn xorpd_ra(&mut self, dest: XmmRegister, src: Address)
        requires
            old(self).wf(),
            src.wf(),
        ensures
            old(self).wrote(*final(self), seq![0x66u8] + rex_sse_address_optional(dest, src) + seq![0x0fu8] + seq![0x57u8] + address_bytes(dest.low_bits(), src)),
    {
        let ghost s0 = *self;
        self.emit_u8(0x66);
        let ghost s1 = *self;
        self.emit_rex_sse_address_optional(dest, src);
        proof {
            lemma_wrote_join(s0, s1, *self, seq![0x66u8], rex_sse_address_optional(dest, src));
        }
        let ghost s2 = *self;
        self.emit_u8(0x0f);
        proof {
            lemma_wrote_join(s0, s2, *self, seq![0x66u8] + rex_sse_address_optional(dest, src), seq![0x0fu8]);
        }
        let ghost s3 = *self;
        self.emit_u8(0x57);
        proof {
            lemma_wrote_join(s0, s3, *self, seq![0x66u8] + rex_sse_address_optional(dest, src) + seq![0x0fu8], seq![0x57u8]);
        }
        let ghost s4 = *self;
        self.emit_address(dest.low_bits(), src);
        proof {
            lemma_wrote_join(s0, s4, *self, seq![0x66u8] + rex_sse_address_optional(dest, src) + seq![0x0fu8] + seq![0x57u8], address_bytes(dest.low_bits(), src));
        }
    }

    pub fn testl_rr(&mut self, lhs: Register, rhs: Register)
        requires
            old(self).wf(),
        ensures
            old(self).wrote(*final(self), rex32_optional(rhs, lhs) + seq![0x85u8] + modrm_registers(rhs, lhs)),
    {
        let ghost s0 = *self;
        self.emit_rex32_optional(rhs, lhs);
        let ghost s1 = *self;
        self.emit_u8(0x85);
        proof {
            lemma_wrote_join(s0, s1, *self, rex32_optional(rhs, lhs), seq![0x85u8]);
        }
        let ghost s2 = *self;
        self.emit_modrm_registers(rhs, lhs);
        proof {
            lemma_wrote_join(s0, s2, *self, rex32_optional(rhs, lhs) + seq![0x85u8], modrm_registers(rhs, lhs));
        }
    }

    pub fn testl_ar(&mut self, lhs: Address, rhs: Register)
        requires
            old(self).wf(),
            lhs.wf(),
        ensures
            old(self).wrote(*final(self), rex32_modrm_address(rhs, lhs) + seq![0x85u8] + address_bytes(rhs.low_bits(), lhs)),
    {
        let ghost s0 = *self;
        self.emit_rex32_modrm_address(rhs, lhs);
        let ghost s1 = *self;
        self.emit_u8(0x85);
        proof {
            lemma_wrote_join(s0, s1, *self, rex32_modrm_address(rhs, lhs), seq![0x85u8]);
        }
        let ghost s2 = *self;
        self.emit_address(rhs.low_bits(), lhs);
        proof {
            lemma_wrote_join(s0, s2, *self, rex32_modrm_address(rhs, lhs) + seq![0x85u8], address_bytes(rhs.low_bits(), lhs));
        }
    }

    pub fn testl_ai(&mut self, lhs: Address, rhs: Immediate)
        requires
            old(self).wf(),
            lhs.wf(),
            rhs.is_int32(),
        ensures
            old(self).wrote(*final(self), rex32_address_optional(lhs) + seq![0xf7u8] + address_bytes(0b000, lhs) + le32(rhs.int32_bits())),
    {
        let ghost s0 = *self;
        self.emit_rex32_address_optional(lhs);
        let ghost s1 = *self;
        self.emit_u8(0xf7);
        proof {
            lemma_wrote_join(s0, s1, *self, rex32_address_optional(lhs), seq![0xf7u8]);
        }
        let ghost s2 = *self;
        self.emit_address(0b000, lhs);
        proof {
            lemma_wrote_join(s0, s2, *self, rex32_address_optional(lhs) + seq![0xf7u8], address_bytes(0b000, lhs));
        }
        let ghost s3 = *self;
        self.emit_u32(rhs.int32_bits());
        proof {
            lemma_wrote_join(s0, s3, *self, rex32_address_optional(lhs) + seq![0xf7u8] + address_bytes(0b000, lhs), le32(rhs.int32_bits()));
        }
    }

    pub fn testq_rr(&mut self, lhs: Register, rhs: Register)
        requires
            old(self).wf(),
        ensures
            old(self).wrote(*final(self), rex64_modrm(rhs, lhs) + seq![0x85u8] + modrm_registers(rhs, lhs)),
    {
        let ghost s0 = *self;
        self.emit_rex64_modrm(rhs, lhs);
        let ghost s1 = *self;
        self.emit_u8(0x85);
        proof {
            lemma_wrote_join(s0, s1, *self, rex64_modrm(rhs, lhs), seq![0x85u8]);
        }
        let ghost s2 = *self;
        self.emit_modrm_registers(rhs, lhs);
        proof {
            lemma_wrote_join(s0, s2, *self, rex64_modrm(rhs, lhs) + seq![0x85u8], modrm_registers(rhs, lhs));
        }
    }

    pub fn testq_ar(&mut self, lhs: Address, rhs: Register)
        requires
            old(self).wf(),
            lhs.wf(),
        ensures
            old(self).wrote(*final(self), rex64_modrm_address(rhs, lhs) + seq![0x85u8] + address_bytes(rhs.low_bits(), lhs)),
    {
        let ghost s0 = *self;
        self.emit_rex64_modrm_address(rhs, lhs);
        let ghost s1 = *self;
        self.emit_u8(0x85);
        proof {
            lemma_wrote_join(s0, s1, *self, rex64_modrm_address(rhs, lhs), seq![0x85u8]);
        }
        let ghost s2 = *self;
        self.emit_address(rhs.low_bits(), lhs);
        proof {
            lemma_wrote_join(s0, s2, *self, rex64_modrm_address(rhs, lhs) + seq![0x85u8], address_bytes(rhs.low_bits(), lhs));
        }
    }

    pub fn testq_ai(&mut self, lhs: Address, rhs: Immediate)
        requires
            old(self).wf(),
            lhs.wf(),
            rhs.is_int32(),
        ensures
            old(self).wrote(*final(self), rex64_address(lhs) + seq![0xf7u8] + address_bytes(0b000, lhs) + le32(rhs.int32_bits())),
    {
        let ghost s0 = *self;
        self.emit_rex64_address(lhs);
        let ghost s1 = *self;
        self.emit_u8(0xf7);
        proof {
            lemma_wrote_join(s0, s1, *self, rex64_address(lhs), seq![0xf7u8]);
        }
        let ghost s2 = *self;
        self.emit_address(0b000, lhs);
        proof {
            lemma_wrote_join(s0, s2, *self, rex64_address(lhs) + seq![0xf7u8], address_bytes(0b000, lhs));
        }
        let ghost s3 = *self;
        self.emit_u32(rhs.int32_bits());
        proof {
            lemma_wrote_join(s0, s3, *self, rex64_address(lhs) + seq![0xf7u8] + address_bytes(0b000, lhs), le32(rhs.int32_bits()));
        }
    }

    pub fn imull_rr(&mut self, dest: Register, src: Register)
        requires
            old(self).wf(),
        ensures
            old(self).wrote(*final(self), rex32_optional(dest, src) + seq![0x0Fu8] + seq![0xAFu8] + modrm_registers(dest, src)),
    {
        let ghost s0 = *self;
        self.emit_rex32_optional(dest, src);
        let ghost s1 = *self;
        self.emit_u8(0x0F);
        proof {
            lemma_wrote_join(s0, s1, *self, rex32_optional(dest, src), seq![0x0Fu8]);
        }
        let ghost s2 = *self;
        self.emit_u8(0xAF);
        proof {
            lemma_wrote_join(s0, s2, *self, rex32_optional(dest, src) + seq![0x0Fu8], seq![0xAFu8]);
        }
        let ghost s3 = *self;
        self.emit_modrm_registers(dest, src);
        proof {
            lemma_wrote_join(s0, s3, *self, rex32_optional(dest, src) + seq![0x0Fu8] + seq![0xAFu8], modrm_registers(dest, src));
        }
    }

    pub fn imulq_rr(&mut self, dest: Register, src: Register)
        requires
            old(self).wf(),
        ensures
            old(self).wrote(*final(self), rex64_modrm(dest, src) + seq![0x0Fu8] + seq![0xAFu8] + modrm_registers(dest, src)),
    {
        let ghost s0 = *self;
        self.emit_rex64_modrm(dest, src);
        let ghost s1 = *self;
        self.emit_u8(0x0F);
        proof {
            lemma_wrote_join(s0, s1, *self, rex64_modrm(dest, src), seq![0x0Fu8]);
        }
        let ghost s2 = *self;
        self.emit_u8(0xAF);
        proof {
            lemma_wrote_join(s0, s2, *self, rex64_modrm(dest, src) + seq![0x0Fu8], seq![0xAFu8]);
        }
        let ghost s3 = *self;
        self.emit_modrm_registers(dest, src);
        proof {
            lemma_wrote_join(s0, s3, *self, rex64_modrm(dest, src) + seq![0x0Fu8] + seq![0xAFu8], modrm_registers(dest, src));
        }
    }

    pub fn mulss_rr(&mut self, dest: XmmRegister, src: XmmRegister)
        requires
            old(self).wf(),
        ensures
            old(self).wrote(*final(self), seq![0xf3u8] + rex_sse_modrm_optional(dest, src) + seq![0x0fu8] + seq![0x59u8] + modrm_sse_registers(dest, src)),
    {
        let ghost s0 = *self;
        self.emit_u8(0xf3);
        let ghost s1 = *self;
        self.emit_rex_sse_modrm_optional(dest, src);
        proof {
            lemma_wrote_join(s0, s1, *self, seq![0xf3u8], rex_sse_modrm_optional(dest, src));
        }
        let ghost s2 = *self;
        self.emit_u8(0x0f);
        proof {
            lemma_wrote_join(s0, s2, *self, seq![0xf3u8] + rex_sse_modrm_optional(dest, src), seq![0x0fu8]);
        }
        let ghost s3 = *self;
        self.emit_u8(0x59);
        proof {
            lemma_wrote_join(s0, s3, *self, seq![0xf3u8] + rex_sse_modrm_optional(dest, src) + seq![0x0fu8], seq![0x59u8]);
        }
        let ghost s4 = *self;
        self.emit_modrm_sse_registers(dest, src);
        proof {
            lemma_wrote_join(s0, s4, *self, seq![0xf3u8] + rex_sse_modrm_optional(dest, src) + seq![0x0fu8] + seq![0x59u8], modrm_sse_registers(dest, src));
        }
    }

    pub fn mulsd_rr(&mut self, dest: XmmRegister, src: XmmRegister)
        requires
            old(self).wf(),
        ensures
            old(self).wrote(*final(self), seq![0xf2u8] + rex_sse_modrm_optional(dest, src) + seq![0x0fu8] + seq![0x59u8] + modrm_sse_registers(dest, src)),
    {
        let ghost s0 = *self;
        self.emit_u8(0xf2);
        let ghost s1 = *self;
        self.emit_rex_sse_modrm_optional(dest, src);
        proof {
            lemma_wrote_join(s0, s1, *self, seq![0xf2u8], rex_sse_modrm_optional(dest, src));
        }
        let ghost s2 = *self;
        self.emit_u8(0x0f);
        proof {
            lemma_wrote_join(s0, s2, *self, seq![0xf2u8] + rex_sse_modrm_optional(dest, src), seq![0x0fu8]);
        }
        let ghost s3 = *self;
        self.emit_u8(0x59);
        proof {
            lemma_wrote_join(s0, s3, *self, seq![0xf2u8] + rex_sse_modrm_optional(dest, src) + seq![0x0fu8], seq![0x59u8]);
        }
        let ghost s4 = *self;
        self.emit_modrm_sse_registers(dest, src);
        proof {
            lemma_wrote_join(s0, s4, *self, seq![0xf2u8] + rex_sse_modrm_optional(dest, src) + seq![0x0fu8] + seq![0x59u8], modrm_sse_registers(dest, src));
        }
    }

    pub fn divss_rr(&mut self, dest: XmmRegister, src: XmmRegister)
        requires
            old(self).wf(),
        ensures
            old(self).wrote(*final(self), seq![0xf3u8] + rex_sse_modrm_optional(dest, src) + seq![0x0fu8] + seq![0x5eu8] + modrm_sse_registers(dest, src)),
    {
        let ghost s0 = *self;
        self.emit_u8(0xf3);
        let ghost s1 = *self;
        self.emit_rex_sse_modrm_optional(dest, src);
        proof {
            lemma_wrote_join(s0, s1, *self, seq![0xf3u8], rex_sse_modrm_optional(dest, src));
        }
        let ghost s2 = *self;
        self.emit_u8(0x0f);
        proof {
            lemma_wrote_join(s0, s2, *self, seq![0xf3u8] + rex_sse_modrm_optional(dest, src), seq![0x0fu8]);
        }
        let ghost s3 = *self;
        self.emit_u8(0x5e);
        proof {
            lemma_wrote_join(s0, s3, *self, seq![0xf3u8] + rex_sse_modrm_optional(dest, src) + seq![0x0fu8], seq![0x5eu8]);
        }
        let ghost s4 = *self;
        self.emit_modrm_sse_registers(dest, src);
        proof {
            lemma_wrote_join(s0, s4, *self, seq![0xf3u8] + rex_sse_modrm_optional(dest, src) + seq![0x0fu8] + seq![0x5eu8], modrm_sse_registers(dest, src));
        }
    }

    pub fn divsd_rr(&mut self, dest: XmmRegister, src: XmmRegister)
        requires
            old(self).wf(),
        ensures
            old(self).wrote(*final(self), seq![0xf2u8] + rex_sse_modrm_optional(dest, src) + seq![0x0fu8] + seq![0x5eu8] + modrm_sse_registers(dest, src)),
    {
        let ghost s0 = *self;
        self.emit_u8(0xf2);
        let ghost s1 = *self;
        self.emit_rex_sse_modrm_optional(dest, src);
        proof {
            lemma_wrote_join(s0, s1, *self, seq![0xf2u8], rex_sse_modrm_optional(dest, src));
        }
        let ghost s2 = *self;
        self.emit_u8(0x0f);
        proof {
            lemma_wrote_join(s0, s2, *self, seq![0xf2u8] + rex_sse_modrm_optional(dest, src), seq![0x0fu8]);
        }
        let ghost s3 = *self;
        self.emit_u8(0x5e);
        proof {
            lemma_wrote_join(s0, s3, *self, seq![0xf2u8] + rex_sse_modrm_optional(dest, src) + seq![0x0fu8], seq![0x5eu8]);
        }
        let ghost s4 = *self;
        self.emit_modrm_sse_registers(dest, src);
        proof {
            lemma_wrote_join(s0, s4, *self, seq![0xf2u8] + rex_sse_modrm_optional(dest, src) + seq![0x0fu8] + seq![0x5eu8], modrm_sse_registers(dest, src));
        }
    }

    pub fn idivl_r(&mut self, reg: Register)
        requires
            old(self).wf(),
        ensures
            old(self).wrote(*final(self), rex32_rm_optional(reg) + seq![0xF7u8] + modrm_opcode(0b111, reg)),
    {
        let ghost s0 = *self;
        self.emit_rex32_rm_optional(reg);
        let ghost s1 = *self;
        self.emit_u8(0xF7);
        proof {
            lemma_wrote_join(s0, s1, *self, rex32_rm_optional(reg), seq![0xF7u8]);
        }
        let ghost s2 = *self;
        self.emit_modrm_opcode(0b111, reg);
        proof {
            lemma_wrote_join(s0, s2, *self, rex32_rm_optional(reg) + seq![0xF7u8], modrm_opcode(0b111, reg));
        }
    }

    pub fn idivq_r(&mut self, src: Register)
        requires
            old(self).wf(),
        ensures
            old(self).wrote(*final(self), rex64_rm(src) + seq![0xF7u8] + modrm_opcode(0b111, src)),
    {
        let ghost s0 = *self;
        self.emit_rex64_rm(src);
        let ghost s1 = *self;
        self.emit_u8(0xF7);
        proof {
            lemma_wrote_join(s0, s1, *self, rex64_rm(src), seq![0xF7u8]);
        }
        let ghost s2 = *self;
        self.emit_modrm_opcode(0b111, src);
        proof {
            lemma_wrote_join(s0, s2, *self, rex64_rm(src) + seq![0xF7u8], modrm_opcode(0b111, src));
        }
    }

    pub fn call_r(&mut self, reg: Register)
        requires
            old(self).wf(),
        ensures
            old(self).wrote(*final(self), rex32_rm_optional(reg) + seq![0xFFu8] + modrm_opcode(0b010, reg)),
    {
        let ghost s0 = *self;
        self.emit_rex32_rm_optional(reg);
        let ghost s1 = *self;
        self.emit_u8(0xFF);
        proof {
            lemma_wrote_join(s0, s1, *self, rex32_rm_optional(reg), seq![0xFFu8]);
        }
        let ghost s2 = *self;
        self.emit_modrm_opcode(0b010, reg);
        proof {
            lemma_wrote_join(s0, s2, *self, rex32_rm_optional(reg) + seq![0xFFu8], modrm_opcode(0b010, reg));
        }
    }

    pub fn cdq(&mut self)
        requires
            old(self).wf(),
        ensures
            old(self).wrote(*final(self), seq![0x99u8]),
    {
        self.emit_u8(0x99);
    }

    pub fn cqo(&mut self)
        requires
            old(self).wf(),
        ensures
            old(self).wrote(*final(self), rex64() + seq![0x99u8]),
    {
        let ghost s0 = *self;
        self.emit_rex64();
        let ghost s1 = *self;
        self.emit_u8(0x99);
        proof {
            lemma_wrote_join(s0, s1, *self, rex64(), seq![0x99u8]);
        }
    }

    pub fn negl(&mut self, reg: Register)
        requires
            old(self).wf(),
        ensures
            old(self).wrote(*final(self), rex32_rm_optional(reg) + seq![0xF7u8] + modrm_opcode(0b011, reg)),
    {
        let ghost s0 = *self;
        self.emit_rex32_rm_optional(reg);
        let ghost s1 = *self;
        self.emit_u8(0xF7);
        proof {
            lemma_wrote_join(s0, s1, *self, rex32_rm_optional(reg), seq![0xF7u8]);
        }
        let ghost s2 = *self;
        self.emit_modrm_opcode(0b011, reg);
        proof {
            lemma_wrote_join(s0, s2, *self, rex32_rm_optional(reg) + seq![0xF7u8], modrm_opcode(0b011, reg));
        }
    }

    pub fn negq(&mut self, reg: Register)
        requires
            old(self).wf(),
        ensures
            old(self).wrote(*final(self), rex64_rm(reg) + seq![0xF7u8] + modrm_opcode(0b011, reg)),
    {
        let ghost s0 = *self;
        self.emit_rex64_rm(reg);
        let ghost s1 = *self;
        self.emit_u8(0xF7);
        proof {
            lemma_wrote_join(s0, s1, *self, rex64_rm(reg), seq![0xF7u8]);
        }
        let ghost s2 = *self;
        self.emit_modrm_opcode(0b011, reg);
        proof {
            lemma_wrote_join(s0, s2, *self, rex64_rm(reg) + seq![0xF7u8], modrm_opcode(0b011, reg));
        }
    }

    pub fn notl(&mut self, reg: Register)
        requires
            old(self).wf(),
        ensures
            old(self).wrote(*final(self), rex32_rm_optional(reg) + seq![0xF7u8] + modrm_opcode(0b010, reg)),
    {
        let ghost s0 = *self;
        self.emit_rex32_rm_optional(reg);
        let ghost s1 = *self;
        self.emit_u8(0xF7);
        proof {
            lemma_wrote_join(s0, s1, *self, rex32_rm_optional(reg), seq![0xF7u8]);
        }
        let ghost s2 = *self;
        self.emit_modrm_opcode(0b010, reg);
        proof {
            lemma_wrote_join(s0, s2, *self, rex32_rm_optional(reg) + seq![0xF7u8], modrm_opcode(0b010, reg));
        }
    }

    pub fn notq(&mut self, reg: Register)
        requires
            old(self).wf(),
        ensures
            old(self).wrote(*final(self), rex64_rm(reg) + seq![0xF7u8] + modrm_opcode(0b010, reg)),
    {
        let ghost s0 = *self;
        self.emit_rex64_rm(reg);
        let ghost s1 = *self;
        self.emit_u8(0xF7);
        proof {
            lemma_wrote_join(s0, s1, *self, rex64_rm(reg), seq![0xF7u8]);
        }
        let ghost s2 = *self;
        self.emit_modrm_opcode(0b010, reg);
        proof {
            lemma_wrote_join(s0, s2, *self, rex64_rm(reg) + seq![0xF7u8], modrm_opcode(0b010, reg));
        }
    }

    pub fn jmp_r(&mut self, reg: Register)
        requires
            old(self).wf(),
        ensures
            old(self).wrote(*final(self), rex32_rm_optional(reg) + seq![0xffu8] + modrm_opcode(0b100, reg)),
    {
        let ghost s0 = *self;
        self.emit_rex32_rm_optional(reg);
        let ghost s1 = *self;
        self.emit_u8(0xff);
        proof {
            lemma_wrote_join(s0, s1, *self, rex32_rm_optional(reg), seq![0xffu8]);
        }
        let ghost s2 = *self;
        self.emit_modrm_opcode(0b100, reg);
        proof {
            lemma_wrote_join(s0, s2, *self, rex32_rm_optional(reg) + seq![0xffu8], modrm_opcode(0b100, reg));
        }
    }

    pub fn tzcntl_rr(&mut self, dest: Register, src: Register)
        requires
            old(self).wf(),
        ensures
            old(self).wrote(*final(self), seq![0xf3u8] + rex32_optional(dest, src) + seq![0x0fu8] + seq![0xbcu8] + modrm_registers(dest, src)),
    {
        let ghost s0 = *self;
        self.emit_u8(0xf3);
        let ghost s1 = *self;
        self.emit_rex32_optional(dest, src);
        proof {
            lemma_wrote_join(s0, s1, *self, seq![0xf3u8], rex32_optional(dest, src));
        }
        let ghost s2 = *self;
        self.emit_u8(0x0f);
        proof {
            lemma_wrote_join(s0, s2, *self, seq![0xf3u8] + rex32_optional(dest, src), seq![0x0fu8]);
        }
        let ghost s3 = *self;
        self.emit_u8(0xbc);
        proof {
            lemma_wrote_join(s0, s3, *self, seq![0xf3u8] + rex32_optional(dest, src) + seq![0x0fu8], seq![0xbcu8]);
        }
        let ghost s4 = *self;
        self.emit_modrm_registers(dest, src);
        proof {
            lemma_wrote_join(s0, s4, *self, seq![0xf3u8] + rex32_optional(dest, src) + seq![0x0fu8] + seq![0xbcu8], modrm_registers(dest, src));
        }
    }

    pub fn tzcntq_rr(&mut self, dest: Register, src: Register)
        requires
            old(self).wf(),
        ensures
            old(self).wrote(*final(self), seq![0xf3u8] + rex64_modrm(dest, src) + seq![0x0fu8] + seq![0xbcu8] + modrm_registers(dest, src)),
    {
        let ghost s0 = *self;
        self.emit_u8(0xf3);
        let ghost s1 = *self;
        self.emit_rex64_modrm(dest, src);
        proof {
            lemma_wrote_join(s0, s1, *self, seq![0xf3u8], rex64_modrm(dest, src));
        }
        let ghost s2 = *self;
        self.emit_u8(0x0f);
        proof {
            lemma_wrote_join(s0, s2, *self, seq![0xf3u8] + rex64_modrm(dest, src), seq![0x0fu8]);
        }
        let ghost s3 = *self;
        self.emit_u8(0xbc);
        proof {
            lemma_wrote_join(s0, s3, *self, seq![0xf3u8] + rex64_modrm(dest, src) + seq![0x0fu8], seq![0xbcu8]);
        }
        let ghost s4 = *self;
        self.emit_modrm_registers(dest, src);
        proof {
            lemma_wrote_join(s0, s4, *self, seq![0xf3u8] + rex64_modrm(dest, src) + seq![0x0fu8] + seq![0xbcu8], modrm_registers(dest, src));
        }
    }

    pub fn lzcntl_rr(&mut self, dest: Register, src: Register)
        requires
            old(self).wf(),
        ensures
            old(self).wrote(*final(self), seq![0xf3u8] + rex32_optional(dest, src) + seq![0x0fu8] + seq![0xbdu8] + modrm_registers(dest, src)),
    {
        let ghost s0 = *self;
        self.emit_u8(0xf3);
        let ghost s1 = *self;
        self.emit_rex32_optional(dest, src);
        proof {
            lemma_wrote_join(s0, s1, *self, seq![0xf3u8], rex32_optional(dest, src));
        }
        let ghost s2 = *self;
        self.emit_u8(0x0f);
        proof {
            lemma_wrote_join(s0, s2, *self, seq![0xf3u8] + rex32_optional(dest, src), seq![0x0fu8]);
        }
        let ghost s3 = *self;
        self.emit_u8(0xbd);
        proof {
            lemma_wrote_join(s0, s3, *self, seq![0xf3u8] + rex32_optional(dest, src) + seq![0x0fu8], seq![0xbdu8]);
        }
        let ghost s4 = *self;
        self.emit_modrm_registers(dest, src);
        proof {
            lemma_wrote_join(s0, s4, *self, seq![0xf3u8] + rex32_optional(dest, src) + seq![0x0fu8] + seq![0xbdu8], modrm_registers(dest, src));
        }
    }

    pub fn lzcntq_rr(&mut self, dest: Register, src: Register)
        requires
            old(self).wf(),
        ensures
            old(self).wrote(*final(self), seq![0xf3u8] + rex64_modrm(dest, src) + seq![0x0fu8] + seq![0xbdu8] + modrm_registers(dest, src)),
    {
        let ghost s0 = *self;
        self.emit_u8(0xf3);
        let ghost s1 = *self;
        self.emit_rex64_modrm(dest, src);
        proof {
            lemma_wrote_join(s0, s1, *self, seq![0xf3u8], rex64_modrm(dest, src));
        }
        let ghost s2 = *self;
        self.emit_u8(0x0f);
        proof {
            lemma_wrote_join(s0, s2, *self, seq![0xf3u8] + rex64_modrm(dest, src), seq![0x0fu8]);
        }
        let ghost s3 = *self;
        self.emit_u8(0xbd);
        proof {
            lemma_wrote_join(s0, s3, *self, seq![0xf3u8] + rex64_modrm(dest, src) + seq![0x0fu8], seq![0xbdu8]);
        }
        let ghost s4 = *self;
        self.emit_modrm_registers(dest, src);
        proof {
            lemma_wrote_join(s0, s4, *self, seq![0xf3u8] + rex64_modrm(dest, src) + seq![0x0fu8] + seq![0xbdu8], modrm_registers(dest, src));
        }
    }

    pub fn popcntl_rr(&mut self, dest: Register, src: Register)
        requires
            old(self).wf(),
        ensures
            old(self).wrote(*final(self), seq![0xf3u8] + rex32_optional(dest, src) + seq![0x0fu8] + seq![0xb8u8] + modrm_registers(dest, src)),
    {
        let ghost s0 = *self;
        self.emit_u8(0xf3);
        let ghost s1 = *self;
        self.emit_rex32_optional(dest, src);
        proof {
            lemma_wrote_join(s0, s1, *self, seq![0xf3u8], rex32_optional(dest, src));
        }
        let ghost s2 = *self;
        self.emit_u8(0x0f);
        proof {
            lemma_wrote_join(s0, s2, *self, seq![0xf3u8] + rex32_optional(dest, src), seq![0x0fu8]);
        }
        let ghost s3 = *self;
        self.emit_u8(0xb8);
        proof {
            lemma_wrote_join(s0, s3, *self, seq![0xf3u8] + rex32_optional(dest, src) + seq![0x0fu8], seq![0xb8u8]);
        }
        let ghost s4 = *self;
        self.emit_modrm_registers(dest, src);
        proof {
            lemma_wrote_join(s0, s4, *self, seq![0xf3u8] + rex32_optional(dest, src) + seq![0x0fu8] + seq![0xb8u8], modrm_registers(dest, src));
        }
    }

    pub fn popcntq_rr(&mut self, dest: Register, src: Register)
        requires
            old(self).wf(),
        ensures
            old(self).wrote(*final(self), seq![0xf3u8] + rex64_modrm(dest, src) + seq![0x0fu8] + seq![0xb8u8] + modrm_registers(dest, src)),
    {
        let ghost s0 = *self;
        self.emit_u8(0xf3);
        let ghost s1 = *self;
        self.emit_rex64_modrm(dest, src);
        proof {
            lemma_wrote_join(s0, s1, *self, seq![0xf3u8], rex64_modrm(dest, src));
        }
        let ghost s2 = *self;
        self.emit_u8(0x0f);
        proof {
            lemma_wrote_join(s0, s2, *self, seq![0xf3u8] + rex64_modrm(dest, src), seq![0x0fu8]);
        }
        let ghost s3 = *self;
        self.emit_u8(0xb8);
        proof {
            lemma_wrote_join(s0, s3, *self, seq![0xf3u8] + rex64_modrm(dest, src) + seq![0x0fu8], seq![0xb8u8]);
        }
        let ghost s4 = *self;
        self.emit_modrm_registers(dest, src);
        proof {
            lemma_wrote_join(s0, s4, *self, seq![0xf3u8] + rex64_modrm(dest, src) + seq![0x0fu8] + seq![0xb8u8], modrm_registers(dest, src));
        }
    }

    pub fn cvtsd2ss_rr(&mut self, dest: XmmRegister, src: XmmRegister)
        requires
            old(self).wf(),
        ensures
            old(self).wrote(*final(self), seq![0xf2u8] + rex_sse_modrm_optional(dest, src) + seq![0x0fu8] + seq![0x5au8] + modrm_sse_registers(dest, src)),
    {
        let ghost s0 = *self;
        self.emit_u8(0xf2);
        let ghost s1 = *self;
        self.emit_rex_sse_modrm_optional(dest, src);
        proof {
            lemma_wrote_join(s0, s1, *self, seq![0xf2u8], rex_sse_modrm_optional(dest, src));
        }
        let ghost s2 = *self;
        self.emit_u8(0x0f);
        proof {
            lemma_wrote_join(s0, s2, *self, seq![0xf2u8] + rex_sse_modrm_optional(dest, src), seq![0x0fu8]);
        }
        let ghost s3 = *self;
        self.emit_u8(0x5a);
        proof {
            lemma_wrote_join(s0, s3, *self, seq![0xf2u8] + rex_sse_modrm_optional(dest, src) + seq![0x0fu8], seq![0x5au8]);
        }
        let ghost s4 = *self;
        self.emit_modrm_sse_registers(dest, src);
        proof {
            lemma_wrote_join(s0, s4, *self, seq![0xf2u8] + rex_sse_modrm_optional(dest, src) + seq![0x0fu8] + seq![0x5au8], modrm_sse_registers(dest, src));
        }
    }

    pub fn cvtss2sd_rr(&mut self, dest: XmmRegister, src: XmmRegister)
        requires
            old(self).wf(),
        ensures
            old(self).wrote(*final(self), seq![0xf3u8] + rex_sse_modrm_optional(dest, src) + seq![0x0fu8] + seq![0x5au8] + modrm_sse_registers(dest, src)),
    {
        let ghost s0 = *self;
        self.emit_u8(0xf3);
        let ghost s1 = *self;
        self.emit_rex_sse_modrm_optional(dest, src);
        proof {
            lemma_wrote_join(s0, s1, *self, seq![0xf3u8], rex_sse_modrm_optional(dest, src));
        }
        let ghost s2 = *self;
        self.emit_u8(0x0f);
        proof {
            lemma_wrote_join(s0, s2, *self, seq![0xf3u8] + rex_sse_modrm_optional(dest, src), seq![0x0fu8]);
        }
        let ghost s3 = *self;
        self.emit_u8(0x5a);
        proof {
            lemma_wrote_join(s0, s3, *self, seq![0xf3u8] + rex_sse_modrm_optional(dest, src) + seq![0x0fu8], seq![0x5au8]);
        }
        let ghost s4 = *self;
        self.emit_modrm_sse_registers(dest, src);
        proof {
            lemma_wrote_join(s0, s4, *self, seq![0xf3u8] + rex_sse_modrm_optional(dest, src) + seq![0x0fu8] + seq![0x5au8], modrm_sse_registers(dest, src));
        }
    }

    pub fn cvtsi2ssd_rr(&mut self, dest: XmmRegister, src: Register)
        requires
            old(self).wf(),
        ensures
            old(self).wrote(*final(self), seq![0xf3u8] + rex_optional(false, dest.needs_rex(), false, src.needs_rex()) + seq![0x0fu8] + seq![0x2au8] + modrm_bytes(0b11, dest.low_bits(), src.low_bits())),
    {
        let ghost s0 = *self;
        self.emit_u8(0xf3);
        let ghost s1 = *self;
        self.emit_rex_optional(false, dest.needs_rex(), false, src.needs_rex());
        proof {
            lemma_wrote_join(s0, s1, *self, seq![0xf3u8], rex_optional(false, dest.needs_rex(), false, src.needs_rex()));
        }
        let ghost s2 = *self;
        self.emit_u8(0x0f);
        proof {
            lemma_wrote_join(s0, s2, *self, seq![0xf3u8] + rex_optional(false, dest.needs_rex(), false, src.needs_rex()), seq![0x0fu8]);
        }
        let ghost s3 = *self;
        self.emit_u8(0x2a);
        proof {
            lemma_wrote_join(s0, s3, *self, seq![0xf3u8] + rex_optional(false, dest.needs_rex(), false, src.needs_rex()) + seq![0x0fu8], seq![0x2au8]);
        }
        let ghost s4 = *self;
        self.emit_modrm(0b11, dest.low_bits(), src.low_bits());
        proof {
            lemma_wrote_join(s0, s4, *self, seq![0xf3u8] + rex_optional(false, dest.needs_rex(), false, src.needs_rex()) + seq![0x0fu8] + seq![0x2au8], modrm_bytes(0b11, dest.low_bits(), src.low_bits()));
        }
    }

    pub fn cvtsi2ssq_rr(&mut self, dest: XmmRegister, src: Register)
        requires
            old(self).wf(),
        ensures
            old(self).wrote(*final(self), seq![0xf3u8] + rex_optional(true, dest.needs_rex(), false, src.needs_rex()) + seq![0x0fu8] + seq![0x2au8] + modrm_bytes(0b11, dest.low_bits(), src.low_bits())),
    {
        let ghost s0 = *self;
        self.emit_u8(0xf3);
        let ghost s1 = *self;
        self.emit_rex_optional(true, dest.needs_rex(), false, src.needs_rex());
        proof {
            lemma_wrote_join(s0, s1, *self, seq![0xf3u8], rex_optional(true, dest.needs_rex(), false, src.needs_rex()));
        }
        let ghost s2 = *self;
        self.emit_u8(0x0f);
        proof {
            lemma_wrote_join(s0, s2, *self, seq![0xf3u8] + rex_optional(true, dest.needs_rex(), false, src.needs_rex()), seq![0x0fu8]);
        }
        let ghost s3 = *self;
        self.emit_u8(0x2a);
        proof {
            lemma_wrote_join(s0, s3, *self, seq![0xf3u8] + rex_optional(true, dest.needs_rex(), false, src.needs_rex()) + seq![0x0fu8], seq![0x2au8]);
        }
        let ghost s4 = *self;
        self.emit_modrm(0b11, dest.low_bits(), src.low_bits());
        proof {
            lemma_wrote_join(s0, s4, *self, seq![0xf3u8] + rex_optional(true, dest.needs_rex(), false, src.needs_rex()) + seq![0x0fu8] + seq![0x2au8], modrm_bytes(0b11, dest.low_bits(), src.low_bits()));
        }
    }

    pub fn cvtsi2sdd_rr(&mut self, dest: XmmRegister, src: Register)
        requires
            old(self).wf(),
        ensures
            old(self).wrote(*final(self), seq![0xf2u8] + rex_optional(false, dest.needs_rex(), false, src.needs_rex()) + seq![0x0fu8] + seq![0x2au8] + modrm_bytes(0b11, dest.low_bits(), src.low_bits())),
    {
        let ghost s0 = *self;
        self.emit_u8(0xf2);
        let ghost s1 = *self;
        self.emit_rex_optional(false, dest.needs_rex(), false, src.needs_rex());
        proof {
            lemma_wrote_join(s0, s1, *self, seq![0xf2u8], rex_optional(false, dest.needs_rex(), false, src.needs_rex()));
        }
        let ghost s2 = *self;
        self.emit_u8(0x0f);
        proof {
            lemma_wrote_join(s0, s2, *self, seq![0xf2u8] + rex_optional(false, dest.needs_rex(), false, src.needs_rex()), seq![0x0fu8]);
        }
        let ghost s3 = *self;
        self.emit_u8(0x2a);
        proof {
            lemma_wrote_join(s0, s3, *self, seq![0xf2u8] + rex_optional(false, dest.needs_rex(), false, src.needs_rex()) + seq![0x0fu8], seq![0x2au8]);
        }
        let ghost s4 = *self;
        self.emit_modrm(0b11, dest.low_bits(), src.low_bits());
        proof {
            lemma_wrote_join(s0, s4, *self, seq![0xf2u8] + rex_optional(false, dest.needs_rex(), false, src.needs_rex()) + seq![0x0fu8] + seq![0x2au8], modrm_bytes(0b11, dest.low_bits(), src.low_bits()));
        }
    }

    pub fn cvtsi2sdq_rr(&mut self, dest: XmmRegister, src: Register)
        requires
            old(self).wf(),
        ensures
            old(self).wrote(*final(self), seq![0xf2u8] + rex_optional(true, dest.needs_rex(), false, src.needs_rex()) + seq![0x0fu8] + seq![0x2au8] + modrm_bytes(0b11, dest.low_bits(), src.low_bits())),
    {
        let ghost s0 = *self;
        self.emit_u8(0xf2);
        let ghost s1 = *self;
        self.emit_rex_optional(true, dest.needs_rex(), false, src.needs_rex());
        proof {
            lemma_wrote_join(s0, s1, *self, seq![0xf2u8], rex_optional(true, dest.needs_rex(), false, src.needs_rex()));
        }
        let ghost s2 = *self;
        self.emit_u8(0x0f);
        proof {
            lemma_wrote_join(s0, s2, *self, seq![0xf2u8] + rex_optional(true, dest.needs_rex(), false, src.needs_rex()), seq![0x0fu8]);
        }
        let ghost s3 = *self;
        self.emit_u8(0x2a);
        proof {
            lemma_wrote_join(s0, s3, *self, seq![0xf2u8] + rex_optional(true, dest.needs_rex(), false, src.needs_rex()) + seq![0x0fu8], seq![0x2au8]);
        }
        let ghost s4 = *self;
        self.emit_modrm(0b11, dest.low_bits(), src.low_bits());
        proof {
            lemma_wrote_join(s0, s4, *self, seq![0xf2u8] + rex_optional(true, dest.needs_rex(), false, src.needs_rex()) + seq![0x0fu8] + seq![0x2au8], modrm_bytes(0b11, dest.low_bits(), src.low_bits()));
        }
    }

    pub fn cvttss2sid_rr(&mut self, dest: Register, src: XmmRegister)
        requires
            old(self).wf(),
        ensures
            old(self).wrote(*final(self), seq![0xf3u8] + rex_optional(false, dest.needs_rex(), false, src.needs_rex()) + seq![0x0fu8] + seq![0x2cu8] + modrm_bytes(0b11, dest.low_bits(), src.low_bits())),
    {
        let ghost s0 = *self;
        self.emit_u8(0xf3);
        let ghost s1 = *self;
        self.emit_rex_optional(false, dest.needs_rex(), false, src.needs_rex());
        proof {
            lemma_wrote_join(s0, s1, *self, seq![0xf3u8], rex_optional(false, dest.needs_rex(), false, src.needs_rex()));
        }
        let ghost s2 = *self;
        self.emit_u8(0x0f);
        proof {
            lemma_wrote_join(s0, s2, *self, seq![0xf3u8] + rex_optional(false, dest.needs_rex(), false, src.needs_rex()), seq![0x0fu8]);
        }
        let ghost s3 = *self;
        self.emit_u8(0x2c);
        proof {
            lemma_wrote_join(s0, s3, *self, seq![0xf3u8] + rex_optional(false, dest.needs_rex(), false, src.needs_rex()) + seq![0x0fu8], seq![0x2cu8]);
        }
        let ghost s4 = *self;
        self.emit_modrm(0b11, dest.low_bits(), src.low_bits());
        proof {
            lemma_wrote_join(s0, s4, *self, seq![0xf3u8] + rex_optional(false, dest.needs_rex(), false, src.needs_rex()) + seq![0x0fu8] + seq![0x2cu8], modrm_bytes(0b11, dest.low_bits(), src.low_bits()));
        }
    }

    pub fn cvttss2siq_rr(&mut self, dest: Register, src: XmmRegister)
        requires
            old(self).wf(),
        ensures
            old(self).wrote(*final(self), seq![0xf3u8] + rex_optional(true, dest.needs_rex(), false, src.needs_rex()) + seq![0x0fu8] + seq![0x2cu8] + modrm_bytes(0b11, dest.low_bits(), src.low_bits())),
    {
        let ghost s0 = *self;
        self.emit_u8(0xf3);
        let ghost s1 = *self;
        self.emit_rex_optional(true, dest.needs_rex(), false, src.needs_rex());
        proof {
            lemma_wrote_join(s0, s1, *self, seq![0xf3u8], rex_optional(true, dest.needs_rex(), false, src.needs_rex()));
        }
        let ghost s2 = *self;
        self.emit_u8(0x0f);
        proof {
            lemma_wrote_join(s0, s2, *self, seq![0xf3u8] + rex_optional(true, dest.needs_rex(), false, src.needs_rex()), seq![0x0fu8]);
        }
        let ghost s3 = *self;
        self.emit_u8(0x2c);
        proof {
            lemma_wrote_join(s0, s3, *self, seq![0xf3u8] + rex_optional(true, dest.needs_rex(), false, src.needs_rex()) + seq![0x0fu8], seq![0x2cu8]);
        }
        let ghost s4 = *self;
        self.emit_modrm(0b11, dest.low_bits(), src.low_bits());
        proof {
            lemma_wrote_join(s0, s4, *self, seq![0xf3u8] + rex_optional(true, dest.needs_rex(), false, src.needs_rex()) + seq![0x0fu8] + seq![0x2cu8], modrm_bytes(0b11, dest.low_bits(), src.low_bits()));
        }
    }

    pub fn cvttsd2sid_rr(&mut self, dest: Register, src: XmmRegister)
        requires
            old(self).wf(),
        ensures
            old(self).wrote(*final(self), seq![0xf2u8] + rex_optional(false, dest.needs_rex(), false, src.needs_rex()) + seq![0x0fu8] + seq![0x2cu8] + modrm_bytes(0b11, dest.low_bits(), src.low_bits())),
    {
        let ghost s0 = *self;
        self.emit_u8(0xf2);
        let ghost s1 = *self;
        self.emit_rex_optional(false, dest.needs_rex(), false, src.needs_rex());
        proof {
            lemma_wrote_join(s0, s1, *self, seq![0xf2u8], rex_optional(false, dest.needs_rex(), false, src.needs_rex()));
        }
        let ghost s2 = *self;
        self.emit_u8(0x0f);
        proof {
            lemma_wrote_join(s0, s2, *self, seq![0xf2u8] + rex_optional(false, dest.needs_rex(), false, src.needs_rex()), seq![0x0fu8]);
        }
        let ghost s3 = *self;
        self.emit_u8(0x2c);
        proof {
            lemma_wrote_join(s0, s3, *self, seq![0xf2u8] + rex_optional(false, dest.needs_rex(), false, src.needs_rex()) + seq![0x0fu8], seq![0x2cu8]);
        }
        let ghost s4 = *self;
        self.emit_modrm(0b11, dest.low_bits(), src.low_bits());
        proof {
            lemma_wrote_join(s0, s4, *self, seq![0xf2u8] + rex_optional(false, dest.needs_rex(), false, src.needs_rex()) + seq![0x0fu8] + seq![0x2cu8], modrm_bytes(0b11, dest.low_bits(), src.low_bits()));
        }
    }

    pub fn cvttsd2siq_rr(&mut self, dest: Register, src: XmmRegister)
        requires
            old(self).wf(),
        ensures
            old(self).wrote(*final(self), seq![0xf2u8] + rex_optional(true, dest.needs_rex(), false, src.needs_rex()) + seq![0x0fu8] + seq![0x2cu8] + modrm_bytes(0b11, dest.low_bits(), src.low_bits())),
    {
        let ghost s0 = *self;
        self.emit_u8(0xf2);
        let ghost s1 = *self;
        self.emit_rex_optional(true, dest.needs_rex(), false, src.needs_rex());
        proof {
            lemma_wrote_join(s0, s1, *self, seq![0xf2u8], rex_optional(true, dest.needs_rex(), false, src.needs_rex()));
        }
        let ghost s2 = *self;
        self.emit_u8(0x0f);
        proof {
            lemma_wrote_join(s0, s2, *self, seq![0xf2u8] + rex_optional(true, dest.needs_rex(), false, src.needs_rex()), seq![0x0fu8]);
        }
        let ghost s3 = *self;
        self.emit_u8(0x2c);
        proof {
            lemma_wrote_join(s0, s3, *self, seq![0xf2u8] + rex_optional(true, dest.needs_rex(), false, src.needs_rex()) + seq![0x0fu8], seq![0x2cu8]);
        }
        let ghost s4 = *self;
        self.emit_modrm(0b11, dest.low_bits(), src.low_bits());
        proof {
            lemma_wrote_join(s0, s4, *self, seq![0xf2u8] + rex_optional(true, dest.needs_rex(), false, src.needs_rex()) + seq![0x0fu8] + seq![0x2cu8], modrm_bytes(0b11, dest.low_bits(), src.low_bits()));
        }
    }

    pub fn movd_rx(&mut self, dest: Register, src: XmmRegister)
        requires
            old(self).wf(),
        ensures
            old(self).wrote(*final(self), seq![0x66u8] + rex_optional(false, src.needs_rex(), false, dest.needs_rex()) + seq![0x0fu8] + seq![0x7eu8] + modrm_bytes(0b11, src.low_bits(), dest.low_bits())),
    {
        let ghost s0 = *self;
        self.emit_u8(0x66);
        let ghost s1 = *self;
        self.emit_rex_optional(false, src.needs_rex(), false, dest.needs_rex());
        proof {
            lemma_wrote_join(s0, s1, *self, seq![0x66u8], rex_optional(false, src.needs_rex(), false, dest.needs_rex()));
        }
        let ghost s2 = *self;
        self.emit_u8(0x0f);
        proof {
            lemma_wrote_join(s0, s2, *self, seq![0x66u8] + rex_optional(false, src.needs_rex(), false, dest.needs_rex()), seq![0x0fu8]);
        }
        let ghost s3 = *self;
        self.emit_u8(0x7e);
        proof {
            lemma_wrote_join(s0, s3, *self, seq![0x66u8] + rex_optional(false, src.needs_rex(), false, dest.needs_rex()) + seq![0x0fu8], seq![0x7eu8]);
        }
        let ghost s4 = *self;
        self.emit_modrm(0b11, src.low_bits(), dest.low_bits());
        proof {
            lemma_wrote_join(s0, s4, *self, seq![0x66u8] + rex_optional(false, src.needs_rex(), false, dest.needs_rex()) + seq![0x0fu8] + seq![0x7eu8], modrm_bytes(0b11, src.low_bits(), dest.low_bits()));
        }
    }

    pub fn movd_xr(&mut self, dest: XmmRegister, src: Register)
        requires
            old(self).wf(),
        ensures
            old(self).wrote(*final(self), seq![0x66u8] + rex_optional(false, dest.needs_rex(), false, src.needs_rex()) + seq![0x0fu8] + seq![0x6eu8] + modrm_bytes(0b11, dest.low_bits(), src.low_bits())),
    {
        let ghost s0 = *self;
        self.emit_u8(0x66);
        let ghost s1 = *self;
        self.emit_rex_optional(false, dest.needs_rex(), false, src.needs_rex());
        proof {
            lemma_wrote_join(s0, s1, *self, seq![0x66u8], rex_optional(false, dest.needs_rex(), false, src.needs_rex()));
        }
        let ghost s2 = *self;
        self.emit_u8(0x0f);
        proof {
            lemma_wrote_join(s0, s2, *self, seq![0x66u8] + rex_optional(false, dest.needs_rex(), false, src.needs_rex()), seq![0x0fu8]);
        }
        let ghost s3 = *self;
        self.emit_u8(0x6e);
        proof {
            lemma_wrote_join(s0, s3, *self, seq![0x66u8] + rex_optional(false, dest.needs_rex(), false, src.needs_rex()) + seq![0x0fu8], seq![0x6eu8]);
        }
        let ghost s4 = *self;
        self.emit_modrm(0b11, dest.low_bits(), src.low_bits());
        proof {
            lemma_wrote_join(s0, s4, *self, seq![0x66u8] + rex_optional(false, dest.needs_rex(), false, src.needs_rex()) + seq![0x0fu8] + seq![0x6eu8], modrm_bytes(0b11, dest.low_bits(), src.low_bits()));
        }
    }

    pub fn movq_rx(&mut self, dest: Register, src: XmmRegister)
        requires
            old(self).wf(),
        ensures
            old(self).wrote(*final(self), seq![0x66u8] + rex_optional(true, src.needs_rex(), false, dest.needs_rex()) + seq![0x0fu8] + seq![0x7eu8] + modrm_bytes(0b11, src.low_bits(), dest.low_bits())),
    {
        let ghost s0 = *self;
        self.emit_u8(0x66);
        let ghost s1 = *self;
        self.emit_rex_optional(true, src.needs_rex(), false, dest.needs_rex());
        proof {
            lemma_wrote_join(s0, s1, *self, seq![0x66u8], rex_optional(true, src.needs_rex(), false, dest.needs_rex()));
        }
        let ghost s2 = *self;
        self.emit_u8(0x0f);
        proof {
            lemma_wrote_join(s0, s2, *self, seq![0x66u8] + rex_optional(true, src.needs_rex(), false, dest.needs_rex()), seq![0x0fu8]);
        }
        let ghost s3 = *self;
        self.emit_u8(0x7e);
        proof {
            lemma_wrote_join(s0, s3, *self, seq![0x66u8] + rex_optional(true, src.needs_rex(), false, dest.needs_rex()) + seq![0x0fu8], seq![0x7eu8]);
        }
        let ghost s4 = *self;
        self.emit_modrm(0b11, src.low_bits(), dest.low_bits());
        proof {
            lemma_wrote_join(s0, s4, *self, seq![0x66u8] + rex_optional(true, src.needs_rex(), false, dest.needs_rex()) + seq![0x0fu8] + seq![0x7eu8], modrm_bytes(0b11, src.low_bits(), dest.low_bits()));
        }
    }

    pub fn movq_xr(&mut self, dest: XmmRegister, src: Register)
        requires
            old(self).wf(),
        ensures
            old(self).wrote(*final(self), seq![0x66u8] + rex_optional(true, dest.needs_rex(), false, src.needs_rex()) + seq![0x0fu8] + seq![0x6eu8] + modrm_bytes(0b11, dest.low_bits(), src.low_bits())),
    {
        let ghost s0 = *self;
        self.emit_u8(0x66);
        let ghost s1 = *self;
        self.emit_rex_optional(true, dest.needs_rex(), false, src.needs_rex());
        proof {
            lemma_wrote_join(s0, s1, *self, seq![0x66u8], rex_optional(true, dest.needs_rex(), false, src.needs_rex()));
        }
        let ghost s2 = *self;
        self.emit_u8(0x0f);
        proof {
            lemma_wrote_join(s0, s2, *self, seq![0x66u8] + rex_optional(true, dest.needs_rex(), false, src.needs_rex()), seq![0x0fu8]);
        }
        let ghost s3 = *self;
        self.emit_u8(0x6e);
        proof {
            lemma_wrote_join(s0, s3, *self, seq![0x66u8] + rex_optional(true, dest.needs_rex(), false, src.needs_rex()) + seq![0x0fu8], seq![0x6eu8]);
        }
        let ghost s4 = *self;
        self.emit_modrm(0b11, dest.low_bits(), src.low_bits());
        proof {
            lemma_wrote_join(s0, s4, *self, seq![0x66u8] + rex_optional(true, dest.needs_rex(), false, src.needs_rex()) + seq![0x0fu8] + seq![0x6eu8], modrm_bytes(0b11, dest.low_bits(), src.low_bits()));
        }
    }

    pub fn shrl_ri(&mut self, lhs: Register, rhs: Immediate)
        requires
            old(self).wf(),
            rhs.is_int8(),
        ensures
            old(self).wrote(*final(self), rex32_rm_optional(lhs) + seq![0xc1u8] + modrm_opcode(0b101, lhs) + seq![rhs.int8_bits()]),
    {
        let ghost s0 = *self;
        self.emit_rex32_rm_optional(lhs);
        let ghost s1 = *self;
        self.emit_u8(0xc1);
        proof {
            lemma_wrote_join(s0, s1, *self, rex32_rm_optional(lhs), seq![0xc1u8]);
        }
        let ghost s2 = *self;
        self.emit_modrm_opcode(0b101, lhs);
        proof {
            lemma_wrote_join(s0, s2, *self, rex32_rm_optional(lhs) + seq![0xc1u8], modrm_opcode(0b101, lhs));
        }
        let ghost s3 = *self;
        self.emit_u8(rhs.int8_bits());
        proof {
            lemma_wrote_join(s0, s3, *self, rex32_rm_optional(lhs) + seq![0xc1u8] + modrm_opcode(0b101, lhs), seq![rhs.int8_bits()]);
        }
    }

    pub fn shrl_r(&mut self, lhs: Register)
        requires
            old(self).wf(),
        ensures
            old(self).wrote(*final(self), rex32_rm_optional(lhs) + seq![0xd3u8] + modrm_opcode(0b101, lhs)),
    {
        let ghost s0 = *self;
        self.emit_rex32_rm_optional(lhs);
        let ghost s1 = *self;
        self.emit_u8(0xd3);
        proof {
            lemma_wrote_join(s0, s1, *self, rex32_rm_optional(lhs), seq![0xd3u8]);
        }
        let ghost s2 = *self;
        self.emit_modrm_opcode(0b101, lhs);
        proof {
            lemma_wrote_join(s0, s2, *self, rex32_rm_optional(lhs) + seq![0xd3u8], modrm_opcode(0b101, lhs));
        }
    }

    pub fn shll_r(&mut self, lhs: Register)
        requires
            old(self).wf(),
        ensures
            old(self).wrote(*final(self), rex32_rm_optional(lhs) + seq![0xd3u8] + modrm_opcode(0b100, lhs)),
    {
        let ghost s0 = *self;
        self.emit_rex32_rm_optional(lhs);
        let ghost s1 = *self;
        self.emit_u8(0xd3);
        proof {
            lemma_wrote_join(s0, s1, *self, rex32_rm_optional(lhs), seq![0xd3u8]);
        }
        let ghost s2 = *self;
        self.emit_modrm_opcode(0b100, lhs);
        proof {
            lemma_wrote_join(s0, s2, *self, rex32_rm_optional(lhs) + seq![0xd3u8], modrm_opcode(0b100, lhs));
        }
    }

    pub fn sarl_r(&mut self, lhs: Register)
        requires
            old(self).wf(),
        ensures
            old(self).wrote(*final(self), rex32_rm_optional(lhs) + seq![0xd3u8] + modrm_opcode(0b111, lhs)),
    {
        let ghost s0 = *self;
        self.emit_rex32_rm_optional(lhs);
        let ghost s1 = *self;
        self.emit_u8(0xd3);
        proof {
            lemma_wrote_join(s0, s1, *self, rex32_rm_optional(lhs), seq![0xd3u8]);
        }
        let ghost s2 = *self;
        self.emit_modrm_opcode(0b111, lhs);
        proof {
            lemma_wrote_join(s0, s2, *self, rex32_rm_optional(lhs) + seq![0xd3u8], modrm_opcode(0b111, lhs));
        }
    }

    pub fn shrq_ri(&mut self, lhs: Register, rhs: Immediate)
        requires
            old(self).wf(),
            rhs.is_int8(),
        ensures
            old(self).wrote(*final(self), rex64_rm(lhs) + seq![0xc1u8] + modrm_opcode(0b101, lhs) + seq![rhs.int8_bits()]),
    {
        let ghost s0 = *self;
        self.emit_rex64_rm(lhs);
        let ghost s1 = *self;
        self.emit_u8(0xc1);
        proof {
            lemma_wrote_join(s0, s1, *self, rex64_rm(lhs), seq![0xc1u8]);
        }
        let ghost s2 = *self;
        self.emit_modrm_opcode(0b101, lhs);
        proof {
            lemma_wrote_join(s0, s2, *self, rex64_rm(lhs) + seq![0xc1u8], modrm_opcode(0b101, lhs));
        }
        let ghost s3 = *self;
        self.emit_u8(rhs.int8_bits());
        proof {
            lemma_wrote_join(s0, s3, *self, rex64_rm(lhs) + seq![0xc1u8] + modrm_opcode(0b101, lhs), seq![rhs.int8_bits()]);
        }
    }

    pub fn shrq_r(&mut self, lhs: Register)
        requires
            old(self).wf(),
        ensures
            old(self).wrote(*final(self), rex64_rm(lhs) + seq![0xd3u8] + modrm_opcode(0b101, lhs)),
    {
        let ghost s0 = *self;
        self.emit_rex64_rm(lhs);
        let ghost s1 = *self;
        self.emit_u8(0xd3);
        proof {
            lemma_wrote_join(s0, s1, *self, rex64_rm(lhs), seq![0xd3u8]);
        }
        let ghost s2 = *self;
        self.emit_modrm_opcode(0b101, lhs);
        proof {
            lemma_wrote_join(s0, s2, *self, rex64_rm(lhs) + seq![0xd3u8], modrm_opcode(0b101, lhs));
        }
    }

    pub fn sarq_r(&mut self, lhs: Register)
        requires
            old(self).wf(),
        ensures
            old(self).wrote(*final(self), rex64_rm(lhs) + seq![0xd3u8] + modrm_opcode(0b111, lhs)),
    {
        let ghost s0 = *self;
        self.emit_rex64_rm(lhs);
        let ghost s1 = *self;
        self.emit_u8(0xd3);
        proof {
            lemma_wrote_join(s0, s1, *self, rex64_rm(lhs), seq![0xd3u8]);
        }
        let ghost s2 = *self;
        self.emit_modrm_opcode(0b111, lhs);
        proof {
            lemma_wrote_join(s0, s2, *self, rex64_rm(lhs) + seq![0xd3u8], modrm_opcode(0b111, lhs));
        }
    }

    pub fn sarl_ri(&mut self, lhs: Register, rhs: Immediate)
        requires
            old(self).wf(),
            rhs.is_int8(),
        ensures
            old(self).wrote(*final(self), rex32_rm_optional(lhs) + seq![0xc1u8] + modrm_opcode(0b111, lhs) + seq![rhs.int8_bits()]),
    {
        let ghost s0 = *self;
        self.emit_rex32_rm_optional(lhs);
        let ghost s1 = *self;
        self.emit_u8(0xc1);
        proof {
            lemma_wrote_join(s0, s1, *self, rex32_rm_optional(lhs), seq![0xc1u8]);
        }
        let ghost s2 = *self;
        self.emit_modrm_opcode(0b111, lhs);
        proof {
            lemma_wrote_join(s0, s2, *self, rex32_rm_optional(lhs) + seq![0xc1u8], modrm_opcode(0b111, lhs));
        }
        let ghost s3 = *self;
        self.emit_u8(rhs.int8_bits());
        proof {
            lemma_wrote_join(s0, s3, *self, rex32_rm_optional(lhs) + seq![0xc1u8] + modrm_opcode(0b111, lhs), seq![rhs.int8_bits()]);
        }
    }

    pub fn sarq_ri(&mut self, lhs: Register, rhs: Immediate)
        requires
            old(self).wf(),
            rhs.is_int8(),
        ensures
            old(self).wrote(*final(self), rex64_rm(lhs) + seq![0xc1u8] + modrm_opcode(0b111, lhs) + seq![rhs.int8_bits()]),
    {
        let ghost s0 = *self;
        self.emit_rex64_rm(lhs);
        let ghost s1 = *self;
        self.emit_u8(0xc1);
        proof {
            lemma_wrote_join(s0, s1, *self, rex64_rm(lhs), seq![0xc1u8]);
        }
        let ghost s2 = *self;
        self.emit_modrm_opcode(0b111, lhs);
        proof {
            lemma_wrote_join(s0, s2, *self, rex64_rm(lhs) + seq![0xc1u8], modrm_opcode(0b111, lhs));
        }
        let ghost s3 = *self;
        self.emit_u8(rhs.int8_bits());
        proof {
            lemma_wrote_join(s0, s3, *self, rex64_rm(lhs) + seq![0xc1u8] + modrm_opcode(0b111, lhs), seq![rhs.int8_bits()]);
        }
    }

    pub fn shll_ri(&mut self, lhs: Register, rhs: Immediate)
        requires
            old(self).wf(),
            rhs.is_int8(),
        ensures
            old(self).wrote(*final(self), rex32_rm_optional(lhs) + seq![0xc1u8] + modrm_opcode(0b100, lhs) + seq![rhs.int8_bits()]),
    {
        let ghost s0 = *self;
        self.emit_rex32_rm_optional(lhs);
        let ghost s1 = *self;
        self.emit_u8(0xc1);
        proof {
            lemma_wrote_join(s0, s1, *self, rex32_rm_optional(lhs), seq![0xc1u8]);
        }
        let ghost s2 = *self;
        self.emit_modrm_opcode(0b100, lhs);
        proof {
            lemma_wrote_join(s0, s2, *self, rex32_rm_optional(lhs) + seq![0xc1u8], modrm_opcode(0b100, lhs));
        }
        let ghost s3 = *self;
        self.emit_u8(rhs.int8_bits());
        proof {
            lemma_wrote_join(s0, s3, *self, rex32_rm_optional(lhs) + seq![0xc1u8] + modrm_opcode(0b100, lhs), seq![rhs.int8_bits()]);
        }
    }

    pub fn shlq_r(&mut self, lhs: Register)
        requires
            old(self).wf(),
        ensures
            old(self).wrote(*final(self), rex64_rm(lhs) + seq![0xd3u8] + modrm_opcode(0b100, lhs)),
    {
        let ghost s0 = *self;
        self.emit_rex64_rm(lhs);
        let ghost s1 = *self;
        self.emit_u8(0xd3);
        proof {
            lemma_wrote_join(s0, s1, *self, rex64_rm(lhs), seq![0xd3u8]);
        }
        let ghost s2 = *self;
        self.emit_modrm_opcode(0b100, lhs);
        proof {
            lemma_wrote_join(s0, s2, *self, rex64_rm(lhs) + seq![0xd3u8], modrm_opcode(0b100, lhs));
        }
    }

    pub fn shlq_ri(&mut self, lhs: Register, rhs: Immediate)
        requires
            old(self).wf(),
            rhs.is_int8(),
        ensures
            old(self).wrote(*final(self), rex64_rm(lhs) + seq![0xc1u8] + modrm_opcode(0b100, lhs) + seq![rhs.int8_bits()]),
    {
        let ghost s0 = *self;
        self.emit_rex64_rm(lhs);
        let ghost s1 = *self;
        self.emit_u8(0xc1);
        proof {
            lemma_wrote_join(s0, s1, *self, rex64_rm(lhs), seq![0xc1u8]);
        }
        let ghost s2 = *self;
        self.emit_modrm_opcode(0b100, lhs);
        proof {
            lemma_wrote_join(s0, s2, *self, rex64_rm(lhs) + seq![0xc1u8], modrm_opcode(0b100, lhs));
        }
        let ghost s3 = *self;
        self.emit_u8(rhs.int8_bits());
        proof {
            lemma_wrote_join(s0, s3, *self, rex64_rm(lhs) + seq![0xc1u8] + modrm_opcode(0b100, lhs), seq![rhs.int8_bits()]);
        }
    }

    pub fn roll_r(&mut self, opnd: Register)
        requires
            old(self).wf(),
        ensures
            old(self).wrote(*final(self), rex32_rm_optional(opnd) + seq![0xd3u8] + modrm_opcode(0b000, opnd)),
    {
        let ghost s0 = *self;
        self.emit_rex32_rm_optional(opnd);
        let ghost s1 = *self;
        self.emit_u8(0xd3);
        proof {
            lemma_wrote_join(s0, s1, *self, rex32_rm_optional(opnd), seq![0xd3u8]);
        }
        let ghost s2 = *self;
        self.emit_modrm_opcode(0b000, opnd);
        proof {
            lemma_wrote_join(s0, s2, *self, rex32_rm_optional(opnd) + seq![0xd3u8], modrm_opcode(0b000, opnd));
        }
    }

    pub fn rolq_r(&mut self, opnd: Register)
        requires
            old(self).wf(),
        ensures
            old(self).wrote(*final(self), rex64_rm(opnd) + seq![0xd3u8] + modrm_opcode(0b000, opnd)),
    {
        let ghost s0 = *self;
        self.emit_rex64_rm(opnd);
        let ghost s1 = *self;
        self.emit_u8(0xd3);
        proof {
            lemma_wrote_join(s0, s1, *self, rex64_rm(opnd), seq![0xd3u8]);
        }
        let ghost s2 = *self;
        self.emit_modrm_opcode(0b000, opnd);
        proof {
            lemma_wrote_join(s0, s2, *self, rex64_rm(opnd) + seq![0xd3u8], modrm_opcode(0b000, opnd));
        }
    }

    pub fn rorl_r(&mut self, opnd: Register)
        requires
            old(self).wf(),
        ensures
            old(self).wrote(*final(self), rex32_rm_optional(opnd) + seq![0xd3u8] + modrm_opcode(0b001, opnd)),
    {
        let ghost s0 = *self;
        self.emit_rex32_rm_optional(opnd);
        let ghost s1 = *self;
        self.emit_u8(0xd3);
        proof {
            lemma_wrote_join(s0, s1, *self, rex32_rm_optional(opnd), seq![0xd3u8]);
        }
        let ghost s2 = *self;
        self.emit_modrm_opcode(0b001, opnd);
        proof {
            lemma_wrote_join(s0, s2, *self, rex32_rm_optional(opnd) + seq![0xd3u8], modrm_opcode(0b001, opnd));
        }
    }

    pub fn rorq_r(&mut self, opnd: Register)
        requires
            old(self).wf(),
        ensures
            old(self).wrote(*final(self), rex64_rm(opnd) + seq![0xd3u8] + modrm_opcode(0b001, opnd)),
    {
        let ghost s0 = *self;
        self.emit_rex64_rm(opnd);
        let ghost s1 = *self;
        self.emit_u8(0xd3);
        proof {
            lemma_wrote_join(s0, s1, *self, rex64_rm(opnd), seq![0xd3u8]);
        }
        let ghost s2 = *self;
        self.emit_modrm_opcode(0b001, opnd);
        proof {
            lemma_wrote_join(s0, s2, *self, rex64_rm(opnd) + seq![0xd3u8], modrm_opcode(0b001, opnd));
        }
    }

    pub fn xaddq_ar(&mut self, dest: Address, src: Register)
        requires
            old(self).wf(),
            dest.wf(),
        ensures
            old(self).wrote(*final(self), rex64_modrm_address(src, dest) + seq![0x0fu8] + seq![0xc1u8] + address_bytes(src.low_bits(), dest)),
    {
        let ghost s0 = *self;
        self.emit_rex64_modrm_address(src, dest);
        let ghost s1 = *self;
        self.emit_u8(0x0f);
        proof {
            lemma_wrote_join(s0, s1, *self, rex64_modrm_address(src, dest), seq![0x0fu8]);
        }
        let ghost s2 = *self;
        self.emit_u8(0xc1);
        proof {
            lemma_wrote_join(s0, s2, *self, rex64_modrm_address(src, dest) + seq![0x0fu8], seq![0xc1u8]);
        }
        let ghost s3 = *self;
        self.emit_address(src.low_bits(), dest);
        proof {
            lemma_wrote_join(s0, s3, *self, rex64_modrm_address(src, dest) + seq![0x0fu8] + seq![0xc1u8], address_bytes(src.low_bits(), dest));
        }
    }

    pub fn xaddl_ar(&mut self, dest: Address, src: Register)
        requires
            old(self).wf(),
            dest.wf(),
        ensures
            old(self).wrote(*final(self), rex32_modrm_address(src, dest) + seq![0x0fu8] + seq![0xc1u8] + address_bytes(src.low_bits(), dest)),
    {
        let ghost s0 = *self;
        self.emit_rex32_modrm_address(src, dest);
        let ghost s1 = *self;
        self.emit_u8(0x0f);
        proof {
            lemma_wrote_join(s0, s1, *self, rex32_modrm_address(src, dest), seq![0x0fu8]);
        }
        let ghost s2 = *self;
        self.emit_u8(0xc1);
        proof {
            lemma_wrote_join(s0, s2, *self, rex32_modrm_address(src, dest) + seq![0x0fu8], seq![0xc1u8]);
        }
        let ghost s3 = *self;
        self.emit_address(src.low_bits(), dest);
        proof {
            lemma_wrote_join(s0, s3, *self, rex32_modrm_address(src, dest) + seq![0x0fu8] + seq![0xc1u8], address_bytes(src.low_bits(), dest));
        }
    }

    pub fn lock_xaddq_ar(&mut self, dest: Address, src: Register)
        requires
            old(self).wf(),
            dest.wf(),
        ensures
            old(self).wrote(*final(self), lock_prefix() + rex64_modrm_address(src, dest) + seq![0x0fu8] + seq![0xc1u8] + address_bytes(src.low_bits(), dest)),
    {
        let ghost s0 = *self;
        self.emit_lock_prefix();
        let ghost s1 = *self;
        self.emit_rex64_modrm_address(src, dest);
        proof {
            lemma_wrote_join(s0, s1, *self, lock_prefix(), rex64_modrm_address(src, dest));
        }
        let ghost s2 = *self;
        self.emit_u8(0x0f);
        proof {
            lemma_wrote_join(s0, s2, *self, lock_prefix() + rex64_modrm_address(src, dest), seq![0x0fu8]);
        }
        let ghost s3 = *self;
        self.emit_u8(0xc1);
        proof {
            lemma_wrote_join(s0, s3, *self, lock_prefix() + rex64_modrm_address(src, dest) + seq![0x0fu8], seq![0xc1u8]);
        }
        let ghost s4 = *self;
        self.emit_address(src.low_bits(), dest);
        proof {
            lemma_wrote_join(s0, s4, *self, lock_prefix() + rex64_modrm_address(src, dest) + seq![0x0fu8] + seq![0xc1u8], address_bytes(src.low_bits(), dest));
        }
    }

    pub fn lock_xaddl_ar(&mut self, dest: Address, src: Register)
        requires
            old(self).wf(),
            dest.wf(),
        ensures
            old(self).wrote(*final(self), lock_prefix() + rex32_modrm_address(src, dest) + seq![0x0fu8] + seq![0xc1u8] + address_bytes(src.low_bits(), dest)),
    {
        let ghost s0 = *self;
        self.emit_lock_prefix();
        let ghost s1 = *self;
        self.emit_rex32_modrm_address(src, dest);
        proof {
            lemma_wrote_join(s0, s1, *self, lock_prefix(), rex32_modrm_address(src, dest));
        }
        let ghost s2 = *self;
        self.emit_u8(0x0f);
        proof {
            lemma_wrote_join(s0, s2, *self, lock_prefix() + rex32_modrm_address(src, dest), seq![0x0fu8]);
        }
        let ghost s3 = *self;
        self.emit_u8(0xc1);
        proof {
            lemma_wrote_join(s0, s3, *self, lock_prefix() + rex32_modrm_address(src, dest) + seq![0x0fu8], seq![0xc1u8]);
        }
        let ghost s4 = *self;
        self.emit_address(src.low_bits(), dest);
        proof {
            lemma_wrote_join(s0, s4, *self, lock_prefix() + rex32_modrm_address(src, dest) + seq![0x0fu8] + seq![0xc1u8], address_bytes(src.low_bits(), dest));
        }
    }

    pub fn setcc_r(&mut self, condition: Condition, dest: Register)
        requires
            old(self).wf(),
        ensures
            old(self).wrote(
                *final(self),
                setcc_rex(dest) + seq![0x0Fu8] + seq![byte(0x90 + condition.number())] + modrm_opcode(
                    0,
                    dest,
                ),
            ),
    {
        let ghost s0 = *self;
        if dest.needs_rex() || dest.low_bits() > 3 {
            self.emit_rex(false, false, false, dest.needs_rex());
        } else {
            self.emit_nothing();
        }
        let ghost s1 = *self;
        self.emit_u8(0x0F);
        proof {
            lemma_wrote_join(s0, s1, *self, setcc_rex(dest), seq![0x0Fu8]);
        }
        let ghost s2 = *self;
        self.emit_u8(0x90 + condition.number());
        proof {
            lemma_wrote_join(
                s0,
                s2,
                *self,
                setcc_rex(dest) + seq![0x0Fu8],
                seq![byte(0x90 + condition.number())],
            );
        }
        let ghost s3 = *self;
        self.emit_modrm_opcode(0, dest);
        proof {
            lemma_wrote_join(
                s0,
                s3,
                *self,
                setcc_rex(dest) + seq![0x0Fu8] + seq![byte(0x90 + condition.number())],
                modrm_opcode(0, dest),
            );
        }
    }

    pub fn movq_ri(&mut self, dest: Register, imm: Immediate)
        requires
            old(self).wf(),
        ensures
            old(self).wrote(*final(self), movq_ri_bytes(dest, imm)),
    {
        let ghost s0 = *self;
        if imm.is_int32() {
            self.emit_rex64_rm(dest);
            let ghost s1 = *self;
            self.emit_u8(0xC7);
            proof {
                lemma_wrote_join(s0, s1, *self, rex64_rm(dest), seq![0xC7u8]);
            }
            let ghost s2 = *self;
            self.emit_modrm_opcode(0, dest);
            proof {
                lemma_wrote_join(s0, s2, *self, rex64_rm(dest) + seq![0xC7u8], modrm_opcode(0, dest));
            }
            let ghost s3 = *self;
            self.emit_u32(imm.int32_bits());
            proof {
                lemma_wrote_join(
                    s0,
                    s3,
                    *self,
                    rex64_rm(dest) + seq![0xC7u8] + modrm_opcode(0, dest),
                    le32(imm.int32_bits()),
                );
            }
        } else {
            self.emit_rex64_rm(dest);
            let ghost s1 = *self;
            self.emit_u8(0xB8 + dest.low_bits());
            proof {
                lemma_wrote_join(s0, s1, *self, rex64_rm(dest), seq![byte(0xB8 + dest.low_bits())]);
            }
            let ghost s2 = *self;
            self.emit_u64(imm.int64_bits());
            proof {
                lemma_wrote_join(
                    s0,
                    s2,
                    *self,
                    rex64_rm(dest) + seq![byte(0xB8 + dest.low_bits())],
                    le64(imm.int64_bits()),
                );
            }
        }
    }

    pub fn cmpl_ai(&mut self, lhs: Address, rhs: Immediate)
        requires
            old(self).wf(),
            lhs.wf(),
            rhs.is_int32() || rhs.is_uint32(),
        ensures
            old(self).wrote(
                *final(self),
                rex32_address_optional(lhs) + compare_imm(lhs, rhs.is_int8(), rhs.int8_bits(), rhs.uint32()),
            ),
    {
        let ghost s0 = *self;
        self.emit_rex32_address_optional(lhs);
        let ghost s1 = *self;
        self.emit_compare_imm(lhs, rhs.is_int8(), rhs.int8_bits(), rhs.uint32());
        proof {
            lemma_wrote_join(
                s0,
                s1,
                *self,
                rex32_address_optional(lhs),
                compare_imm(lhs, rhs.is_int8(), rhs.int8_bits(), rhs.uint32()),
            );
        }
    }

    pub fn cmpq_ai(&mut self, lhs: Address, rhs: Immediate)
        requires
            old(self).wf(),
            lhs.wf(),
            rhs.is_int32(),
        ensures
            old(self).wrote(
                *final(self),
                rex64_address(lhs) + compare_imm(lhs, rhs.is_int8(), rhs.int8_bits(), rhs.int32_bits()),
            ),
    {
        let ghost s0 = *self;
        self.emit_rex64_address(lhs);
        let ghost s1 = *self;
        self.emit_compare_imm(lhs, rhs.is_int8(), rhs.int8_bits(), rhs.int32_bits());
        proof {
            lemma_wrote_join(
                s0,
                s1,
                *self,
                rex64_address(lhs),
                compare_imm(lhs, rhs.is_int8(), rhs.int8_bits(), rhs.int32_bits()),
            );
        }
    }

    fn emit_compare_imm(&mut self, lhs: Address, short: bool, narrow: u8, wide: u32)
        requires
            old(self).wf(),
            lhs.wf(),
        ensures
            old(self).wrote(*final(self), compare_imm(lhs, short, narrow, wide)),
    {
        let ghost s0 = *self;
        if short {
            self.emit_u8(0x83);
            let ghost s1 = *self;
            self.emit_address(0b111, lhs);
            proof {
                lemma_wrote_join(s0, s1, *self, seq![0x83u8], address_bytes(0b111, lhs));
            }
            let ghost s2 = *self;
            self.emit_u8(narrow);
            proof {
                lemma_wrote_join(
                    s0,
                    s2,
                    *self,
                    seq![0x83u8] + address_bytes(0b111, lhs),
                    seq![narrow],
                );
            }
        } else {
            self.emit_u8(0x81);
            let ghost s1 = *self;
            self.emit_address(0b111, lhs);
            proof {
                lemma_wrote_join(s0, s1, *self, seq![0x81u8], address_bytes(0b111, lhs));
            }
            let ghost s2 = *self;
            self.emit_u32(wide);
            proof {
                lemma_wrote_join(
                    s0,
                    s2,
                    *self,
                    seq![0x81u8] + address_bytes(0b111, lhs),
                    le32(wide),
                );
            }
        }
    }

    pub fn testl_ri(&mut self, lhs: Register, rhs: Immediate)
        requires
            old(self).wf(),
            rhs.is_int32(),
        ensures
            old(self).wrote(*final(self), testl_ri_bytes(lhs, rhs)),
    {
        let ghost s0 = *self;
        if rhs.is_uint8() {
            if lhs == RAX() {
                self.emit_u8(0xa8);
            } else if lhs.value() < 4 {
                self.emit_u8(0xf6);
                let ghost s1 = *self;
                self.emit_modrm_opcode(0b000, lhs);
                proof {
                    lemma_wrote_join(s0, s1, *self, seq![0xf6u8], modrm_opcode(0b000, lhs));
                }
            } else {
                self.emit_rex(false, false, false, lhs.needs_rex());
                let ghost s1 = *self;
                self.emit_u8(0xf6);
                proof {
                    lemma_wrote_join(
                        s0,
                        s1,
                        *self,
                        rex_prefix(false, false, false, lhs.needs_rex()),
                        seq![0xf6u8],
                    );
                }
                let ghost s2 = *self;
                self.emit_modrm_opcode(0b000, lhs);
                proof {
                    lemma_wrote_join(
                        s0,
                        s2,
                        *self,
                        rex_prefix(false, false, false, lhs.needs_rex()) + seq![0xf6u8],
                        modrm_opcode(0b000, lhs),
                    );
                }
            }
            let ghost s3 = *self;
            self.emit_u8(rhs.uint8());
            proof {
                lemma_wrote_join(s0, s3, *self, testl_short(lhs), seq![rhs.uint8()]);
            }
        } else if lhs == RAX() {
            self.emit_u8(0xa9);
            let ghost s1 = *self;
            self.emit_u32(rhs.int32_bits());
            proof {
                lemma_wrote_join(s0, s1, *self, seq![0xa9u8], le32(rhs.int32_bits()));
            }
        } else {
            self.emit_u8(0xf7);
            let ghost s1 = *self;
            self.emit_modrm_opcode(0b000, lhs);
            proof {
                lemma_wrote_join(s0, s1, *self, seq![0xf7u8], modrm_opcode(0b000, lhs));
            }
            let ghost s2 = *self;
            self.emit_u32(rhs.int32_bits());
            proof {
                lemma_wrote_join(
                    s0,
                    s2,
                    *self,
                    seq![0xf7u8] + modrm_opcode(0b000, lhs),
                    le32(rhs.int32_bits()),
                );
            }
        }
    }

    /// Jumps to `target` where `condition` holds. A jump back is written
    /// short where the distance fits one byte; a jump to a label that is
    /// not bound yet leaves four bytes for the distance, which
    /// `resolve_jumps` fills in.
    pub fn jcc(&mut self, condition: Condition, target: Label)
        requires
            old(self).wf(),
            old(self).buffer.position <= 0x7fff_fff0,
            target.index() < old(self).buffer.labels@.len(),
            match old(self).buffer.labels@[target.index()] {
                Some(t) => t <= old(self).buffer.position,
                None => true,
            },
        ensures
            match old(self).buffer.labels@[target.index()] {
                Some(t) => old(self).wrote(
                    *final(self),
                    jump_back(
                        seq![byte(0x70 + condition.number())],
                        seq![0x0Fu8, byte(0x80 + condition.number())],
                        old(self).buffer.position as int,
                        t as int,
                    ),
                ),
                None => old(self).jumped(
                    *final(self),
                    seq![0x0Fu8, byte(0x80 + condition.number())],
                    le32(0),
                    target,
                    JumpDistance::Far,
                ),
            },
    {
        let ghost s0 = *self;
        match self.offset(target) {
            Some(target_offset) => {
                // backwards jump
                // rip = end of current instruction = pc + 2
                let position = self.position();
                let distance: i64 = -((position + 2 - target_offset as usize) as i64);
                if distance >= -128 {
                    self.emit_u8(0x70 + condition.number());
                    let ghost s1 = *self;
                    self.emit_u8(low_byte_of(distance));
                    proof {
                        lemma_wrote_join(
                            s0,
                            s1,
                            *self,
                            seq![byte(0x70 + condition.number())],
                            seq![low_byte(distance)],
                        );
                    }
                } else {
                    let distance: i64 = -((position + 6 - target_offset as usize) as i64);
                    self.emit_u8(0x0F);
                    let ghost s1 = *self;
                    self.emit_u8(0x80 + condition.number());
                    proof {
                        lemma_wrote_join(
                            s0,
                            s1,
                            *self,
                            seq![0x0Fu8],
                            seq![byte(0x80 + condition.number())],
                        );
                        assert(seq![0x0Fu8] + seq![byte(0x80 + condition.number())] =~= seq![
                            0x0Fu8,
                            byte(0x80 + condition.number()),
                        ]);
                    }
                    let ghost s2 = *self;
                    self.emit_u32(low_word_of(distance));
                    proof {
                        lemma_wrote_join(
                            s0,
                            s2,
                            *self,
                            seq![0x0Fu8, byte(0x80 + condition.number())],
                            le32(low_word(distance)),
                        );
                    }
                }
            },
            None => {
                // forward jump - conservatively assume far jump
                self.emit_u8(0x0F);
                let ghost s1 = *self;
                self.emit_u8(0x80 + condition.number());
                proof {
                    lemma_wrote_join(
                        s0,
                        s1,
                        *self,
                        seq![0x0Fu8],
                        seq![byte(0x80 + condition.number())],
                    );
                    assert(seq![0x0Fu8] + seq![byte(0x80 + condition.number())] =~= seq![
                        0x0Fu8,
                        byte(0x80 + condition.number()),
                    ]);
                }
                let ghost opcode = seq![0x0Fu8, byte(0x80 + condition.number())];
                self.forward(target, JumpDistance::Far, Ghost(s0), Ghost(opcode));
            },
        }
    }

    /// Notes a jump to `target`, whose distance goes at the place of
    /// writing, and leaves room for the distance.
    fn forward(
        &mut self,
        target: Label,
        distance: JumpDistance,
        Ghost(start): Ghost<AssemblerX64>,
        Ghost(opcode): Ghost<Seq<u8>>,
    )
        requires
            start.wf(),
            start.wrote(*old(self), opcode),
            old(self).buffer.position <= 0x7fff_fff8,
        ensures
            start.jumped(
                *final(self),
                opcode,
                match distance {
                    JumpDistance::Near => seq![0u8],
                    JumpDistance::Far => le32(0),
                },
                target,
                distance,
            ),
    {
        let ghost jumps = self.unresolved_jumps@;
        self.unresolved_jumps.push(
            ForwardJump { offset: self.buffer.position() as u32, label: target, distance },
        );
        let ghost code = self.buffer.code@;
        match distance {
            JumpDistance::Near => {
                self.buffer.emit_u8(0);
            },
            JumpDistance::Far => {
                self.buffer.emit_u32(0);
            },
        }
        proof {
            lemma_write_join(
                start.buffer.code@,
                start.buffer.position as int,
                opcode,
                match distance {
                    JumpDistance::Near => seq![0u8],
                    JumpDistance::Far => le32(0),
                },
            );
        }
    }

    /// Jumps to `target`, which lies at most 128 bytes back or is not bound
    /// yet, where `condition` holds. The distance takes one byte.
    pub fn jcc_near(&mut self, condition: Condition, target: Label)
        requires
            old(self).wf(),
            old(self).buffer.position <= 0x7fff_fff0,
            target.index() < old(self).buffer.labels@.len(),
            match old(self).buffer.labels@[target.index()] {
                Some(t) => t <= old(self).buffer.position && old(self).buffer.position + 2 - t
                    <= 128,
                None => true,
            },
        ensures
            match old(self).buffer.labels@[target.index()] {
                Some(t) => old(self).wrote(
                    *final(self),
                    seq![byte(0x70 + condition.number())] + seq![
                        low_byte(back(old(self).buffer.position as int, t as int, 2)),
                    ],
                ),
                None => old(self).jumped(
                    *final(self),
                    seq![byte(0x70 + condition.number())],
                    seq![0u8],
                    target,
                    JumpDistance::Near,
                ),
            },
    {
        let ghost s0 = *self;
        match self.offset(target) {
            Some(target_offset) => {
                // backwards jump
                // rip = end of current instruction = pc + 2
                let position = self.position();
                let distance: i64 = -((position + 2 - target_offset as usize) as i64);
                self.emit_u8(0x70 + condition.number());
                let ghost s1 = *self;
                self.emit_u8(low_byte_of(distance));
                proof {
                    lemma_wrote_join(
                        s0,
                        s1,
                        *self,
                        seq![byte(0x70 + condition.number())],
                        seq![low_byte(distance)],
                    );
                }
            },
            None => {
                // forward jump
                self.emit_u8(0x70 + condition.number());
                let ghost opcode = seq![byte(0x70 + condition.number())];
                self.forward(target, JumpDistance::Near, Ghost(s0), Ghost(opcode));
            },
        }
    }

    /// Jumps to `target`. A jump back is written short where the distance
    /// fits one byte; a jump to a label that is not bound yet leaves four
    /// bytes for the distance.
    pub fn jmp(&mut self, target: Label)
        requires
            old(self).wf(),
            old(self).buffer.position <= 0x7fff_fff0,
            target.index() < old(self).buffer.labels@.len(),
            match old(self).buffer.labels@[target.index()] {
                Some(t) => t <= old(self).buffer.position,
                None => true,
            },
        ensures
            match old(self).buffer.labels@[target.index()] {
                Some(t) => old(self).wrote(
                    *final(self),
                    jump_back(
                        seq![0xEBu8],
                        seq![0xE9u8],
                        old(self).buffer.position as int,
                        t as int,
                    ),
                ),
                None => old(self).jumped(
                    *final(self),
                    seq![0xE9u8],
                    le32(0),
                    target,
                    JumpDistance::Far,
                ),
            },
    {
        let ghost s0 = *self;
        match self.offset(target) {
            Some(target_offset) => {
                // backwards jump
                // rip = end of current instruction = pc + 2
                let position = self.position();
                let distance: i64 = -((position + 2 - target_offset as usize) as i64);
                if distance >= -128 {
                    self.emit_u8(0xEB);
                    let ghost s1 = *self;
                    self.emit_u8(low_byte_of(distance));
                    proof {
                        lemma_wrote_join(s0, s1, *self, seq![0xEBu8], seq![low_byte(distance)]);
                    }
                } else {
                    let distance: i64 = -((position + 5 - target_offset as usize) as i64);
                    self.emit_u8(0xE9);
                    let ghost s1 = *self;
                    self.emit_u32(low_word_of(distance));
                    proof {
                        lemma_wrote_join(s0, s1, *self, seq![0xE9u8], le32(low_word(distance)));
                    }
                }
            },
            None => {
                // forward jump - conservatively assume far jump
                self.emit_u8(0xE9);
                let ghost opcode = seq![0xE9u8];
                self.forward(target, JumpDistance::Far, Ghost(s0), Ghost(opcode));
            },
        }
    }

    /// Jumps to `target`, which lies at most 128 bytes back or is not bound
    /// yet. The distance takes one byte.
    pub fn jmp_near(&mut self, target: Label)
        requires
            old(self).wf(),
            old(self).buffer.position <= 0x7fff_fff0,
            target.index() < old(self).buffer.labels@.len(),
            match old(self).buffer.labels@[target.index()] {
                Some(t) => t <= old(self).buffer.position && old(self).buffer.position + 2 - t
                    <= 128,
                None => true,
            },
        ensures
            match old(self).buffer.labels@[target.index()] {
                Some(t) => old(self).wrote(
                    *final(self),
                    seq![0xEBu8] + seq![low_byte(back(old(self).buffer.position as int, t as int, 2))],
                ),
                None => old(self).jumped(
                    *final(self),
                    seq![0xEBu8],
                    seq![0u8],
                    target,
                    JumpDistance::Near,
                ),
            },
    {
        let ghost s0 = *self;
        match self.offset(target) {
            Some(target_offset) => {
                // backwards jump
                // rip = end of current instruction = pc + 2
                let position = self.position();
                let distance: i64 = -((position + 2 - target_offset as usize) as i64);
                self.emit_u8(0xEB);
                let ghost s1 = *self;
                self.emit_u8(low_byte_of(distance));
                proof {
                    lemma_wrote_join(s0, s1, *self, seq![0xEBu8], seq![low_byte(distance)]);
                }
            },
            None => {
                // forward jump
                self.emit_u8(0xEB);
                let ghost opcode = seq![0xEBu8];
                self.forward(target, JumpDistance::Near, Ghost(s0), Ghost(opcode));
            },
        }
    }

    /// Whether `next` is this encoder after a jump to the label `target`,
    /// which is not bound yet: `opcode` has been written, then `room` for
    /// the distance, and the jump has been noted with the place of that
    /// room.
    pub open spec fn jumped(
        &self,
        next: AssemblerX64,
        opcode: Seq<u8>,
        room: Seq<u8>,
        target: Label,
        distance: JumpDistance,
    ) -> bool {
        &&& self.buffer.wrote(next.buffer, opcode + room)
        &&& next.unresolved_jumps@ == self.unresolved_jumps@.push(
            ForwardJump {
                offset: (self.buffer.position + opcode.len()) as u32,
                label: target,
                distance,
            },
        )
    }

    /// Every jump that waits for its label can be filled in: the label is
    /// bound, the room for the distance lies in the code, and a distance of
    /// one byte fits.
    pub open spec fn jumps_ok(&self) -> bool {
        forall|i: int|
            0 <= i < self.unresolved_jumps@.len() ==> jump_ok(
                self.buffer.code@.len(),
                self.buffer.labels@,
                #[trigger] self.unresolved_jumps@[i],
            )
    }

    /// Fills in the distance of every jump that waited for its label.
    pub fn resolve_jumps(&mut self)
        requires
            old(self).wf(),
            old(self).jumps_ok(),
        ensures
            final(self).wf(),
            final(self).buffer.code@ == patched(
                old(self).buffer.code@,
                old(self).buffer.labels@,
                old(self).unresolved_jumps@,
                old(self).unresolved_jumps@.len(),
            ),
            final(self).buffer.position == old(self).buffer.position,
            final(self).buffer.labels@ == old(self).buffer.labels@,
            final(self).unresolved_jumps@.len() == 0,
    {
        let mut unresolved_jumps: Vec<ForwardJump> = Vec::new();
        std::mem::swap(&mut self.unresolved_jumps, &mut unresolved_jumps);
        let old_position = self.position();
        let ghost code = self.buffer.code@;
        let ghost labels = self.buffer.labels@;
        let n = unresolved_jumps.len();
        let mut i: usize = 0;
        while i < n
            invariant
                i <= n,
                n == unresolved_jumps@.len(),
                unresolved_jumps@ == old(self).unresolved_jumps@,
                old(self).jumps_ok(),
                code == old(self).buffer.code@,
                labels == old(self).buffer.labels@,
                self.buffer.labels@ == labels,
                self.unresolved_jumps@.len() == 0,
                self.buffer.code@.len() == code.len(),
                self.buffer.code@ == patched(code, labels, unresolved_jumps@, i as nat),
            decreases n - i,
        {
            let jump = unresolved_jumps[i];
            assert(jump_ok(code.len(), labels, jump));
            let lbl_offset = match self.offset(jump.label) {
                Some(o) => o,
                None => 0,
            };
            self.set_position(jump.offset as usize);
            let ghost before = self.buffer.code@;
            match jump.distance {
                JumpDistance::Near => {
                    let distance: i64 = lbl_offset as i64 - (jump.offset as i64 + 1);
                    self.emit_u8(low_byte_of(distance));
                },
                JumpDistance::Far => {
                    let distance: i64 = lbl_offset as i64 - (jump.offset as i64 + 4);
                    self.emit_u32(low_word_of(distance));
                },
            }
            proof {
                assert(self.buffer.code@ == write_at(
                    before,
                    jump.offset as int,
                    patch_bytes(labels, jump),
                ));
            }
            i += 1;
        }
        self.set_position(old_position);
    }

    /// The code, with the distance of every jump filled in.
    pub fn finalize(self) -> (r: Vec<u8>)
        requires
            self.wf(),
            self.jumps_ok(),
        ensures
            r@ == patched(
                self.buffer.code@,
                self.buffer.labels@,
                self.unresolved_jumps@,
                self.unresolved_jumps@.len(),
            ),
    {
        let mut this = self;
        this.resolve_jumps();
        this.buffer.code
    }
}

/// The REX prefix of `setcc`, which the byte registers from the fifth on
/// need.
pub open spec fn setcc_rex(dest: Register) -> Seq<u8> {
    if dest.needs_rex() || dest.low_bits() > 3 {
        rex_prefix(false, false, false, dest.needs_rex())
    } else {
        Seq::empty()
    }
}

/// The bytes of `movq_ri`: the form with four bytes of immediate where the
/// number fits them, the form with eight bytes else.
pub open spec fn movq_ri_bytes(dest: Register, imm: Immediate) -> Seq<u8> {
    if imm.is_int32() {
        rex64_rm(dest) + seq![0xC7u8] + modrm_opcode(0, dest) + le32(imm.int32_bits())
    } else {
        rex64_rm(dest) + seq![byte(0xB8 + dest.low_bits())] + le64(imm.int64_bits())
    }
}

/// Opcode, address and immediate of a comparison of what lies at `lhs` with
/// a number: the form with one byte of immediate where `short` holds, the
/// form with four bytes else.
pub open spec fn compare_imm(lhs: Address, short: bool, narrow: u8, wide: u32) -> Seq<u8> {
    if short {
        seq![0x83u8] + address_bytes(0b111, lhs) + seq![narrow]
    } else {
        seq![0x81u8] + address_bytes(0b111, lhs) + le32(wide)
    }
}

/// Prefix, opcode and ModRM of the form of `testl_ri` that takes one byte
/// of immediate.
pub open spec fn testl_short(lhs: Register) -> Seq<u8> {
    if lhs == spec_rax() {
        seq![0xa8u8]
    } else if lhs.value() < 4 {
        seq![0xf6u8] + modrm_opcode(0b000, lhs)
    } else {
        rex_prefix(false, false, false, lhs.needs_rex()) + seq![0xf6u8] + modrm_opcode(0b000, lhs)
    }
}

/// The bytes of `testl_ri`.
pub open spec fn testl_ri_bytes(lhs: Register, rhs: Immediate) -> Seq<u8> {
    if rhs.is_uint8() {
        testl_short(lhs) + seq![rhs.uint8()]
    } else if lhs == spec_rax() {
        seq![0xa9u8] + le32(rhs.int32_bits())
    } else {
        seq![0xf7u8] + modrm_opcode(0b000, lhs) + le32(rhs.int32_bits())
    }
}

/// The distance of a jump back from `pos` to `target`, counted from the end
/// of the jump, which is `len` bytes long.
pub open spec fn back(pos: int, target: int, len: int) -> i64 {
    (-(pos + len - target)) as i64
}

/// The bytes of a jump back from `pos` to `target`: the opcode `short` and
/// one byte of distance where the distance fits, the opcode `long` and four
/// bytes of distance else.
pub open spec fn jump_back(short: Seq<u8>, long: Seq<u8>, pos: int, target: int) -> Seq<u8> {
    if back(pos, target, 2) >= -128 {
        short + seq![low_byte(back(pos, target, 2))]
    } else {
        long + le32(low_word(back(pos, target, (long.len() + 4) as int)))
    }
}

/// Whether the jump `jump` can be filled in, in code of `len` bytes with the
/// labels `labels`.
pub open spec fn jump_ok(len: nat, labels: Seq<Option<u32>>, jump: ForwardJump) -> bool {
    &&& jump.label.index() < labels.len()
    &&& labels[jump.label.index()] is Some
    &&& match jump.distance {
        JumpDistance::Near => jump.offset + 1 <= len && -128 <= labels[jump.label.index()]->0 - (
        jump.offset + 1) < 128,
        JumpDistance::Far => jump.offset + 4 <= len,
    }
}

/// The distance that fills the room of `jump`, counted from the end of the
/// room.
pub open spec fn patch_bytes(labels: Seq<Option<u32>>, jump: ForwardJump) -> Seq<u8> {
    let to = labels[jump.label.index()]->0;
    match jump.distance {
        JumpDistance::Near => seq![low_byte((to - (jump.offset + 1)) as i64)],
        JumpDistance::Far => le32(low_word((to - (jump.offset + 4)) as i64)),
    }
}

/// `code` with the first `n` of `jumps` filled in.
pub open spec fn patched(code: Seq<u8>, labels: Seq<Option<u32>>, jumps: Seq<ForwardJump>, n: nat) -> Seq<
    u8,
>
    decreases n,
{
    if n == 0 || n > jumps.len() {
        code
    } else {
        write_at(
            patched(code, labels, jumps, (n - 1) as nat),
            jumps[n - 1].offset as int,
            patch_bytes(labels, jumps[n - 1]),
        )
    }
}

} // verus!
