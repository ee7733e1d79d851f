use yacari::assembler::x64::Address;
use yacari::assembler::x64::AssemblerX64;
use yacari::assembler::x64::Condition;
use yacari::assembler::x64::Immediate;
use yacari::assembler::x64::JumpDistance;
use yacari::assembler::x64::Register;
use yacari::assembler::x64::ScaleFactor;
use yacari::assembler::x64::XmmRegister;
use yacari::assembler::x64::R10;
use yacari::assembler::x64::R12;
use yacari::assembler::x64::R13;
use yacari::assembler::x64::R8;
use yacari::assembler::x64::R9;
use yacari::assembler::x64::RAX;
use yacari::assembler::x64::RBP;
use yacari::assembler::x64::RBX;
use yacari::assembler::x64::RCX;
use yacari::assembler::x64::RDI;
use yacari::assembler::x64::RDX;
use yacari::assembler::x64::RSI;
use yacari::assembler::x64::RSP;
use yacari::assembler::x64::XMM0;
use yacari::assembler::x64::XMM1;
use yacari::assembler::x64::XMM9;
use yacari::assembler::AssemblerBuffer;
use yacari::assembler::Label;

fn code(f: fn(&mut AssemblerX64)) -> Vec<u8> {
    let mut a = AssemblerX64::new();
    f(&mut a);
    a.finalize()
}

#[test]
fn the_answer() {
    assert_eq!(
        code(|a| {
            a.movq_ri(RAX(), Immediate(42));
            a.retq();
        }),
        vec![0x48, 0xC7, 0xC0, 0x2A, 0x00, 0x00, 0x00, 0xC3]
    );
}

#[test]
fn registers() {
    assert_eq!(Register::new(11), R11_());
    assert_eq!(RAX().value(), 0);
    assert_eq!(R12().value(), 12);
    assert_eq!(R12().low_bits(), 4);
    assert!(R12().needs_rex());
    assert!(!RDI().needs_rex());
    assert_eq!(RDI().low_bits(), 7);
    assert_eq!(XMM9().low_bits(), 1);
    assert_eq!(XMM9().value(), 9);
    assert!(XMM9().needs_rex());
    assert!(!XMM1().needs_rex());
    assert_eq!(XmmRegister::new(3).value(), 3);
}

fn R11_() -> Register {
    yacari::assembler::x64::R11()
}

#[test]
fn conditions() {
    assert_eq!(Condition::Overflow.number(), 0);
    assert_eq!(Condition::NoOverflow.number(), 1);
    assert_eq!(Condition::Below.number(), 2);
    assert_eq!(Condition::NeitherAboveNorEqual.number(), 2);
    assert_eq!(Condition::AboveOrEqual.number(), 3);
    assert_eq!(Condition::Equal.number(), 4);
    assert_eq!(Condition::Zero.number(), 4);
    assert_eq!(Condition::NotEqual.number(), 5);
    assert_eq!(Condition::NotAbove.number(), 6);
    assert_eq!(Condition::Above.number(), 7);
    assert_eq!(Condition::Sign.number(), 8);
    assert_eq!(Condition::NoSign.number(), 9);
    assert_eq!(Condition::ParityEven.number(), 10);
    assert_eq!(Condition::ParityOdd.number(), 11);
    assert_eq!(Condition::Less.number(), 12);
    assert_eq!(Condition::GreaterOrEqual.number(), 13);
    assert_eq!(Condition::LessOrEqual.number(), 14);
    assert_eq!(Condition::Greater.number(), 15);
}

#[test]
fn immediates() {
    assert!(Immediate(127).is_int8());
    assert!(Immediate(-128).is_int8());
    assert!(!Immediate(128).is_int8());
    assert!(!Immediate(-129).is_int8());
    assert!(Immediate(2147483647).is_int32());
    assert!(Immediate(-2147483648).is_int32());
    assert!(!Immediate(2147483648).is_int32());
    assert!(Immediate(255).is_uint8());
    assert!(!Immediate(256).is_uint8());
    assert!(!Immediate(-1).is_uint8());
    assert!(Immediate(4294967295).is_uint32());
    assert!(!Immediate(4294967296).is_uint32());
    assert_eq!(Immediate(0x1234).uint8(), 0x34);
    assert_eq!(Immediate(-1).int8(), -1);
    assert_eq!(Immediate(0x1_0000_0005).int32(), 5);
    assert_eq!(Immediate(-1).uint32(), 0xFFFF_FFFF);
    assert_eq!(Immediate(-7).int64(), -7);
    assert_eq!(Immediate(-1).int8_bits(), 0xFF);
    assert_eq!(Immediate(-2).int32_bits(), 0xFFFF_FFFE);
    assert_eq!(Immediate(-1).int64_bits(), u64::MAX);
}

#[test]
fn stack_and_plain_instructions() {
    assert_eq!(code(|a| a.pushq_r(RBP())), vec![0x55]);
    assert_eq!(code(|a| a.pushq_r(R12())), vec![0x41, 0x54]);
    assert_eq!(code(|a| a.popq_r(RBX())), vec![0x5B]);
    assert_eq!(code(|a| a.popq_r(R9())), vec![0x41, 0x59]);
    assert_eq!(code(|a| a.int3()), vec![0xCC]);
    assert_eq!(code(|a| a.nop()), vec![0x90]);
    assert_eq!(code(|a| a.retq()), vec![0xC3]);
    assert_eq!(code(|a| a.cdq()), vec![0x99]);
    assert_eq!(code(|a| a.cqo()), vec![0x48, 0x99]);
    assert_eq!(code(|a| a.call_r(RAX())), vec![0xFF, 0xD0]);
    assert_eq!(code(|a| a.jmp_r(R8())), vec![0x41, 0xFF, 0xE0]);
}

#[test]
fn moves() {
    assert_eq!(code(|a| a.movq_rr(RBP(), RSP())), vec![0x48, 0x89, 0xE5]);
    assert_eq!(code(|a| a.movq_rr(R8(), RAX())), vec![0x49, 0x89, 0xC0]);
    assert_eq!(code(|a| a.movl_rr(RAX(), RCX())), vec![0x89, 0xC8]);
    assert_eq!(code(|a| a.movl_ri(RCX(), Immediate(7))), vec![0xB9, 0x07, 0x00, 0x00, 0x00]);
    assert_eq!(
        code(|a| a.movq_ri(R10(), Immediate(0x1_0000_0000))),
        vec![0x49, 0xBA, 0x00, 0x00, 0x00, 0x00, 0x01, 0x00, 0x00, 0x00]
    );
    assert_eq!(
        code(|a| a.movq_ri(RDX(), Immediate(-1))),
        vec![0x48, 0xC7, 0xC2, 0xFF, 0xFF, 0xFF, 0xFF]
    );
    assert_eq!(code(|a| a.movq_ra(RAX(), Address::offset(RBP(), -8))), vec![0x48, 0x8B, 0x45, 0xF8]);
    assert_eq!(code(|a| a.movq_ar(Address::offset(RSP(), 8), RAX())), vec![0x48, 0x89, 0x44, 0x24, 0x08]);
    assert_eq!(code(|a| a.movl_ra(RAX(), Address::reg(RCX()))), vec![0x8B, 0x01]);
    assert_eq!(
        code(|a| a.movq_ra(RAX(), Address::offset(RDI(), 0x1234))),
        vec![0x48, 0x8B, 0x87, 0x34, 0x12, 0x00, 0x00]
    );
    assert_eq!(code(|a| a.movb_ai(Address::reg(RAX()), Immediate(255))), vec![0xC6, 0x00, 0xFF]);
    assert_eq!(
        code(|a| a.movq_ai(Address::reg(RAX()), Immediate(1))),
        vec![0x48, 0xC7, 0x00, 0x01, 0x00, 0x00, 0x00]
    );
    assert_eq!(code(|a| a.lea(RAX(), Address::offset(RBP(), -16))), vec![0x48, 0x8D, 0x45, 0xF0]);
    assert_eq!(code(|a| a.movzxb_rr(RAX(), RCX())), vec![0x0F, 0xB6, 0xC1]);
    assert_eq!(code(|a| a.movzxb_rr(RAX(), RSI())), vec![0x40, 0x0F, 0xB6, 0xC6]);
    assert_eq!(code(|a| a.movsxlq_rr(RAX(), RCX())), vec![0x48, 0x63, 0xC1]);
}

#[test]
fn arithmetic() {
    assert_eq!(code(|a| a.addq_rr(RAX(), RCX())), vec![0x48, 0x01, 0xC8]);
    assert_eq!(code(|a| a.addl_rr(RAX(), RCX())), vec![0x01, 0xC8]);
    assert_eq!(code(|a| a.addq_ri(RCX(), Immediate(8))), vec![0x48, 0x83, 0xC1, 0x08]);
    assert_eq!(code(|a| a.addq_ri(RAX(), Immediate(1000))), vec![0x48, 0x05, 0xE8, 0x03, 0x00, 0x00]);
    assert_eq!(
        code(|a| a.addq_ri(RCX(), Immediate(1000))),
        vec![0x48, 0x81, 0xC1, 0xE8, 0x03, 0x00, 0x00]
    );
    assert_eq!(code(|a| a.addl_ri(R8(), Immediate(-1))), vec![0x41, 0x83, 0xC0, 0xFF]);
    assert_eq!(code(|a| a.subq_ri(RSP(), Immediate(16))), vec![0x48, 0x83, 0xEC, 0x10]);
    assert_eq!(code(|a| a.subq_ri32(RSP(), Immediate(16))), vec![0x48, 0x83, 0xEC, 0x10]);
    assert_eq!(code(|a| a.subq_rr(RAX(), RCX())), vec![0x48, 0x29, 0xC8]);
    assert_eq!(code(|a| a.andq_rr(RAX(), RCX())), vec![0x48, 0x21, 0xC8]);
    assert_eq!(code(|a| a.andq_ri(RAX(), Immediate(15))), vec![0x48, 0x83, 0xE0, 0x0F]);
    assert_eq!(code(|a| a.orq_rr(RAX(), RCX())), vec![0x48, 0x09, 0xC8]);
    assert_eq!(code(|a| a.xorl_rr(RAX(), RAX())), vec![0x31, 0xC0]);
    assert_eq!(code(|a| a.xorq_rr(R9(), R9())), vec![0x4D, 0x31, 0xC9]);
    assert_eq!(code(|a| a.xorl_ri(RCX(), Immediate(1))), vec![0x83, 0xF1, 0x01]);
    assert_eq!(code(|a| a.imulq_rr(RAX(), RCX())), vec![0x48, 0x0F, 0xAF, 0xC1]);
    assert_eq!(code(|a| a.imull_rr(RAX(), RCX())), vec![0x0F, 0xAF, 0xC1]);
    assert_eq!(code(|a| a.idivq_r(RCX())), vec![0x48, 0xF7, 0xF9]);
    assert_eq!(code(|a| a.idivl_r(RCX())), vec![0xF7, 0xF9]);
    assert_eq!(code(|a| a.negq(RAX())), vec![0x48, 0xF7, 0xD8]);
    assert_eq!(code(|a| a.negl(RAX())), vec![0xF7, 0xD8]);
    assert_eq!(code(|a| a.notq(RAX())), vec![0x48, 0xF7, 0xD0]);
    assert_eq!(code(|a| a.notl(RAX())), vec![0xF7, 0xD0]);
    assert_eq!(code(|a| a.shlq_ri(RAX(), Immediate(3))), vec![0x48, 0xC1, 0xE0, 0x03]);
    assert_eq!(code(|a| a.shrq_ri(RAX(), Immediate(3))), vec![0x48, 0xC1, 0xE8, 0x03]);
    assert_eq!(code(|a| a.sarq_ri(RAX(), Immediate(3))), vec![0x48, 0xC1, 0xF8, 0x03]);
    assert_eq!(code(|a| a.shll_r(RAX())), vec![0xD3, 0xE0]);
    assert_eq!(code(|a| a.sarl_r(RAX())), vec![0xD3, 0xF8]);
    assert_eq!(code(|a| a.rolq_r(RAX())), vec![0x48, 0xD3, 0xC0]);
    assert_eq!(code(|a| a.rorl_r(RAX())), vec![0xD3, 0xC8]);
    assert_eq!(code(|a| a.popcntq_rr(RAX(), RCX())), vec![0xF3, 0x48, 0x0F, 0xB8, 0xC1]);
    assert_eq!(code(|a| a.lzcntl_rr(RAX(), RCX())), vec![0xF3, 0x0F, 0xBD, 0xC1]);
    assert_eq!(code(|a| a.tzcntq_rr(RAX(), RCX())), vec![0xF3, 0x48, 0x0F, 0xBC, 0xC1]);
}

#[test]
fn comparisons() {
    assert_eq!(code(|a| a.cmpq_rr(RAX(), RCX())), vec![0x48, 0x39, 0xC8]);
    assert_eq!(code(|a| a.cmpl_rr(RAX(), RCX())), vec![0x39, 0xC8]);
    assert_eq!(code(|a| a.cmpq_ri(RAX(), Immediate(1000))), vec![0x48, 0x3D, 0xE8, 0x03, 0x00, 0x00]);
    assert_eq!(code(|a| a.cmpq_ri(RCX(), Immediate(1))), vec![0x48, 0x83, 0xF9, 0x01]);
    assert_eq!(code(|a| a.cmpl_ri(RCX(), Immediate(1))), vec![0x83, 0xF9, 0x01]);
    assert_eq!(code(|a| a.cmpl_ai(Address::reg(RAX()), Immediate(5))), vec![0x83, 0x38, 0x05]);
    assert_eq!(
        code(|a| a.cmpl_ai(Address::reg(RAX()), Immediate(4294967295))),
        vec![0x81, 0x38, 0xFF, 0xFF, 0xFF, 0xFF]
    );
    assert_eq!(code(|a| a.cmpq_ai(Address::reg(RAX()), Immediate(-1))), vec![0x48, 0x83, 0x38, 0xFF]);
    assert_eq!(
        code(|a| a.cmpq_ai(Address::reg(RAX()), Immediate(300))),
        vec![0x48, 0x81, 0x38, 0x2C, 0x01, 0x00, 0x00]
    );
    assert_eq!(code(|a| a.cmpb_ai(Address::reg(RAX()), Immediate(1))), vec![0x80, 0x38, 0x01]);
    assert_eq!(code(|a| a.cmpq_ar(Address::reg(RAX()), RCX())), vec![0x48, 0x39, 0x08]);
    assert_eq!(code(|a| a.testq_rr(RAX(), RAX())), vec![0x48, 0x85, 0xC0]);
    assert_eq!(code(|a| a.testl_rr(RAX(), RCX())), vec![0x85, 0xC8]);
    assert_eq!(code(|a| a.testl_ri(RAX(), Immediate(1))), vec![0xA8, 0x01]);
    assert_eq!(code(|a| a.testl_ri(RCX(), Immediate(1))), vec![0xF6, 0xC1, 0x01]);
    assert_eq!(code(|a| a.testl_ri(RSI(), Immediate(1))), vec![0x40, 0xF6, 0xC6, 0x01]);
    assert_eq!(code(|a| a.testl_ri(R8(), Immediate(1))), vec![0x41, 0xF6, 0xC0, 0x01]);
    assert_eq!(code(|a| a.testl_ri(RAX(), Immediate(256))), vec![0xA9, 0x00, 0x01, 0x00, 0x00]);
    assert_eq!(code(|a| a.testl_ri(RCX(), Immediate(256))), vec![0xF7, 0xC1, 0x00, 0x01, 0x00, 0x00]);
    assert_eq!(code(|a| a.setcc_r(Condition::Equal, RAX())), vec![0x0F, 0x94, 0xC0]);
    assert_eq!(code(|a| a.setcc_r(Condition::Less, RSI())), vec![0x40, 0x0F, 0x9C, 0xC6]);
    assert_eq!(code(|a| a.setcc_r(Condition::Greater, R8())), vec![0x41, 0x0F, 0x9F, 0xC0]);
    assert_eq!(code(|a| a.cmovq(Condition::Equal, RAX(), RCX())), vec![0x48, 0x0F, 0x44, 0xC1]);
    assert_eq!(code(|a| a.cmovl(Condition::NotEqual, RAX(), RCX())), vec![0x0F, 0x45, 0xC1]);
}

#[test]
fn vector_instructions() {
    assert_eq!(code(|a| a.addsd_rr(XMM0(), XMM1())), vec![0xF2, 0x0F, 0x58, 0xC1]);
    assert_eq!(code(|a| a.addss_rr(XMM0(), XMM1())), vec![0xF3, 0x0F, 0x58, 0xC1]);
    assert_eq!(code(|a| a.subsd_rr(XMM0(), XMM1())), vec![0xF2, 0x0F, 0x5C, 0xC1]);
    assert_eq!(code(|a| a.mulsd_rr(XMM0(), XMM1())), vec![0xF2, 0x0F, 0x59, 0xC1]);
    assert_eq!(code(|a| a.divsd_rr(XMM0(), XMM1())), vec![0xF2, 0x0F, 0x5E, 0xC1]);
    assert_eq!(code(|a| a.sqrtsd_rr(XMM0(), XMM1())), vec![0xF2, 0x0F, 0x51, 0xC1]);
    assert_eq!(code(|a| a.movsd_rr(XMM0(), XMM9())), vec![0xF2, 0x41, 0x0F, 0x10, 0xC1]);
    assert_eq!(code(|a| a.movsd_rr(XMM9(), XMM0())), vec![0xF2, 0x44, 0x0F, 0x10, 0xC8]);
    assert_eq!(code(|a| a.ucomisd_rr(XMM0(), XMM1())), vec![0x66, 0x0F, 0x2E, 0xC1]);
    assert_eq!(code(|a| a.ucomiss_rr(XMM0(), XMM1())), vec![0x0F, 0x2E, 0xC1]);
    assert_eq!(code(|a| a.pxor_rr(XMM0(), XMM0())), vec![0x66, 0x0F, 0xEF, 0xC0]);
    assert_eq!(code(|a| a.xorps_rr(XMM0(), XMM1())), vec![0x0F, 0x57, 0xC1]);
    assert_eq!(code(|a| a.cvtsi2sdq_rr(XMM0(), RAX())), vec![0xF2, 0x48, 0x0F, 0x2A, 0xC0]);
    assert_eq!(code(|a| a.cvtsi2sdd_rr(XMM0(), RAX())), vec![0xF2, 0x0F, 0x2A, 0xC0]);
    assert_eq!(code(|a| a.cvttsd2siq_rr(RAX(), XMM0())), vec![0xF2, 0x48, 0x0F, 0x2C, 0xC0]);
    assert_eq!(code(|a| a.cvtss2sd_rr(XMM0(), XMM1())), vec![0xF3, 0x0F, 0x5A, 0xC1]);
    assert_eq!(code(|a| a.cvtsd2ss_rr(XMM0(), XMM1())), vec![0xF2, 0x0F, 0x5A, 0xC1]);
    assert_eq!(code(|a| a.movq_rx(RAX(), XMM0())), vec![0x66, 0x48, 0x0F, 0x7E, 0xC0]);
    assert_eq!(code(|a| a.movq_xr(XMM0(), RAX())), vec![0x66, 0x48, 0x0F, 0x6E, 0xC0]);
    assert_eq!(code(|a| a.movd_xr(XMM0(), RAX())), vec![0x66, 0x0F, 0x6E, 0xC0]);
    assert_eq!(code(|a| a.movsd_ra(XMM0(), Address::offset(RBP(), -8))), vec![0xF2, 0x0F, 0x10, 0x45, 0xF8]);
    assert_eq!(code(|a| a.movsd_ar(Address::offset(RBP(), -8), XMM1())), vec![0xF2, 0x0F, 0x11, 0x4D, 0xF8]);
    assert_eq!(code(|a| a.movss_ra(XMM9(), Address::reg(RAX()))), vec![0xF3, 0x44, 0x0F, 0x10, 0x08]);
}

#[test]
fn exchanges() {
    assert_eq!(code(|a| a.xchgq_ar(Address::reg(RAX()), RCX())), vec![0x48, 0x87, 0x08]);
    assert_eq!(code(|a| a.xchgl_ar(Address::reg(RAX()), RCX())), vec![0x87, 0x08]);
    assert_eq!(code(|a| a.cmpxchgq_ar(Address::reg(RAX()), RCX())), vec![0x48, 0x0F, 0xB1, 0x08]);
    assert_eq!(
        code(|a| a.lock_cmpxchgq_ar(Address::reg(RAX()), RCX())),
        vec![0xF0, 0x48, 0x0F, 0xB1, 0x08]
    );
    assert_eq!(code(|a| a.lock_cmpxchgl_ar(Address::reg(RAX()), RCX())), vec![0xF0, 0x0F, 0xB1, 0x08]);
    assert_eq!(code(|a| a.xaddq_ar(Address::reg(RAX()), RCX())), vec![0x48, 0x0F, 0xC1, 0x08]);
    assert_eq!(code(|a| a.lock_xaddl_ar(Address::reg(RAX()), RCX())), vec![0xF0, 0x0F, 0xC1, 0x08]);
}

#[test]
fn addresses() {
    assert_eq!(Address::reg(RAX()).encoded_bytes(), &[0x00]);
    assert_eq!(Address::reg(RAX()).rex(), 0);
    assert_eq!(Address::reg(RBP()).encoded_bytes(), &[0x45, 0x00]);
    assert_eq!(Address::reg(RSP()).encoded_bytes(), &[0x04, 0x24]);
    assert_eq!(Address::offset(RSP(), 8).encoded_bytes(), &[0x44, 0x24, 0x08]);
    assert_eq!(Address::offset(RCX(), -128).encoded_bytes(), &[0x41, 0x80]);
    assert_eq!(Address::offset(RCX(), 127).encoded_bytes(), &[0x41, 0x7F]);
    assert_eq!(Address::offset(RCX(), 128).encoded_bytes(), &[0x81, 0x80, 0x00, 0x00, 0x00]);
    assert_eq!(Address::offset(RCX(), -129).encoded_bytes(), &[0x81, 0x7F, 0xFF, 0xFF, 0xFF]);
    assert_eq!(Address::offset(RSP(), 0x100).encoded_bytes(), &[0x84, 0x24, 0x00, 0x01, 0x00, 0x00]);
    assert_eq!(Address::offset(R12(), 0).encoded_bytes(), &[0x04]);
    assert_eq!(Address::offset(R12(), 0).rex(), 0x41);
    assert_eq!(Address::offset(R13(), 0).encoded_bytes(), &[0x05]);
    assert_eq!(Address::offset(R9(), 4).rex(), 0x41);
    assert_eq!(Address::rip(0x10).encoded_bytes(), &[0x05, 0x10, 0x00, 0x00, 0x00]);
    assert_eq!(Address::rip(0).rex(), 0);
    assert_eq!(
        Address::index(RCX(), ScaleFactor::Four, 8).encoded_bytes(),
        &[0x04, 0x8D, 0x08, 0x00, 0x00, 0x00]
    );
    assert_eq!(Address::index(R9(), ScaleFactor::One, 0).rex(), 0x42);
    assert_eq!(Address::array(RAX(), RCX(), ScaleFactor::Eight, 0).encoded_bytes(), &[0x04, 0xC8]);
    assert_eq!(Address::array(RAX(), RCX(), ScaleFactor::Two, 16).encoded_bytes(), &[0x44, 0x48, 0x10]);
    assert_eq!(
        Address::array(RBP(), RDX(), ScaleFactor::One, 0).encoded_bytes(),
        &[0x44, 0x15, 0x00]
    );
    assert_eq!(Address::array(R8(), R9(), ScaleFactor::One, 0).rex(), 0x43);
    assert_eq!(
        code(|a| a.movq_ra(RAX(), Address::array(RDI(), RSI(), ScaleFactor::Eight, 0x200))),
        vec![0x48, 0x8B, 0x84, 0xF7, 0x00, 0x02, 0x00, 0x00]
    );
    assert_eq!(code(|a| a.movq_ra(R8(), Address::reg(R9()))), vec![0x4D, 0x8B, 0x01]);
}

#[test]
fn jumps_back() {
    let mut a = AssemblerX64::new();
    let top = a.create_and_bind_label();
    a.nop();
    a.jmp(top);
    a.jcc(Condition::Equal, top);
    a.jmp_near(top);
    a.jcc_near(Condition::Less, top);
    assert_eq!(a.finalize(), vec![0x90, 0xEB, 0xFD, 0x74, 0xFB, 0xEB, 0xF9, 0x7C, 0xF7]);
    let mut a = AssemblerX64::new();
    let top = a.create_and_bind_label();
    for _ in 0..126 {
        a.nop();
    }
    a.jmp(top);
    a.jmp(top);
    a.jcc(Condition::NotEqual, top);
    let code = a.finalize();
    assert_eq!(code[126..], [0xEB, 0x80, 0xE9, 0x7B, 0xFF, 0xFF, 0xFF, 0x0F, 0x85, 0x75, 0xFF, 0xFF, 0xFF]);
}

#[test]
fn jumps_forward_are_filled_in_at_the_end() {
    let mut a = AssemblerX64::new();
    let end = a.create_label();
    a.jmp(end);
    a.nop();
    a.bind_label(end);
    assert_eq!(a.unresolved_jumps.len(), 1);
    assert_eq!(a.unresolved_jumps[0].offset, 1);
    assert_eq!(a.unresolved_jumps[0].distance, JumpDistance::Far);
    assert_eq!(a.finalize(), vec![0xE9, 0x01, 0x00, 0x00, 0x00, 0x90]);
    let mut a = AssemblerX64::new();
    let end = a.create_label();
    a.jcc(Condition::Equal, end);
    a.jcc_near(Condition::Greater, end);
    a.jmp_near(end);
    a.retq();
    a.bind_label(end);
    a.retq();
    assert_eq!(
        a.finalize(),
        vec![0x0F, 0x84, 0x05, 0x00, 0x00, 0x00, 0x7F, 0x03, 0xEB, 0x01, 0xC3, 0xC3]
    );
}

#[test]
fn resolving_keeps_the_place_of_writing() {
    let mut a = AssemblerX64::new();
    let end = a.create_label();
    a.jmp_near(end);
    a.bind_label(end);
    a.nop();
    a.resolve_jumps();
    assert_eq!(a.position(), 3);
    assert_eq!(a.unresolved_jumps.len(), 0);
    a.nop();
    assert_eq!(a.finalize(), vec![0xEB, 0x00, 0x90, 0x90]);
}

#[test]
fn writing_in_the_middle_overwrites() {
    let mut a = AssemblerX64::new();
    a.emit_u32(0x04030201);
    a.emit_u8(0x05);
    assert_eq!(a.position(), 5);
    a.set_position(1);
    a.emit_u8(0xAA);
    assert_eq!(a.position(), 2);
    a.set_position(3);
    a.emit_u32(0xDDCCBBAA);
    assert_eq!(a.position(), 7);
    a.set_position(0);
    a.emit_u64(0x0807060504030201);
    a.set_position_end();
    assert_eq!(a.position(), 8);
    a.emit_u8(9);
    assert_eq!(a.finalize(), vec![1, 2, 3, 4, 5, 6, 7, 8, 9]);
    let mut a = AssemblerX64::new();
    a.emit_u32(0x04030201);
    a.emit_u8(0x05);
    a.set_position(1);
    a.emit_u8(0xAA);
    a.set_position(3);
    a.emit_u32(0xDDCCBBAA);
    assert_eq!(a.finalize(), vec![0x01, 0xAA, 0x03, 0xAA, 0xBB, 0xCC, 0xDD]);
}

#[test]
fn a_buffer_keeps_labels() {
    let mut b = AssemblerBuffer::new();
    let first = b.create_label();
    assert_eq!(first, Label(0));
    assert_eq!(b.offset(first), None);
    b.emit_u8(1);
    b.emit_u64(2);
    let second = b.create_and_bind_label();
    assert_eq!(second, Label(1));
    assert_eq!(b.offset(second), Some(9));
    b.emit_u32(3);
    b.bind_label(first);
    assert_eq!(b.offset(first), Some(13));
    assert_eq!(b.position(), 13);
    b.set_position(4);
    assert_eq!(b.position(), 4);
    b.set_position_end();
    assert_eq!(b.position(), 13);
    assert_eq!(b.code, vec![1, 2, 0, 0, 0, 0, 0, 0, 0, 3, 0, 0, 0]);
}
