use jasm::{Assembler, EncodeError, Register, RegisterOrImm};

const REGISTERS: [Register; 6] = [
    Register::A,
    Register::B,
    Register::C,
    Register::D,
    Register::H,
    Register::Z,
];

fn code(r: Register) -> u8 {
    r.code()
}

fn one<F: FnOnce(&mut Assembler)>(f: F) -> Vec<u8> {
    let mut a = Assembler::new();
    f(&mut a);
    a.bytes()
}

#[test]
fn move_immediate_into_a() {
    let mut a = Assembler::new();
    assert_eq!(a.mw(Register::A, RegisterOrImm::Imm8(3)), Ok(()));
    assert_eq!(a.bytes(), vec![0x00, 0x03]);
}

#[test]
fn second_move_is_appended() {
    let mut a = Assembler::new();
    a.mw(Register::A, RegisterOrImm::Imm8(3)).unwrap();
    a.mw(Register::B, RegisterOrImm::Imm8(4)).unwrap();
    assert_eq!(a.bytes(), vec![0x00, 0x03, 0x01, 0x04]);
}

#[test]
fn add_register_after_moves() {
    let mut a = Assembler::new();
    a.mw(Register::A, RegisterOrImm::Imm8(3)).unwrap();
    a.mw(Register::B, RegisterOrImm::Imm8(4)).unwrap();
    a.add(Register::A, RegisterOrImm::Reg(Register::B)).unwrap();
    let b = a.bytes();
    assert_eq!(b.len(), 6);
    assert_eq!(&b[4..], &[0x98, 0x01]);
}

#[test]
fn load_address_is_little_endian() {
    let mut a = Assembler::new();
    a.mw(Register::A, RegisterOrImm::Imm8(3)).unwrap();
    a.mw(Register::B, RegisterOrImm::Imm8(4)).unwrap();
    a.add(Register::A, RegisterOrImm::Reg(Register::B)).unwrap();
    a.lda(0xCAFE);
    assert_eq!(
        a.bytes(),
        vec![0x00, 0x03, 0x01, 0x04, 0x98, 0x01, 0x50, 0xFE, 0xCA]
    );
}

#[test]
fn pop_into_c() {
    assert_eq!(one(|a| a.pop(Register::C)), vec![0x4A]);
}

#[test]
fn push_wide_immediate_is_refused() {
    let mut a = Assembler::new();
    a.mw(Register::A, RegisterOrImm::Imm8(3)).unwrap();
    let before = a.bytes();
    assert_eq!(
        a.push(RegisterOrImm::Imm16(0x1234)),
        Err(EncodeError::InvalidOperand)
    );
    assert_eq!(a.bytes(), before);
}

#[test]
fn new_image_is_empty() {
    assert!(Assembler::new().bytes().is_empty());
}

#[test]
fn bytes_does_not_reset() {
    let mut a = Assembler::new();
    a.pop(Register::Z);
    assert_eq!(a.bytes(), vec![0x4D]);
    assert_eq!(a.bytes(), vec![0x4D]);
    a.pop(Register::A);
    assert_eq!(a.bytes(), vec![0x4D, 0x48]);
}

#[test]
fn register_codes() {
    for (i, r) in REGISTERS.iter().enumerate() {
        assert_eq!(code(*r) as usize, i);
    }
}

type RegOrImmOp = fn(&mut Assembler, Register, RegisterOrImm) -> Result<(), EncodeError>;

fn reg_or_imm_ops() -> Vec<(RegOrImmOp, u8)> {
    vec![
        (Assembler::mw as RegOrImmOp, 0x0),
        (Assembler::inb, 0x7),
        (|a, r, o| a.outb(o, r), 0x8),
        (Assembler::add, 0x9),
        (Assembler::adc, 0xA),
        (Assembler::and, 0xB),
        (Assembler::or, 0xC),
        (Assembler::nor, 0xD),
        (Assembler::cmp, 0xE),
        (Assembler::sbb, 0xF),
    ]
}

#[test]
fn reg_or_imm_forms_round_trip() {
    for (op, class) in reg_or_imm_ops() {
        for p in REGISTERS {
            for s in REGISTERS {
                let b = one(|a| op(a, p, RegisterOrImm::Reg(s)).unwrap());
                assert_eq!(b.len(), 2);
                assert_eq!(b[0] >> 4, class);
                assert_eq!(b[0] & 0x08, 0x08);
                assert_eq!(b[0] & 0x07, code(p));
                assert_eq!(b[1], code(s));
            }
            for v in [0u8, 1, 0x7F, 0x80, 0xFF] {
                let b = one(|a| op(a, p, RegisterOrImm::Imm8(v)).unwrap());
                assert_eq!(b.len(), 2);
                assert_eq!(b[0] >> 4, class);
                assert_eq!(b[0] & 0x08, 0);
                assert_eq!(b[0] & 0x07, code(p));
                assert_eq!(b[1], v);
            }
        }
    }
}

#[test]
fn reg_or_imm_forms_refuse_wide_immediate() {
    for (op, _) in reg_or_imm_ops() {
        let mut a = Assembler::new();
        a.lda(0x0102);
        let r = op(&mut a, Register::D, RegisterOrImm::Imm16(0xBEEF));
        assert_eq!(r, Err(EncodeError::InvalidOperand));
        assert_eq!(a.bytes(), vec![0x50, 0x02, 0x01]);
    }
}

#[test]
fn exact_alu_encodings() {
    assert_eq!(one(|a| a.adc(Register::B, RegisterOrImm::Imm8(0x10)).unwrap()), vec![0xA1, 0x10]);
    assert_eq!(one(|a| a.and(Register::H, RegisterOrImm::Reg(Register::Z)).unwrap()), vec![0xBC, 0x05]);
    assert_eq!(one(|a| a.or(Register::Z, RegisterOrImm::Imm8(0xFF)).unwrap()), vec![0xC5, 0xFF]);
    assert_eq!(one(|a| a.nor(Register::D, RegisterOrImm::Reg(Register::A)).unwrap()), vec![0xDB, 0x00]);
    assert_eq!(one(|a| a.cmp(Register::C, RegisterOrImm::Imm8(7)).unwrap()), vec![0xE2, 0x07]);
    assert_eq!(one(|a| a.sbb(Register::A, RegisterOrImm::Reg(Register::C)).unwrap()), vec![0xF8, 0x02]);
    assert_eq!(one(|a| a.mw(Register::H, RegisterOrImm::Reg(Register::D)).unwrap()), vec![0x0C, 0x03]);
}

#[test]
fn port_encodings() {
    assert_eq!(one(|a| a.inb(Register::B, RegisterOrImm::Imm8(0x42)).unwrap()), vec![0x71, 0x42]);
    assert_eq!(one(|a| a.inb(Register::B, RegisterOrImm::Reg(Register::C)).unwrap()), vec![0x79, 0x02]);
    assert_eq!(one(|a| a.outb(RegisterOrImm::Imm8(0x42), Register::D).unwrap()), vec![0x83, 0x42]);
    assert_eq!(one(|a| a.outb(RegisterOrImm::Reg(Register::H), Register::D).unwrap()), vec![0x8B, 0x04]);
}

#[test]
fn load_and_store_forms() {
    assert_eq!(one(|a| a.lw(Register::C, Some(0x1234))), vec![0x12, 0x34, 0x12]);
    assert_eq!(one(|a| a.lw(Register::C, None)), vec![0x1A]);
    assert_eq!(one(|a| a.sw(Some(0xABCD), Register::Z)), vec![0x25, 0xCD, 0xAB]);
    assert_eq!(one(|a| a.sw(None, Register::Z)), vec![0x2D]);
    assert_eq!(one(|a| a.lw(Register::A, Some(0xFFFF))), vec![0x10, 0xFF, 0xFF]);
    assert_eq!(one(|a| a.sw(Some(0x0000), Register::A)), vec![0x20, 0x00, 0x00]);
}

#[test]
fn load_store_address_round_trip() {
    for addr in [0u16, 1, 0x00FF, 0x0100, 0x7FFF, 0xCAFE, 0xFFFF] {
        for r in REGISTERS {
            let b = one(|a| a.lw(r, Some(addr)));
            assert_eq!(b.len(), 3);
            assert_eq!(b[0], 0x10 | code(r));
            assert_eq!(u16::from_le_bytes([b[1], b[2]]), addr);
            let b = one(|a| a.sw(Some(addr), r));
            assert_eq!(b.len(), 3);
            assert_eq!(b[0], 0x20 | code(r));
            assert_eq!(u16::from_le_bytes([b[1], b[2]]), addr);
        }
        let b = one(|a| a.lda(addr));
        assert_eq!(b.len(), 3);
        assert_eq!(b[0], 0x50);
        assert_eq!(u16::from_le_bytes([b[1], b[2]]), addr);
    }
}

#[test]
fn push_and_jump_forms() {
    assert_eq!(one(|a| a.push(RegisterOrImm::Reg(Register::H)).unwrap()), vec![0x3C]);
    assert_eq!(one(|a| a.push(RegisterOrImm::Imm8(0x99)).unwrap()), vec![0x30, 0x99]);
    assert_eq!(one(|a| a.jnz(RegisterOrImm::Reg(Register::B)).unwrap()), vec![0x69]);
    assert_eq!(one(|a| a.jnz(RegisterOrImm::Imm8(0)).unwrap()), vec![0x60, 0x00]);
}

#[test]
fn jump_wide_immediate_is_refused() {
    let mut a = Assembler::new();
    a.pop(Register::A);
    assert_eq!(a.jnz(RegisterOrImm::Imm16(0xCAFE)), Err(EncodeError::InvalidOperand));
    assert_eq!(a.bytes(), vec![0x48]);
}

#[test]
fn byte_counts_follow_the_table() {
    let r = RegisterOrImm::Reg(Register::B);
    let i = RegisterOrImm::Imm8(1);
    assert_eq!(one(|a| a.mw(Register::A, r).unwrap()).len(), 2);
    assert_eq!(one(|a| a.mw(Register::A, i).unwrap()).len(), 2);
    assert_eq!(one(|a| a.lw(Register::A, Some(1))).len(), 3);
    assert_eq!(one(|a| a.lw(Register::A, None)).len(), 1);
    assert_eq!(one(|a| a.sw(Some(1), Register::A)).len(), 3);
    assert_eq!(one(|a| a.sw(None, Register::A)).len(), 1);
    assert_eq!(one(|a| a.push(r).unwrap()).len(), 1);
    assert_eq!(one(|a| a.push(i).unwrap()).len(), 2);
    assert_eq!(one(|a| a.pop(Register::A)).len(), 1);
    assert_eq!(one(|a| a.lda(1)).len(), 3);
    assert_eq!(one(|a| a.jnz(r).unwrap()).len(), 1);
    assert_eq!(one(|a| a.jnz(i).unwrap()).len(), 2);
    assert_eq!(one(|a| a.inb(Register::A, r).unwrap()).len(), 2);
    assert_eq!(one(|a| a.outb(i, Register::A).unwrap()).len(), 2);
}

#[test]
fn program_is_the_concatenation_of_its_instructions() {
    let parts: Vec<Vec<u8>> = vec![
        one(|a| a.lda(0x1234)),
        one(|a| a.mw(Register::C, RegisterOrImm::Imm8(9)).unwrap()),
        one(|a| a.push(RegisterOrImm::Reg(Register::C)).unwrap()),
        one(|a| a.sw(None, Register::D)),
        one(|a| a.cmp(Register::C, RegisterOrImm::Imm8(0)).unwrap()),
        one(|a| a.jnz(RegisterOrImm::Reg(Register::Z)).unwrap()),
    ];
    let mut a = Assembler::new();
    a.lda(0x1234);
    a.mw(Register::C, RegisterOrImm::Imm8(9)).unwrap();
    a.push(RegisterOrImm::Reg(Register::C)).unwrap();
    a.sw(None, Register::D);
    a.cmp(Register::C, RegisterOrImm::Imm8(0)).unwrap();
    a.jnz(RegisterOrImm::Reg(Register::Z)).unwrap();
    assert_eq!(a.bytes(), parts.concat());
}

#[test]
fn refused_call_inside_a_program_leaves_no_trace() {
    let mut a = Assembler::new();
    a.mw(Register::A, RegisterOrImm::Imm8(3)).unwrap();
    assert!(a.add(Register::A, RegisterOrImm::Imm16(0x0100)).is_err());
    assert!(a.outb(RegisterOrImm::Imm16(0x0100), Register::A).is_err());
    a.pop(Register::B);
    assert_eq!(a.bytes(), vec![0x00, 0x03, 0x49]);
}
