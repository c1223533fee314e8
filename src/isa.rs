use vstd::prelude::*;

verus! {

/// One of the six general-purpose registers. Its hardware code (0 to 5) is
/// given explicitly by `reg_code`, since it is part of the machine encoding.
#[derive(Copy, Clone, Debug, PartialEq, Eq, Structural)]
pub enum Register {
    A,
    B,
    C,
    D,
    H,
    Z,
}

/// An operand: a register, an 8-bit immediate or a 16-bit immediate.
#[derive(Copy, Clone, Debug, PartialEq, Eq, Structural)]
pub enum RegisterOrImm {
    Reg(Register),
    Imm8(u8),
    Imm16(u16),
}

/// The one failure of the encoder: an operand variant that the instruction
/// does not accept. The buffer is left untouched when it is returned.
#[derive(Copy, Clone, Debug, PartialEq, Eq, Structural)]
pub enum EncodeError {
    InvalidOperand,
}

/// The 3-bit hardware code of a register.
pub open spec fn reg_code(r: Register) -> u8 {
    match r {
        Register::A => 0,
        Register::B => 1,
        Register::C => 2,
        Register::D => 3,
        Register::H => 4,
        Register::Z => 5,
    }
}

/// The register whose hardware code is `c`, if any.
pub open spec fn reg_of_code(c: u8) -> Option<Register> {
    if c == 0 {
        Some(Register::A)
    } else if c == 1 {
        Some(Register::B)
    } else if c == 2 {
        Some(Register::C)
    } else if c == 3 {
        Some(Register::D)
    } else if c == 4 {
        Some(Register::H)
    } else if c == 5 {
        Some(Register::Z)
    } else {
        None
    }
}

impl Register {
    /// The register's 3-bit hardware code.
    pub fn code(self) -> (r: u8)
        ensures
            r == reg_code(self),
            r < 6,
    {
        match self {
            Register::A => 0,
            Register::B => 1,
            Register::C => 2,
            Register::D => 3,
            Register::H => 4,
            Register::Z => 5,
        }
    }
}

/// Opcode class of the move-register instruction (no class nibble).
pub const CLASS_MOVE: u8 = 0x0;
/// Opcode class of the load instruction.
pub const CLASS_LOAD: u8 = 0x1;
/// Opcode class of the store instruction.
pub const CLASS_STORE: u8 = 0x2;
/// Opcode class of the push instruction.
pub const CLASS_PUSH: u8 = 0x3;
/// Opcode class of the pop instruction.
pub const CLASS_POP: u8 = 0x4;
/// Opcode class of the load-address-into-HL instruction.
pub const CLASS_LDA: u8 = 0x5;
/// Opcode class of the jump-if-nonzero instruction.
pub const CLASS_JNZ: u8 = 0x6;
/// Opcode class of the port input instruction.
pub const CLASS_IN: u8 = 0x7;
/// Opcode class of the port output instruction.
pub const CLASS_OUT: u8 = 0x8;
/// Opcode class of the add instruction.
pub const CLASS_ADD: u8 = 0x9;
/// Opcode class of the add-with-carry instruction.
pub const CLASS_ADC: u8 = 0xA;
/// Opcode class of the bitwise-and instruction.
pub const CLASS_AND: u8 = 0xB;
/// Opcode class of the bitwise-or instruction.
pub const CLASS_OR: u8 = 0xC;
/// Opcode class of the bitwise-nor instruction.
pub const CLASS_NOR: u8 = 0xD;
/// Opcode class of the compare instruction.
pub const CLASS_CMP: u8 = 0xE;
/// Opcode class of the subtract-with-borrow instruction.
pub const CLASS_SBB: u8 = 0xF;

/// Bit 3 of the first byte: set when the operand is a register.
pub const MODE_REGISTER: u8 = 0x08;

/// A symbolic instruction: the mnemonic together with its operands. It is the
/// model that the encoder's contracts speak of.
#[allow(inconsistent_fields)]
#[derive(Copy, Clone, Debug, PartialEq, Eq, Structural)]
pub enum Instruction {
    Mw { dest: Register, src: RegisterOrImm },
    Lw { dest: Register, addr: Option<u16> },
    Sw { addr: Option<u16>, src: Register },
    Push { src: RegisterOrImm },
    Pop { dest: Register },
    Lda { addr: u16 },
    Jnz { src: RegisterOrImm },
    Inb { dest: Register, port: RegisterOrImm },
    Outb { port: RegisterOrImm, src: Register },
    Add { dest: Register, src: RegisterOrImm },
    Adc { dest: Register, src: RegisterOrImm },
    And { dest: Register, src: RegisterOrImm },
    Or { dest: Register, src: RegisterOrImm },
    Nor { dest: Register, src: RegisterOrImm },
    Cmp { left: Register, right: RegisterOrImm },
    Sbb { dest: Register, src: RegisterOrImm },
}

/// Whether an instruction that takes a register or an 8-bit immediate accepts
/// the operand: a 16-bit immediate is refused.
pub open spec fn accepts(o: RegisterOrImm) -> bool {
    !(o is Imm16)
}

/// Whether every operand of the instruction is of a variant it accepts.
pub open spec fn valid(i: Instruction) -> bool {
    match i {
        Instruction::Mw { src, .. } => accepts(src),
        Instruction::Push { src } => accepts(src),
        Instruction::Jnz { src } => accepts(src),
        Instruction::Inb { port, .. } => accepts(port),
        Instruction::Outb { port, .. } => accepts(port),
        Instruction::Add { src, .. } => accepts(src),
        Instruction::Adc { src, .. } => accepts(src),
        Instruction::And { src, .. } => accepts(src),
        Instruction::Or { src, .. } => accepts(src),
        Instruction::Nor { src, .. } => accepts(src),
        Instruction::Cmp { right, .. } => accepts(right),
        Instruction::Sbb { src, .. } => accepts(src),
        _ => true,
    }
}

/// The mode bit: `MODE_REGISTER` in register mode, zero in immediate mode.
pub open spec fn mode_bit(register_mode: bool) -> u8 {
    if register_mode {
        MODE_REGISTER
    } else {
        0
    }
}

/// The first byte of an instruction: class in the high nibble, the mode bit,
/// and the primary register's code in the low three bits.
pub open spec fn mode_byte(class: u8, register_mode: bool, primary: Register) -> u8 {
    (class << 4u8) | mode_bit(register_mode) | reg_code(primary)
}

/// Low byte of a 16-bit address.
pub open spec fn addr_lo(a: u16) -> u8 {
    (a & 0xff) as u8
}

/// High byte of a 16-bit address.
pub open spec fn addr_hi(a: u16) -> u8 {
    (a >> 8u16) as u8
}

/// The address whose little-endian bytes are `lo`, `hi`.
pub open spec fn addr_of(lo: u8, hi: u8) -> u16 {
    (lo as u16) | ((hi as u16) << 8u16)
}

/// The register-or-immediate form: the mode byte with `primary`, then the
/// operand's register code or the immediate itself.
pub open spec fn reg_or_imm_form(class: u8, primary: Register, operand: RegisterOrImm) -> Seq<u8> {
    match operand {
        RegisterOrImm::Reg(r) => seq![mode_byte(class, true, primary), reg_code(r)],
        RegisterOrImm::Imm8(v) => seq![mode_byte(class, false, primary), v],
        RegisterOrImm::Imm16(_) => Seq::empty(),
    }
}

/// The single-operand form: a register is packed into the first byte, an
/// immediate follows a first byte that holds the class alone.
pub open spec fn single_operand_form(class: u8, operand: RegisterOrImm) -> Seq<u8> {
    match operand {
        RegisterOrImm::Reg(r) => seq![mode_byte(class, true, r)],
        RegisterOrImm::Imm8(v) => seq![class << 4u8, v],
        RegisterOrImm::Imm16(_) => Seq::empty(),
    }
}

/// The memory form: an explicit address follows as two little-endian bytes;
/// without one the address is taken from HL and the mode bit is set.
pub open spec fn memory_form(class: u8, r: Register, addr: Option<u16>) -> Seq<u8> {
    match addr {
        Some(a) => seq![mode_byte(class, false, r), addr_lo(a), addr_hi(a)],
        None => seq![mode_byte(class, true, r)],
    }
}

/// The machine code of an instruction.
pub open spec fn encoding(i: Instruction) -> Seq<u8> {
    match i {
        Instruction::Mw { dest, src } => reg_or_imm_form(CLASS_MOVE, dest, src),
        Instruction::Lw { dest, addr } => memory_form(CLASS_LOAD, dest, addr),
        Instruction::Sw { addr, src } => memory_form(CLASS_STORE, src, addr),
        Instruction::Push { src } => single_operand_form(CLASS_PUSH, src),
        Instruction::Pop { dest } => seq![mode_byte(CLASS_POP, true, dest)],
        Instruction::Lda { addr } => seq![CLASS_LDA << 4u8, addr_lo(addr), addr_hi(addr)],
        Instruction::Jnz { src } => single_operand_form(CLASS_JNZ, src),
        Instruction::Inb { dest, port } => reg_or_imm_form(CLASS_IN, dest, port),
        Instruction::Outb { port, src } => reg_or_imm_form(CLASS_OUT, src, port),
        Instruction::Add { dest, src } => reg_or_imm_form(CLASS_ADD, dest, src),
        Instruction::Adc { dest, src } => reg_or_imm_form(CLASS_ADC, dest, src),
        Instruction::And { dest, src } => reg_or_imm_form(CLASS_AND, dest, src),
        Instruction::Or { dest, src } => reg_or_imm_form(CLASS_OR, dest, src),
        Instruction::Nor { dest, src } => reg_or_imm_form(CLASS_NOR, dest, src),
        Instruction::Cmp { left, right } => reg_or_imm_form(CLASS_CMP, left, right),
        Instruction::Sbb { dest, src } => reg_or_imm_form(CLASS_SBB, dest, src),
    }
}

/// The byte count of each instruction form, as the instruction table gives it:
/// three with an explicit address, one for a register packed into the first
/// byte or an HL-addressed access, two otherwise.
pub open spec fn table_len(i: Instruction) -> nat {
    match i {
        Instruction::Lw { addr, .. } => if addr is Some { 3 } else { 1 },
        Instruction::Sw { addr, .. } => if addr is Some { 3 } else { 1 },
        Instruction::Lda { .. } => 3,
        Instruction::Pop { .. } => 1,
        Instruction::Push { src } => if src is Reg { 1 } else { 2 },
        Instruction::Jnz { src } => if src is Reg { 1 } else { 2 },
        _ => 2,
    }
}

/// The machine code of a program: each instruction's encoding, in order.
pub open spec fn program_encoding(p: Seq<Instruction>) -> Seq<u8>
    decreases p.len(),
{
    if p.len() == 0 {
        Seq::empty()
    } else {
        encoding(p[0]) + program_encoding(p.skip(1))
    }
}

/// The operand held by a second byte: a register code in register mode, the
/// immediate itself otherwise.
pub open spec fn operand_of(register_mode: bool, b: u8) -> Option<RegisterOrImm> {
    if register_mode {
        match reg_of_code(b) {
            Some(r) => Some(RegisterOrImm::Reg(r)),
            None => None,
        }
    } else {
        Some(RegisterOrImm::Imm8(b))
    }
}

/// The instruction of a register-or-immediate form of the given class.
pub open spec fn reg_or_imm_instruction(class: u8, p: Register, o: RegisterOrImm) -> Option<
    Instruction,
> {
    if class == CLASS_MOVE {
        Some(Instruction::Mw { dest: p, src: o })
    } else if class == CLASS_IN {
        Some(Instruction::Inb { dest: p, port: o })
    } else if class == CLASS_OUT {
        Some(Instruction::Outb { port: o, src: p })
    } else if class == CLASS_ADD {
        Some(Instruction::Add { dest: p, src: o })
    } else if class == CLASS_ADC {
        Some(Instruction::Adc { dest: p, src: o })
    } else if class == CLASS_AND {
        Some(Instruction::And { dest: p, src: o })
    } else if class == CLASS_OR {
        Some(Instruction::Or { dest: p, src: o })
    } else if class == CLASS_NOR {
        Some(Instruction::Nor { dest: p, src: o })
    } else if class == CLASS_CMP {
        Some(Instruction::Cmp { left: p, right: o })
    } else if class == CLASS_SBB {
        Some(Instruction::Sbb { dest: p, src: o })
    } else {
        None
    }
}

/// Reads a memory-form instruction (load or store) whose first byte has the
/// given class, mode and register.
pub open spec fn decode_memory(b: Seq<u8>, class: u8, register_mode: bool, r: Register) -> Option<
    (Instruction, nat),
> {
    let n: nat = if register_mode {
        1
    } else {
        3
    };
    let addr = if register_mode {
        None
    } else {
        Some(addr_of(b[1], b[2]))
    };
    if b.len() < n {
        None
    } else if class == CLASS_LOAD {
        Some((Instruction::Lw { dest: r, addr }, n))
    } else {
        Some((Instruction::Sw { addr, src: r }, n))
    }
}

/// Reads a single-operand instruction (push or jump-if-nonzero) whose first
/// byte has the given class, mode and register.
pub open spec fn decode_single(b: Seq<u8>, class: u8, register_mode: bool, r: Register) -> Option<
    (Instruction, nat),
> {
    let n: nat = if register_mode {
        1
    } else {
        2
    };
    let o = if register_mode {
        RegisterOrImm::Reg(r)
    } else {
        RegisterOrImm::Imm8(b[1])
    };
    if b.len() < n {
        None
    } else if class == CLASS_PUSH {
        Some((Instruction::Push { src: o }, n))
    } else {
        Some((Instruction::Jnz { src: o }, n))
    }
}

/// Reads a register-or-immediate instruction whose first byte has the given
/// class, mode and register.
pub open spec fn decode_reg_or_imm(b: Seq<u8>, class: u8, register_mode: bool, r: Register) -> Option<
    (Instruction, nat),
> {
    if b.len() < 2 {
        None
    } else {
        match operand_of(register_mode, b[1]) {
            None => None,
            Some(o) => match reg_or_imm_instruction(class, r, o) {
                None => None,
                Some(i) => Some((i, 2)),
            },
        }
    }
}

/// Reads the instruction at the start of `b` whose first byte has the given
/// class, mode and register.
pub open spec fn decode_fields(b: Seq<u8>, class: u8, register_mode: bool, r: Register) -> Option<
    (Instruction, nat),
> {
    if class == CLASS_LOAD || class == CLASS_STORE {
        decode_memory(b, class, register_mode, r)
    } else if class == CLASS_PUSH || class == CLASS_JNZ {
        decode_single(b, class, register_mode, r)
    } else if class == CLASS_POP {
        if register_mode {
            Some((Instruction::Pop { dest: r }, 1))
        } else {
            None
        }
    } else if class == CLASS_LDA {
        if register_mode || b.len() < 3 {
            None
        } else {
            Some((Instruction::Lda { addr: addr_of(b[1], b[2]) }, 3))
        }
    } else {
        decode_reg_or_imm(b, class, register_mode, r)
    }
}

/// Reads the instruction at the start of `b` by the bit fields of its first
/// byte, with the number of bytes it takes; `None` where `b` does not start
/// with a well-formed instruction.
#[verifier::opaque]
pub open spec fn decode(b: Seq<u8>) -> Option<(Instruction, nat)> {
    if b.len() == 0 {
        None
    } else {
        match reg_of_code(b[0] & 7u8) {
            None => None,
            Some(r) => decode_fields(b, b[0] >> 4u8, b[0] & MODE_REGISTER == MODE_REGISTER, r),
        }
    }
}

/// Reads a whole program image, instruction by instruction; `None` where some
/// part of it is not a well-formed instruction.
pub open spec fn decode_program(b: Seq<u8>) -> Option<Seq<Instruction>>
    decreases b.len(),
{
    if b.len() == 0 {
        Some(Seq::empty())
    } else {
        match decode(b) {
            Some((i, n)) => if 0 < n <= b.len() {
                match decode_program(b.skip(n as int)) {
                    Some(rest) => Some(seq![i] + rest),
                    None => None,
                }
            } else {
                None
            },
            None => None,
        }
    }
}

proof fn lemma_reg_code_round_trip(r: Register)
    ensures
        reg_of_code(reg_code(r)) == Some(r),
        reg_code(r) < 6,
{
}

proof fn lemma_mode_byte_fields(class: u8, register_mode: bool, r: Register)
    requires
        class < 16,
    ensures
        mode_byte(class, register_mode, r) >> 4u8 == class,
        (mode_byte(class, register_mode, r) & MODE_REGISTER == MODE_REGISTER) == register_mode,
        mode_byte(class, register_mode, r) & 7u8 == reg_code(r),
        mode_byte(class, false, Register::A) == class << 4u8,
{
    let c = reg_code(r);
    let m = mode_bit(register_mode);
    assert(c < 6);
    assert(m == 0 || m == 8);
    assert(((class << 4u8) | m | c) >> 4u8 == class) by (bit_vector)
        requires
            class < 16,
            c < 6,
            m == 0 || m == 8,
    ;
    assert(((class << 4u8) | m | c) & 8u8 == m) by (bit_vector)
        requires
            class < 16,
            c < 6,
            m == 0 || m == 8,
    ;
    assert(((class << 4u8) | m | c) & 7u8 == c) by (bit_vector)
        requires
            class < 16,
            c < 6,
            m == 0 || m == 8,
    ;
    assert((class << 4u8) | 0u8 | 0u8 == class << 4u8) by (bit_vector);
}

proof fn lemma_addr_round_trip(a: u16)
    ensures
        addr_of(addr_lo(a), addr_hi(a)) == a,
{
    assert((((a & 0xff) as u8) as u16) | ((((a >> 8u16) as u8) as u16) << 8u16) == a)
        by (bit_vector);
}

proof fn lemma_reg_or_imm_round_trip(class: u8, p: Register, o: RegisterOrImm, rest: Seq<u8>)
    requires
        class < 16,
        accepts(o),
        class != CLASS_LOAD && class != CLASS_STORE && class != CLASS_PUSH,
        class != CLASS_JNZ && class != CLASS_POP && class != CLASS_LDA,
        reg_or_imm_instruction(class, p, o) is Some,
    ensures
        reg_or_imm_form(class, p, o).len() == 2,
        decode(reg_or_imm_form(class, p, o) + rest) == Some(
            (reg_or_imm_instruction(class, p, o)->Some_0, 2nat),
        ),
{
    reveal(decode);
    let b = reg_or_imm_form(class, p, o) + rest;
    lemma_mode_byte_fields(class, o is Reg, p);
    lemma_reg_code_round_trip(p);
    assert(b[0] == mode_byte(class, o is Reg, p));
    match o {
        RegisterOrImm::Reg(r) => {
            lemma_reg_code_round_trip(r);
            assert(b[1] == reg_code(r));
        },
        _ => {
            assert(b[1] == o->Imm8_0);
        },
    }
}

proof fn lemma_memory_round_trip(class: u8, r: Register, addr: Option<u16>, rest: Seq<u8>)
    requires
        class == CLASS_LOAD || class == CLASS_STORE,
    ensures
        decode(memory_form(class, r, addr) + rest) == Some(
            (
                if class == CLASS_LOAD {
                    Instruction::Lw { dest: r, addr }
                } else {
                    Instruction::Sw { addr, src: r }
                },
                memory_form(class, r, addr).len(),
            ),
        ),
{
    reveal(decode);
    let b = memory_form(class, r, addr) + rest;
    lemma_mode_byte_fields(class, addr is None, r);
    lemma_reg_code_round_trip(r);
    assert(b[0] == mode_byte(class, addr is None, r));
    if let Some(a) = addr {
        lemma_addr_round_trip(a);
        assert(b[1] == addr_lo(a) && b[2] == addr_hi(a));
    }
}

proof fn lemma_single_round_trip(class: u8, o: RegisterOrImm, rest: Seq<u8>)
    requires
        class == CLASS_PUSH || class == CLASS_JNZ,
        accepts(o),
    ensures
        decode(single_operand_form(class, o) + rest) == Some(
            (
                if class == CLASS_PUSH {
                    Instruction::Push { src: o }
                } else {
                    Instruction::Jnz { src: o }
                },
                single_operand_form(class, o).len(),
            ),
        ),
{
    reveal(decode);
    let b = single_operand_form(class, o) + rest;
    match o {
        RegisterOrImm::Reg(r) => {
            lemma_mode_byte_fields(class, true, r);
            lemma_reg_code_round_trip(r);
            assert(b[0] == mode_byte(class, true, r));
        },
        _ => {
            lemma_mode_byte_fields(class, false, Register::A);
            assert(b[0] == mode_byte(class, false, Register::A));
            assert(b[1] == o->Imm8_0);
        },
    }
}

/// Every valid instruction's encoding takes exactly the byte count of its form
/// in the instruction table, which is 1, 2 or 3.
pub proof fn lemma_encoding_len(i: Instruction)
    requires
        valid(i),
    ensures
        encoding(i).len() == table_len(i),
        1 <= table_len(i) <= 3,
{
}

/// Decoding the encoding of a valid instruction, whatever bytes follow it,
/// gives back that instruction with all its operands, and the length of its
/// encoding.
pub proof fn lemma_decode_encoding(i: Instruction, rest: Seq<u8>)
    requires
        valid(i),
    ensures
        decode(encoding(i) + rest) == Some((i, encoding(i).len())),
{
    match i {
        Instruction::Mw { dest, src } => lemma_reg_or_imm_round_trip(CLASS_MOVE, dest, src, rest),
        Instruction::Inb { dest, port } => lemma_reg_or_imm_round_trip(CLASS_IN, dest, port, rest),
        Instruction::Outb { port, src } => lemma_reg_or_imm_round_trip(CLASS_OUT, src, port, rest),
        Instruction::Add { dest, src } => lemma_reg_or_imm_round_trip(CLASS_ADD, dest, src, rest),
        Instruction::Adc { dest, src } => lemma_reg_or_imm_round_trip(CLASS_ADC, dest, src, rest),
        Instruction::And { dest, src } => lemma_reg_or_imm_round_trip(CLASS_AND, dest, src, rest),
        Instruction::Or { dest, src } => lemma_reg_or_imm_round_trip(CLASS_OR, dest, src, rest),
        Instruction::Nor { dest, src } => lemma_reg_or_imm_round_trip(CLASS_NOR, dest, src, rest),
        Instruction::Cmp { left, right } => lemma_reg_or_imm_round_trip(
            CLASS_CMP,
            left,
            right,
            rest,
        ),
        Instruction::Sbb { dest, src } => lemma_reg_or_imm_round_trip(CLASS_SBB, dest, src, rest),
        Instruction::Lw { dest, addr } => lemma_memory_round_trip(CLASS_LOAD, dest, addr, rest),
        Instruction::Sw { addr, src } => lemma_memory_round_trip(CLASS_STORE, src, addr, rest),
        Instruction::Push { src } => lemma_single_round_trip(CLASS_PUSH, src, rest),
        Instruction::Jnz { src } => lemma_single_round_trip(CLASS_JNZ, src, rest),
        Instruction::Pop { dest } => {
            reveal(decode);
            let b = encoding(i) + rest;
            lemma_mode_byte_fields(CLASS_POP, true, dest);
            lemma_reg_code_round_trip(dest);
            assert(b[0] == mode_byte(CLASS_POP, true, dest));
        },
        Instruction::Lda { addr } => {
            reveal(decode);
            let b = encoding(i) + rest;
            lemma_mode_byte_fields(CLASS_LDA, false, Register::A);
            lemma_addr_round_trip(addr);
            assert(b[0] == mode_byte(CLASS_LDA, false, Register::A));
            assert(b[1] == addr_lo(addr) && b[2] == addr_hi(addr));
        },
    }
}

/// Encoding a program made of `a` followed by `b` gives the encoding of `a`
/// followed by the encoding of `b`: nothing is reordered or merged.
pub proof fn lemma_program_encoding_concat(a: Seq<Instruction>, b: Seq<Instruction>)
    ensures
        program_encoding(a + b) == program_encoding(a) + program_encoding(b),
    decreases a.len(),
{
    if a.len() == 0 {
        assert(a + b =~= b);
        assert(program_encoding(a) + program_encoding(b) =~= program_encoding(b));
    } else {
        assert((a + b).skip(1) =~= a.skip(1) + b);
        assert((a + b)[0] == a[0]);
        lemma_program_encoding_concat(a.skip(1), b);
        assert(encoding(a[0]) + (program_encoding(a.skip(1)) + program_encoding(b)) =~= (encoding(
            a[0],
        ) + program_encoding(a.skip(1))) + program_encoding(b));
    }
}

/// Appending one instruction to a program appends its encoding to the
/// program's encoding.
pub proof fn lemma_program_encoding_push(p: Seq<Instruction>, i: Instruction)
    ensures
        program_encoding(p.push(i)) == program_encoding(p) + encoding(i),
{
    let one = seq![i];
    assert(p.push(i) =~= p + one);
    lemma_program_encoding_concat(p, one);
    assert(one.skip(1) =~= Seq::<Instruction>::empty());
    assert(program_encoding(one.skip(1)) == Seq::<u8>::empty());
    assert(one[0] == i);
    assert(program_encoding(one) =~= encoding(i));
}

/// Decoding the image of a program of valid instructions, instruction by
/// instruction, gives back the program.
pub proof fn lemma_decode_program(p: Seq<Instruction>)
    requires
        forall|k: int| 0 <= k < p.len() ==> valid(#[trigger] p[k]),
    ensures
        decode_program(program_encoding(p)) == Some(p),
    decreases p.len(),
{
    if p.len() > 0 {
        let e = encoding(p[0]);
        let tail = program_encoding(p.skip(1));
        lemma_decode_encoding(p[0], tail);
        lemma_encoding_len(p[0]);
        assert((e + tail).skip(e.len() as int) =~= tail);
        assert forall|k: int| 0 <= k < p.skip(1).len() implies valid(#[trigger] p.skip(1)[k]) by {
            assert(p.skip(1)[k] == p[k + 1]);
        }
        lemma_decode_program(p.skip(1));
        assert(seq![p[0]] + p.skip(1) =~= p);
    }
}

} // verus!
