use crate::isa::{
    accepts, addr_hi, addr_lo, encoding, lemma_program_encoding_push, memory_form, mode_byte,
    program_encoding, reg_or_imm_form, single_operand_form, valid, EncodeError,
    Instruction, Register, RegisterOrImm, CLASS_ADC, CLASS_ADD, CLASS_AND, CLASS_CMP, CLASS_IN,
    CLASS_JNZ, CLASS_LDA, CLASS_LOAD, CLASS_MOVE, CLASS_NOR, CLASS_OR, CLASS_OUT, CLASS_POP,
    CLASS_PUSH, CLASS_SBB, CLASS_STORE, MODE_REGISTER,
};
use vstd::prelude::*;

verus! {

/// The outcome of one encoding call that built `before` into `after` and
/// returned `r`: a valid instruction succeeds and appends exactly its
/// encoding; an invalid one fails and leaves the image as it was.
pub open spec fn emits(
    before: Seq<u8>,
    after: Seq<u8>,
    i: Instruction,
    r: Result<(), EncodeError>,
) -> bool {
    if valid(i) {
        r is Ok && after == before + encoding(i)
    } else {
        r == Err::<(), EncodeError>(EncodeError::InvalidOperand) && after == before
    }
}

/// Calls extend the program in call order. When the image holds the encoding
/// of the program `p`, a call that accepts the instruction `i` leaves the
/// encoding of `p` followed by `i`, and a call that refuses it leaves the
/// encoding of `p` unchanged. So from `new`, a run of calls builds exactly the
/// encodings of the accepted instructions, concatenated in call order.
pub proof fn lemma_emits_extends_program(
    p: Seq<Instruction>,
    after: Seq<u8>,
    i: Instruction,
    r: Result<(), EncodeError>,
)
    requires
        emits(program_encoding(p), after, i, r),
    ensures
        valid(i) ==> r is Ok && after == program_encoding(p.push(i)),
        !valid(i) ==> r is Err && after == program_encoding(p),
{
    lemma_program_encoding_push(p, i);
}

/// Accumulates the machine code of the instructions given to it, in order.
pub struct Assembler {
    buffer: Vec<u8>,
}

impl View for Assembler {
    type V = Seq<u8>;

    /// The program image built so far.
    closed spec fn view(&self) -> Seq<u8> {
        self.buffer@
    }
}

impl Assembler {
    /// An assembler with an empty program image.
    pub fn new() -> (r: Assembler)
        ensures
            r@ == Seq::<u8>::empty(),
    {
        Assembler { buffer: Vec::new() }
    }

    /// A copy of the program image built so far.
    pub fn bytes(&self) -> (r: Vec<u8>)
        ensures
            r@ == self@,
    {
        let r = self.buffer.clone();
        assert(r@ =~= self@);
        r
    }

    /// The first byte of an instruction: class, mode bit and register code.
    fn first_byte(class: u8, register_mode: bool, primary: Register) -> (r: u8)
        ensures
            r == mode_byte(class, register_mode, primary),
    {
        let mode = if register_mode {
            MODE_REGISTER
        } else {
            0
        };
        (class << 4) | mode | primary.code()
    }

    fn emit_u8(&mut self, b: u8)
        ensures
            final(self)@ == old(self)@.push(b),
    {
        self.buffer.push(b);
    }

    /// Appends a 16-bit value as two bytes, low byte first.
    fn emit_u16(&mut self, value: u16)
        ensures
            final(self)@ == old(self)@ + seq![addr_lo(value), addr_hi(value)],
    {
        self.emit_u8((value & 0xff) as u8);
        self.emit_u8((value >> 8) as u8);
        assert(final(self)@ =~= old(self)@ + seq![addr_lo(value), addr_hi(value)]);
    }

    fn emit_reg_or_imm(&mut self, class: u8, primary: Register, operand: RegisterOrImm) -> (r:
        Result<(), EncodeError>)
        requires
            class < 16,
        ensures
            accepts(operand) ==> r is Ok && final(self)@ == old(self)@ + reg_or_imm_form(
                class,
                primary,
                operand,
            ),
            !accepts(operand) ==> r == Err::<(), EncodeError>(EncodeError::InvalidOperand)
                && final(self)@ == old(self)@,
    {
        match operand {
            RegisterOrImm::Reg(reg) => {
                self.emit_u8(Self::first_byte(class, true, primary));
                self.emit_u8(reg.code());
            },
            RegisterOrImm::Imm8(value) => {
                self.emit_u8(Self::first_byte(class, false, primary));
                self.emit_u8(value);
            },
            RegisterOrImm::Imm16(_) => {
                return Err(EncodeError::InvalidOperand);
            },
        }
        assert(final(self)@ =~= old(self)@ + reg_or_imm_form(class, primary, operand));
        Ok(())
    }

    fn emit_single(&mut self, class: u8, operand: RegisterOrImm) -> (r: Result<(), EncodeError>)
        requires
            class < 16,
        ensures
            accepts(operand) ==> r is Ok && final(self)@ == old(self)@ + single_operand_form(
                class,
                operand,
            ),
            !accepts(operand) ==> r == Err::<(), EncodeError>(EncodeError::InvalidOperand)
                && final(self)@ == old(self)@,
    {
        match operand {
            RegisterOrImm::Reg(reg) => {
                self.emit_u8(Self::first_byte(class, true, reg));
            },
            RegisterOrImm::Imm8(value) => {
                self.emit_u8(class << 4);
                self.emit_u8(value);
            },
            RegisterOrImm::Imm16(_) => {
                return Err(EncodeError::InvalidOperand);
            },
        }
        assert(final(self)@ =~= old(self)@ + single_operand_form(class, operand));
        Ok(())
    }

    fn emit_memory(&mut self, class: u8, r: Register, addr: Option<u16>)
        requires
            class < 16,
        ensures
            final(self)@ == old(self)@ + memory_form(class, r, addr),
    {
        match addr {
            Some(a) => {
                self.emit_u8(Self::first_byte(class, false, r));
                self.emit_u16(a);
            },
            None => {
                self.emit_u8(Self::first_byte(class, true, r));
            },
        }
        assert(final(self)@ =~= old(self)@ + memory_form(class, r, addr));
    }

    /// Moves a register or an 8-bit immediate `src` into the register `dest`.
    /// A 16-bit immediate is refused.
    pub fn mw(&mut self, dest: Register, src: RegisterOrImm) -> (r: Result<(), EncodeError>)
        ensures
            emits(old(self)@, final(self)@, (Instruction::Mw { dest, src }), r),
    {
        self.emit_reg_or_imm(CLASS_MOVE, dest, src)
    }
    /// Loads a byte from memory into the register `dest`: from the address
    /// `src` where it is given, from the address held in HL otherwise.
    pub fn lw(&mut self, dest: Register, src: Option<u16>)
        ensures
            final(self)@ == old(self)@ + encoding((Instruction::Lw { dest, addr: src })),
    {
        self.emit_memory(CLASS_LOAD, dest, src)
    }

    /// Stores the register `src` into memory: at the address `dest` where it
    /// is given, at the address held in HL otherwise.
    pub fn sw(&mut self, dest: Option<u16>, src: Register)
        ensures
            final(self)@ == old(self)@ + encoding((Instruction::Sw { addr: dest, src })),
    {
        self.emit_memory(CLASS_STORE, src, dest)
    }

    /// Pushes a register or an 8-bit immediate onto the stack. A 16-bit
    /// immediate is refused.
    pub fn push(&mut self, src: RegisterOrImm) -> (r: Result<(), EncodeError>)
        ensures
            emits(old(self)@, final(self)@, (Instruction::Push { src }), r),
    {
        self.emit_single(CLASS_PUSH, src)
    }

    /// Pops a value from the stack into the register `dest`.
    pub fn pop(&mut self, dest: Register)
        ensures
            final(self)@ == old(self)@ + encoding((Instruction::Pop { dest })),
    {
        self.emit_u8(Self::first_byte(CLASS_POP, true, dest));
        assert(final(self)@ =~= old(self)@ + encoding((Instruction::Pop { dest })));
    }

    /// Loads the 16-bit address `addr` into HL.
    pub fn lda(&mut self, addr: u16)
        ensures
            final(self)@ == old(self)@ + encoding((Instruction::Lda { addr })),
    {
        self.emit_u8(CLASS_LDA << 4);
        self.emit_u16(addr);
        assert(final(self)@ =~= old(self)@ + encoding((Instruction::Lda { addr })));
    }

    /// Jumps to the address held in HL when the register or 8-bit immediate
    /// `src` is not zero. A 16-bit immediate is refused.
    pub fn jnz(&mut self, src: RegisterOrImm) -> (r: Result<(), EncodeError>)
        ensures
            emits(old(self)@, final(self)@, (Instruction::Jnz { src }), r),
    {
        self.emit_single(CLASS_JNZ, src)
    }

    /// Reads a byte from the port `src`, a register or an 8-bit immediate,
    /// into the register `dest`. A 16-bit immediate is refused.
    pub fn inb(&mut self, dest: Register, src: RegisterOrImm) -> (r: Result<(), EncodeError>)
        ensures
            emits(old(self)@, final(self)@, (Instruction::Inb { dest, port: src }), r),
    {
        self.emit_reg_or_imm(CLASS_IN, dest, src)
    }

    /// Writes the register `src` to the port `dest`, a register or an 8-bit
    /// immediate. A 16-bit immediate is refused.
    pub fn outb(&mut self, dest: RegisterOrImm, src: Register) -> (r: Result<(), EncodeError>)
        ensures
            emits(old(self)@, final(self)@, (Instruction::Outb { port: dest, src }), r),
    {
        self.emit_reg_or_imm(CLASS_OUT, src, dest)
    }

    /// Adds the register or 8-bit immediate `src` to the register `dest`. A 16-bit immediate is refused.
    pub fn add(&mut self, dest: Register, src: RegisterOrImm) -> (r: Result<(), EncodeError>)
        ensures
            emits(old(self)@, final(self)@, (Instruction::Add { dest, src }), r),
    {
        self.emit_reg_or_imm(CLASS_ADD, dest, src)
    }

    /// Adds with carry the register or 8-bit immediate `src` to the register
    /// `dest`. A 16-bit immediate is refused.
    pub fn adc(&mut self, dest: Register, src: RegisterOrImm) -> (r: Result<(), EncodeError>)
        ensures
            emits(old(self)@, final(self)@, (Instruction::Adc { dest, src }), r),
    {
        self.emit_reg_or_imm(CLASS_ADC, dest, src)
    }

    /// Bitwise AND of the register `dest` with the register or 8-bit immediate
    /// `src`, into `dest`. A 16-bit immediate is refused.
    pub fn and(&mut self, dest: Register, src: RegisterOrImm) -> (r: Result<(), EncodeError>)
        ensures
            emits(old(self)@, final(self)@, (Instruction::And { dest, src }), r),
    {
        self.emit_reg_or_imm(CLASS_AND, dest, src)
    }

    /// Bitwise OR of the register `dest` with the register or 8-bit immediate
    /// `src`, into `dest`. A 16-bit immediate is refused.
    pub fn or(&mut self, dest: Register, src: RegisterOrImm) -> (r: Result<(), EncodeError>)
        ensures
            emits(old(self)@, final(self)@, (Instruction::Or { dest, src }), r),
    {
        self.emit_reg_or_imm(CLASS_OR, dest, src)
    }

    /// Bitwise NOR of the register `dest` with the register or 8-bit immediate
    /// `src`, into `dest`. A 16-bit immediate is refused.
    pub fn nor(&mut self, dest: Register, src: RegisterOrImm) -> (r: Result<(), EncodeError>)
        ensures
            emits(old(self)@, final(self)@, (Instruction::Nor { dest, src }), r),
    {
        self.emit_reg_or_imm(CLASS_NOR, dest, src)
    }

    /// Compares the register `left` with the register or 8-bit immediate
    /// `right`; the flags are the CPU's concern. A 16-bit immediate is refused.
    pub fn cmp(&mut self, left: Register, right: RegisterOrImm) -> (r: Result<(), EncodeError>)
        ensures
            emits(old(self)@, final(self)@, (Instruction::Cmp { left, right }), r),
    {
        self.emit_reg_or_imm(CLASS_CMP, left, right)
    }

    /// Subtracts with borrow the register or 8-bit immediate `src` from the
    /// register `dest`. A 16-bit immediate is refused.
    pub fn sbb(&mut self, dest: Register, src: RegisterOrImm) -> (r: Result<(), EncodeError>)
        ensures
            emits(old(self)@, final(self)@, (Instruction::Sbb { dest, src }), r),
    {
        self.emit_reg_or_imm(CLASS_SBB, dest, src)
    }
}

} // verus!
