use vstd::prelude::*;

verus! {

/// Instruction mnemonic. Load/store, register transfers, logical operations,
/// arithmetic, register increment/decrement, shifts and the real status-flag
/// instructions are complete; memory increment/decrement, stack push/pop and
/// all control-flow instructions are deliberate stubs with no effect, and
/// CLD/SED/CLI/SEI only raise a host-visible notification.
#[derive(Clone, Copy, PartialEq, Eq, Structural, Debug)]
pub enum Mnemonic {
    Lda,
    Ldx,
    Ldy,
    Sta,
    Sty,
    Stx,
    Tax,
    Tay,
    Txa,
    Tya,
    Tsx,
    Txs,
    Pha,
    Php,
    Pla,
    Plp,
    And,
    Eor,
    Ora,
    Bit,
    Adc,
    Sbc,
    Cmp,
    Cpx,
    Cpy,
    Inc,
    Inx,
    Iny,
    Dec,
    Dex,
    Dey,
    Asl,
    Lsr,
    Rol,
    Ror,
    Jmp,
    Jsr,
    Rts,
    Bcc,
    Bcs,
    Beq,
    Bmi,
    Bne,
    Bpl,
    Bvc,
    Bvs,
    Clc,
    Cld,
    Cli,
    Clv,
    Sec,
    Sed,
    Sei,
    Brk,
    Nop,
    Rti,
}

/// Addressing mode: determines the micro-step sequence an instruction runs,
/// one step per tick.
#[derive(Clone, Copy, PartialEq, Eq, Structural, Debug)]
pub enum AddressingMode {
    /// The operand is implied by the instruction; one step.
    Implied,
    /// The operand byte follows the opcode; one step.
    Immediate,
    /// The instruction targets the accumulator instead of memory; one step.
    Accumulator,
    /// One operand byte gives the low half of the effective address, the high
    /// half is zero; two steps.
    ZeroPage,
    /// Two operand bytes give the effective address, low byte first; three
    /// steps.
    Absolute,
    /// One displacement byte follows the opcode (used by the branch stubs);
    /// one step.
    Relative,
}

/// Tags an operation's final micro-step: whether a bus read precedes the
/// operation and whether a bus write follows it (covering read-modify-write
/// instructions such as the shifts).
#[derive(Clone, Copy, PartialEq, Eq, Structural, Debug)]
pub enum AddressingModifier {
    /// Neither a bus read nor a bus write surrounds the operation.
    Plain,
    /// A bus read at the effective address precedes the operation.
    Read,
    /// A bus write at the effective address follows the operation.
    Write,
    /// Both: read before the operation and write after it.
    ReadWrite,
}

impl AddressingModifier {
    pub open spec fn spec_is_read(self) -> bool {
        self == AddressingModifier::Read || self == AddressingModifier::ReadWrite
    }

    pub open spec fn spec_is_write(self) -> bool {
        self == AddressingModifier::Write || self == AddressingModifier::ReadWrite
    }

    #[verifier::when_used_as_spec(spec_is_read)]
    pub fn is_read(self) -> (r: bool)
        ensures
            r == self.spec_is_read(),
    {
        match self {
            AddressingModifier::Read => true,
            AddressingModifier::ReadWrite => true,
            _ => false,
        }
    }

    #[verifier::when_used_as_spec(spec_is_write)]
    pub fn is_write(self) -> (r: bool)
        ensures
            r == self.spec_is_write(),
    {
        match self {
            AddressingModifier::Write => true,
            AddressingModifier::ReadWrite => true,
            _ => false,
        }
    }
}

/// A decode failure: the requested opcode byte or (mnemonic, addressing mode)
/// pair is absent from the table. Fatal to that single instruction only.
#[derive(Clone, Copy, PartialEq, Eq, Structural, Debug)]
pub enum DecodeError {
    /// The byte does not name any (operation, mode) pair.
    UnknownOpcode,
    /// The mnemonic exists but does not support the requested addressing mode.
    WrongAddressingMode,
}

/// The (mnemonic, addressing mode) -> opcode byte matrix. `None` is the
/// sentinel for pairs that do not exist.
pub open spec fn spec_encode(m: Mnemonic, mode: AddressingMode) -> Option<u8> {
    match (m, mode) {
        (Mnemonic::Lda, AddressingMode::Immediate) => Some(0xA9u8),
        (Mnemonic::Lda, AddressingMode::ZeroPage) => Some(0xA5u8),
        (Mnemonic::Lda, AddressingMode::Absolute) => Some(0xADu8),
        (Mnemonic::Ldx, AddressingMode::Immediate) => Some(0xA2u8),
        (Mnemonic::Ldx, AddressingMode::ZeroPage) => Some(0xA6u8),
        (Mnemonic::Ldx, AddressingMode::Absolute) => Some(0xAEu8),
        (Mnemonic::Ldy, AddressingMode::Immediate) => Some(0xA0u8),
        (Mnemonic::Ldy, AddressingMode::ZeroPage) => Some(0xA4u8),
        (Mnemonic::Ldy, AddressingMode::Absolute) => Some(0xACu8),
        (Mnemonic::Sta, AddressingMode::ZeroPage) => Some(0x85u8),
        (Mnemonic::Sta, AddressingMode::Absolute) => Some(0x8Du8),
        (Mnemonic::Sty, AddressingMode::ZeroPage) => Some(0x84u8),
        (Mnemonic::Sty, AddressingMode::Absolute) => Some(0x8Cu8),
        (Mnemonic::Stx, AddressingMode::ZeroPage) => Some(0x86u8),
        (Mnemonic::Stx, AddressingMode::Absolute) => Some(0x8Eu8),
        (Mnemonic::Tax, AddressingMode::Implied) => Some(0xAAu8),
        (Mnemonic::Tay, AddressingMode::Implied) => Some(0xA8u8),
        (Mnemonic::Txa, AddressingMode::Implied) => Some(0x8Au8),
        (Mnemonic::Tya, AddressingMode::Implied) => Some(0x98u8),
        (Mnemonic::Tsx, AddressingMode::Implied) => Some(0xBAu8),
        (Mnemonic::Txs, AddressingMode::Implied) => Some(0x9Au8),
        (Mnemonic::Pha, AddressingMode::Implied) => Some(0x48u8),
        (Mnemonic::Php, AddressingMode::Implied) => Some(0x08u8),
        (Mnemonic::Pla, AddressingMode::Implied) => Some(0x68u8),
        (Mnemonic::Plp, AddressingMode::Implied) => Some(0x28u8),
        (Mnemonic::And, AddressingMode::Immediate) => Some(0x29u8),
        (Mnemonic::And, AddressingMode::ZeroPage) => Some(0x25u8),
        (Mnemonic::And, AddressingMode::Absolute) => Some(0x2Du8),
        (Mnemonic::Eor, AddressingMode::Immediate) => Some(0x49u8),
        (Mnemonic::Eor, AddressingMode::ZeroPage) => Some(0x45u8),
        (Mnemonic::Eor, AddressingMode::Absolute) => Some(0x4Du8),
        (Mnemonic::Ora, AddressingMode::Immediate) => Some(0x09u8),
        (Mnemonic::Ora, AddressingMode::ZeroPage) => Some(0x05u8),
        (Mnemonic::Ora, AddressingMode::Absolute) => Some(0x0Du8),
        (Mnemonic::Bit, AddressingMode::ZeroPage) => Some(0x24u8),
        (Mnemonic::Bit, AddressingMode::Absolute) => Some(0x2Cu8),
        (Mnemonic::Adc, AddressingMode::Immediate) => Some(0x69u8),
        (Mnemonic::Adc, AddressingMode::ZeroPage) => Some(0x65u8),
        (Mnemonic::Adc, AddressingMode::Absolute) => Some(0x6Du8),
        (Mnemonic::Sbc, AddressingMode::Immediate) => Some(0xE9u8),
        (Mnemonic::Sbc, AddressingMode::ZeroPage) => Some(0xE5u8),
        (Mnemonic::Sbc, AddressingMode::Absolute) => Some(0xEDu8),
        (Mnemonic::Cmp, AddressingMode::Immediate) => Some(0xC9u8),
        (Mnemonic::Cmp, AddressingMode::ZeroPage) => Some(0xC5u8),
        (Mnemonic::Cmp, AddressingMode::Absolute) => Some(0xCDu8),
        (Mnemonic::Cpx, AddressingMode::Immediate) => Some(0xE0u8),
        (Mnemonic::Cpx, AddressingMode::ZeroPage) => Some(0xE4u8),
        (Mnemonic::Cpx, AddressingMode::Absolute) => Some(0xECu8),
        (Mnemonic::Cpy, AddressingMode::Immediate) => Some(0xC0u8),
        (Mnemonic::Cpy, AddressingMode::ZeroPage) => Some(0xC4u8),
        (Mnemonic::Cpy, AddressingMode::Absolute) => Some(0xCCu8),
        (Mnemonic::Inc, AddressingMode::ZeroPage) => Some(0xE6u8),
        (Mnemonic::Inc, AddressingMode::Absolute) => Some(0xEEu8),
        (Mnemonic::Inx, AddressingMode::Implied) => Some(0xE8u8),
        (Mnemonic::Iny, AddressingMode::Implied) => Some(0xC8u8),
        (Mnemonic::Dec, AddressingMode::ZeroPage) => Some(0xC6u8),
        (Mnemonic::Dec, AddressingMode::Absolute) => Some(0xCEu8),
        (Mnemonic::Dex, AddressingMode::Implied) => Some(0xCAu8),
        (Mnemonic::Dey, AddressingMode::Implied) => Some(0x88u8),
        (Mnemonic::Asl, AddressingMode::Accumulator) => Some(0x0Au8),
        (Mnemonic::Asl, AddressingMode::ZeroPage) => Some(0x06u8),
        (Mnemonic::Asl, AddressingMode::Absolute) => Some(0x0Eu8),
        (Mnemonic::Lsr, AddressingMode::Accumulator) => Some(0x4Au8),
        (Mnemonic::Lsr, AddressingMode::ZeroPage) => Some(0x46u8),
        (Mnemonic::Lsr, AddressingMode::Absolute) => Some(0x4Eu8),
        (Mnemonic::Rol, AddressingMode::Accumulator) => Some(0x2Au8),
        (Mnemonic::Rol, AddressingMode::ZeroPage) => Some(0x26u8),
        (Mnemonic::Rol, AddressingMode::Absolute) => Some(0x2Eu8),
        (Mnemonic::Ror, AddressingMode::Accumulator) => Some(0x6Au8),
        (Mnemonic::Ror, AddressingMode::ZeroPage) => Some(0x66u8),
        (Mnemonic::Ror, AddressingMode::Absolute) => Some(0x6Eu8),
        (Mnemonic::Jmp, AddressingMode::Absolute) => Some(0x4Cu8),
        (Mnemonic::Jsr, AddressingMode::Absolute) => Some(0x20u8),
        (Mnemonic::Rts, AddressingMode::Implied) => Some(0x60u8),
        (Mnemonic::Bcc, AddressingMode::Relative) => Some(0x90u8),
        (Mnemonic::Bcs, AddressingMode::Relative) => Some(0xB0u8),
        (Mnemonic::Beq, AddressingMode::Relative) => Some(0xF0u8),
        (Mnemonic::Bmi, AddressingMode::Relative) => Some(0x30u8),
        (Mnemonic::Bne, AddressingMode::Relative) => Some(0xD0u8),
        (Mnemonic::Bpl, AddressingMode::Relative) => Some(0x10u8),
        (Mnemonic::Bvc, AddressingMode::Relative) => Some(0x50u8),
        (Mnemonic::Bvs, AddressingMode::Relative) => Some(0x70u8),
        (Mnemonic::Clc, AddressingMode::Implied) => Some(0x18u8),
        (Mnemonic::Cld, AddressingMode::Implied) => Some(0xD8u8),
        (Mnemonic::Cli, AddressingMode::Implied) => Some(0x58u8),
        (Mnemonic::Clv, AddressingMode::Implied) => Some(0xB8u8),
        (Mnemonic::Sec, AddressingMode::Implied) => Some(0x38u8),
        (Mnemonic::Sed, AddressingMode::Implied) => Some(0xF8u8),
        (Mnemonic::Sei, AddressingMode::Implied) => Some(0x78u8),
        (Mnemonic::Brk, AddressingMode::Implied) => Some(0x00u8),
        (Mnemonic::Nop, AddressingMode::Implied) => Some(0xEAu8),
        (Mnemonic::Rti, AddressingMode::Implied) => Some(0x40u8),
        _ => None,
    }
}

/// The opcode byte -> (mnemonic, addressing mode) direction of the table.
pub open spec fn spec_decode(byte: u8) -> Option<(Mnemonic, AddressingMode)> {
    match byte {
        0xA9u8 => Some((Mnemonic::Lda, AddressingMode::Immediate)),
        0xA5u8 => Some((Mnemonic::Lda, AddressingMode::ZeroPage)),
        0xADu8 => Some((Mnemonic::Lda, AddressingMode::Absolute)),
        0xA2u8 => Some((Mnemonic::Ldx, AddressingMode::Immediate)),
        0xA6u8 => Some((Mnemonic::Ldx, AddressingMode::ZeroPage)),
        0xAEu8 => Some((Mnemonic::Ldx, AddressingMode::Absolute)),
        0xA0u8 => Some((Mnemonic::Ldy, AddressingMode::Immediate)),
        0xA4u8 => Some((Mnemonic::Ldy, AddressingMode::ZeroPage)),
        0xACu8 => Some((Mnemonic::Ldy, AddressingMode::Absolute)),
        0x85u8 => Some((Mnemonic::Sta, AddressingMode::ZeroPage)),
        0x8Du8 => Some((Mnemonic::Sta, AddressingMode::Absolute)),
        0x84u8 => Some((Mnemonic::Sty, AddressingMode::ZeroPage)),
        0x8Cu8 => Some((Mnemonic::Sty, AddressingMode::Absolute)),
        0x86u8 => Some((Mnemonic::Stx, AddressingMode::ZeroPage)),
        0x8Eu8 => Some((Mnemonic::Stx, AddressingMode::Absolute)),
        0xAAu8 => Some((Mnemonic::Tax, AddressingMode::Implied)),
        0xA8u8 => Some((Mnemonic::Tay, AddressingMode::Implied)),
        0x8Au8 => Some((Mnemonic::Txa, AddressingMode::Implied)),
        0x98u8 => Some((Mnemonic::Tya, AddressingMode::Implied)),
        0xBAu8 => Some((Mnemonic::Tsx, AddressingMode::Implied)),
        0x9Au8 => Some((Mnemonic::Txs, AddressingMode::Implied)),
        0x48u8 => Some((Mnemonic::Pha, AddressingMode::Implied)),
        0x08u8 => Some((Mnemonic::Php, AddressingMode::Implied)),
        0x68u8 => Some((Mnemonic::Pla, AddressingMode::Implied)),
        0x28u8 => Some((Mnemonic::Plp, AddressingMode::Implied)),
        0x29u8 => Some((Mnemonic::And, AddressingMode::Immediate)),
        0x25u8 => Some((Mnemonic::And, AddressingMode::ZeroPage)),
        0x2Du8 => Some((Mnemonic::And, AddressingMode::Absolute)),
        0x49u8 => Some((Mnemonic::Eor, AddressingMode::Immediate)),
        0x45u8 => Some((Mnemonic::Eor, AddressingMode::ZeroPage)),
        0x4Du8 => Some((Mnemonic::Eor, AddressingMode::Absolute)),
        0x09u8 => Some((Mnemonic::Ora, AddressingMode::Immediate)),
        0x05u8 => Some((Mnemonic::Ora, AddressingMode::ZeroPage)),
        0x0Du8 => Some((Mnemonic::Ora, AddressingMode::Absolute)),
        0x24u8 => Some((Mnemonic::Bit, AddressingMode::ZeroPage)),
        0x2Cu8 => Some((Mnemonic::Bit, AddressingMode::Absolute)),
        0x69u8 => Some((Mnemonic::Adc, AddressingMode::Immediate)),
        0x65u8 => Some((Mnemonic::Adc, AddressingMode::ZeroPage)),
        0x6Du8 => Some((Mnemonic::Adc, AddressingMode::Absolute)),
        0xE9u8 => Some((Mnemonic::Sbc, AddressingMode::Immediate)),
        0xE5u8 => Some((Mnemonic::Sbc, AddressingMode::ZeroPage)),
        0xEDu8 => Some((Mnemonic::Sbc, AddressingMode::Absolute)),
        0xC9u8 => Some((Mnemonic::Cmp, AddressingMode::Immediate)),
        0xC5u8 => Some((Mnemonic::Cmp, AddressingMode::ZeroPage)),
        0xCDu8 => Some((Mnemonic::Cmp, AddressingMode::Absolute)),
        0xE0u8 => Some((Mnemonic::Cpx, AddressingMode::Immediate)),
        0xE4u8 => Some((Mnemonic::Cpx, AddressingMode::ZeroPage)),
        0xECu8 => Some((Mnemonic::Cpx, AddressingMode::Absolute)),
        0xC0u8 => Some((Mnemonic::Cpy, AddressingMode::Immediate)),
        0xC4u8 => Some((Mnemonic::Cpy, AddressingMode::ZeroPage)),
        0xCCu8 => Some((Mnemonic::Cpy, AddressingMode::Absolute)),
        0xE6u8 => Some((Mnemonic::Inc, AddressingMode::ZeroPage)),
        0xEEu8 => Some((Mnemonic::Inc, AddressingMode::Absolute)),
        0xE8u8 => Some((Mnemonic::Inx, AddressingMode::Implied)),
        0xC8u8 => Some((Mnemonic::Iny, AddressingMode::Implied)),
        0xC6u8 => Some((Mnemonic::Dec, AddressingMode::ZeroPage)),
        0xCEu8 => Some((Mnemonic::Dec, AddressingMode::Absolute)),
        0xCAu8 => Some((Mnemonic::Dex, AddressingMode::Implied)),
        0x88u8 => Some((Mnemonic::Dey, AddressingMode::Implied)),
        0x0Au8 => Some((Mnemonic::Asl, AddressingMode::Accumulator)),
        0x06u8 => Some((Mnemonic::Asl, AddressingMode::ZeroPage)),
        0x0Eu8 => Some((Mnemonic::Asl, AddressingMode::Absolute)),
        0x4Au8 => Some((Mnemonic::Lsr, AddressingMode::Accumulator)),
        0x46u8 => Some((Mnemonic::Lsr, AddressingMode::ZeroPage)),
        0x4Eu8 => Some((Mnemonic::Lsr, AddressingMode::Absolute)),
        0x2Au8 => Some((Mnemonic::Rol, AddressingMode::Accumulator)),
        0x26u8 => Some((Mnemonic::Rol, AddressingMode::ZeroPage)),
        0x2Eu8 => Some((Mnemonic::Rol, AddressingMode::Absolute)),
        0x6Au8 => Some((Mnemonic::Ror, AddressingMode::Accumulator)),
        0x66u8 => Some((Mnemonic::Ror, AddressingMode::ZeroPage)),
        0x6Eu8 => Some((Mnemonic::Ror, AddressingMode::Absolute)),
        0x4Cu8 => Some((Mnemonic::Jmp, AddressingMode::Absolute)),
        0x20u8 => Some((Mnemonic::Jsr, AddressingMode::Absolute)),
        0x60u8 => Some((Mnemonic::Rts, AddressingMode::Implied)),
        0x90u8 => Some((Mnemonic::Bcc, AddressingMode::Relative)),
        0xB0u8 => Some((Mnemonic::Bcs, AddressingMode::Relative)),
        0xF0u8 => Some((Mnemonic::Beq, AddressingMode::Relative)),
        0x30u8 => Some((Mnemonic::Bmi, AddressingMode::Relative)),
        0xD0u8 => Some((Mnemonic::Bne, AddressingMode::Relative)),
        0x10u8 => Some((Mnemonic::Bpl, AddressingMode::Relative)),
        0x50u8 => Some((Mnemonic::Bvc, AddressingMode::Relative)),
        0x70u8 => Some((Mnemonic::Bvs, AddressingMode::Relative)),
        0x18u8 => Some((Mnemonic::Clc, AddressingMode::Implied)),
        0xD8u8 => Some((Mnemonic::Cld, AddressingMode::Implied)),
        0x58u8 => Some((Mnemonic::Cli, AddressingMode::Implied)),
        0xB8u8 => Some((Mnemonic::Clv, AddressingMode::Implied)),
        0x38u8 => Some((Mnemonic::Sec, AddressingMode::Implied)),
        0xF8u8 => Some((Mnemonic::Sed, AddressingMode::Implied)),
        0x78u8 => Some((Mnemonic::Sei, AddressingMode::Implied)),
        0x00u8 => Some((Mnemonic::Brk, AddressingMode::Implied)),
        0xEAu8 => Some((Mnemonic::Nop, AddressingMode::Implied)),
        0x40u8 => Some((Mnemonic::Rti, AddressingMode::Implied)),
        _ => None,
    }
}

/// Look up the opcode byte for a (mnemonic, addressing mode) pair. Pairs
/// absent from the table are rejected with a decode error, never substituted.
pub fn encode(m: Mnemonic, mode: AddressingMode) -> (r: Result<u8, DecodeError>)
    ensures
        r == match spec_encode(m, mode) {
            Some(b) => Result::<u8, DecodeError>::Ok(b),
            None => Result::<u8, DecodeError>::Err(DecodeError::WrongAddressingMode),
        },
{
    match spec_encode_exec(m, mode) {
        Some(b) => Ok(b),
        None => Err(DecodeError::WrongAddressingMode),
    }
}

/// Look up the (mnemonic, addressing mode) pair for an opcode byte. Bytes
/// absent from the table are rejected with a decode error.
pub fn decode(byte: u8) -> (r: Result<(Mnemonic, AddressingMode), DecodeError>)
    ensures
        r == match spec_decode(byte) {
            Some(p) => Result::<(Mnemonic, AddressingMode), DecodeError>::Ok(p),
            None => Result::<(Mnemonic, AddressingMode), DecodeError>::Err(
                DecodeError::UnknownOpcode,
            ),
        },
{
    match spec_decode_exec(byte) {
        Some(p) => Ok(p),
        None => Err(DecodeError::UnknownOpcode),
    }
}

/// For every (mnemonic, mode) pair the table either yields a byte that
/// decodes back to exactly that pair, or no byte at all: decoding never
/// substitutes another instruction.
pub proof fn lemma_encode_decode_round_trip(m: Mnemonic, mode: AddressingMode)
    ensures
        match spec_encode(m, mode) {
            Some(b) => spec_decode(b) == Some((m, mode)),
            None => true,
        },
{
}

/// The read/write tag of each operation's final micro-step: the operand
/// fetchers are tagged read, the stores are tagged write, and the
/// read-modify-write family (shifts and memory increment/decrement) is
/// tagged with both.
pub open spec fn spec_modifier_of(m: Mnemonic) -> AddressingModifier {
    match m {
        Mnemonic::Lda => AddressingModifier::Read,
        Mnemonic::Ldx => AddressingModifier::Read,
        Mnemonic::Ldy => AddressingModifier::Read,
        Mnemonic::And => AddressingModifier::Read,
        Mnemonic::Eor => AddressingModifier::Read,
        Mnemonic::Ora => AddressingModifier::Read,
        Mnemonic::Bit => AddressingModifier::Read,
        Mnemonic::Adc => AddressingModifier::Read,
        Mnemonic::Sbc => AddressingModifier::Read,
        Mnemonic::Cmp => AddressingModifier::Read,
        Mnemonic::Cpx => AddressingModifier::Read,
        Mnemonic::Cpy => AddressingModifier::Read,
        Mnemonic::Sta => AddressingModifier::Write,
        Mnemonic::Sty => AddressingModifier::Write,
        Mnemonic::Stx => AddressingModifier::Write,
        Mnemonic::Asl => AddressingModifier::ReadWrite,
        Mnemonic::Lsr => AddressingModifier::ReadWrite,
        Mnemonic::Rol => AddressingModifier::ReadWrite,
        Mnemonic::Ror => AddressingModifier::ReadWrite,
        Mnemonic::Inc => AddressingModifier::ReadWrite,
        Mnemonic::Dec => AddressingModifier::ReadWrite,
        _ => AddressingModifier::Plain,
    }
}

#[verifier::when_used_as_spec(spec_modifier_of)]
pub fn modifier_of(m: Mnemonic) -> (r: AddressingModifier)
    ensures
        r == spec_modifier_of(m),
{
    match m {
        Mnemonic::Lda => AddressingModifier::Read,
        Mnemonic::Ldx => AddressingModifier::Read,
        Mnemonic::Ldy => AddressingModifier::Read,
        Mnemonic::And => AddressingModifier::Read,
        Mnemonic::Eor => AddressingModifier::Read,
        Mnemonic::Ora => AddressingModifier::Read,
        Mnemonic::Bit => AddressingModifier::Read,
        Mnemonic::Adc => AddressingModifier::Read,
        Mnemonic::Sbc => AddressingModifier::Read,
        Mnemonic::Cmp => AddressingModifier::Read,
        Mnemonic::Cpx => AddressingModifier::Read,
        Mnemonic::Cpy => AddressingModifier::Read,
        Mnemonic::Sta => AddressingModifier::Write,
        Mnemonic::Sty => AddressingModifier::Write,
        Mnemonic::Stx => AddressingModifier::Write,
        Mnemonic::Asl => AddressingModifier::ReadWrite,
        Mnemonic::Lsr => AddressingModifier::ReadWrite,
        Mnemonic::Rol => AddressingModifier::ReadWrite,
        Mnemonic::Ror => AddressingModifier::ReadWrite,
        Mnemonic::Inc => AddressingModifier::ReadWrite,
        Mnemonic::Dec => AddressingModifier::ReadWrite,
        _ => AddressingModifier::Plain,
    }
}

/// How many micro-steps an addressing mode runs after the fetch tick.
pub open spec fn spec_steps_of(mode: AddressingMode) -> u8 {
    match mode {
        AddressingMode::Implied => 1u8,
        AddressingMode::Immediate => 1u8,
        AddressingMode::Accumulator => 1u8,
        AddressingMode::Relative => 1u8,
        AddressingMode::ZeroPage => 2u8,
        AddressingMode::Absolute => 3u8,
    }
}

#[verifier::when_used_as_spec(spec_steps_of)]
pub fn steps_of(mode: AddressingMode) -> (r: u8)
    ensures
        r == spec_steps_of(mode),
{
    match mode {
        AddressingMode::Implied => 1,
        AddressingMode::Immediate => 1,
        AddressingMode::Accumulator => 1,
        AddressingMode::Relative => 1,
        AddressingMode::ZeroPage => 2,
        AddressingMode::Absolute => 3,
    }
}

/// Executable twin of the encode matrix.
fn spec_encode_exec(m: Mnemonic, mode: AddressingMode) -> (r: Option<u8>)
    ensures
        r == spec_encode(m, mode),
{
    match (m, mode) {
        (Mnemonic::Lda, AddressingMode::Immediate) => Some(0xA9),
        (Mnemonic::Lda, AddressingMode::ZeroPage) => Some(0xA5),
        (Mnemonic::Lda, AddressingMode::Absolute) => Some(0xAD),
        (Mnemonic::Ldx, AddressingMode::Immediate) => Some(0xA2),
        (Mnemonic::Ldx, AddressingMode::ZeroPage) => Some(0xA6),
        (Mnemonic::Ldx, AddressingMode::Absolute) => Some(0xAE),
        (Mnemonic::Ldy, AddressingMode::Immediate) => Some(0xA0),
        (Mnemonic::Ldy, AddressingMode::ZeroPage) => Some(0xA4),
        (Mnemonic::Ldy, AddressingMode::Absolute) => Some(0xAC),
        (Mnemonic::Sta, AddressingMode::ZeroPage) => Some(0x85),
        (Mnemonic::Sta, AddressingMode::Absolute) => Some(0x8D),
        (Mnemonic::Sty, AddressingMode::ZeroPage) => Some(0x84),
        (Mnemonic::Sty, AddressingMode::Absolute) => Some(0x8C),
        (Mnemonic::Stx, AddressingMode::ZeroPage) => Some(0x86),
        (Mnemonic::Stx, AddressingMode::Absolute) => Some(0x8E),
        (Mnemonic::Tax, AddressingMode::Implied) => Some(0xAA),
        (Mnemonic::Tay, AddressingMode::Implied) => Some(0xA8),
        (Mnemonic::Txa, AddressingMode::Implied) => Some(0x8A),
        (Mnemonic::Tya, AddressingMode::Implied) => Some(0x98),
        (Mnemonic::Tsx, AddressingMode::Implied) => Some(0xBA),
        (Mnemonic::Txs, AddressingMode::Implied) => Some(0x9A),
        (Mnemonic::Pha, AddressingMode::Implied) => Some(0x48),
        (Mnemonic::Php, AddressingMode::Implied) => Some(0x08),
        (Mnemonic::Pla, AddressingMode::Implied) => Some(0x68),
        (Mnemonic::Plp, AddressingMode::Implied) => Some(0x28),
        (Mnemonic::And, AddressingMode::Immediate) => Some(0x29),
        (Mnemonic::And, AddressingMode::ZeroPage) => Some(0x25),
        (Mnemonic::And, AddressingMode::Absolute) => Some(0x2D),
        (Mnemonic::Eor, AddressingMode::Immediate) => Some(0x49),
        (Mnemonic::Eor, AddressingMode::ZeroPage) => Some(0x45),
        (Mnemonic::Eor, AddressingMode::Absolute) => Some(0x4D),
        (Mnemonic::Ora, AddressingMode::Immediate) => Some(0x09),
        (Mnemonic::Ora, AddressingMode::ZeroPage) => Some(0x05),
        (Mnemonic::Ora, AddressingMode::Absolute) => Some(0x0D),
        (Mnemonic::Bit, AddressingMode::ZeroPage) => Some(0x24),
        (Mnemonic::Bit, AddressingMode::Absolute) => Some(0x2C),
        (Mnemonic::Adc, AddressingMode::Immediate) => Some(0x69),
        (Mnemonic::Adc, AddressingMode::ZeroPage) => Some(0x65),
        (Mnemonic::Adc, AddressingMode::Absolute) => Some(0x6D),
        (Mnemonic::Sbc, AddressingMode::Immediate) => Some(0xE9),
        (Mnemonic::Sbc, AddressingMode::ZeroPage) => Some(0xE5),
        (Mnemonic::Sbc, AddressingMode::Absolute) => Some(0xED),
        (Mnemonic::Cmp, AddressingMode::Immediate) => Some(0xC9),
        (Mnemonic::Cmp, AddressingMode::ZeroPage) => Some(0xC5),
        (Mnemonic::Cmp, AddressingMode::Absolute) => Some(0xCD),
        (Mnemonic::Cpx, AddressingMode::Immediate) => Some(0xE0),
        (Mnemonic::Cpx, AddressingMode::ZeroPage) => Some(0xE4),
        (Mnemonic::Cpx, AddressingMode::Absolute) => Some(0xEC),
        (Mnemonic::Cpy, AddressingMode::Immediate) => Some(0xC0),
        (Mnemonic::Cpy, AddressingMode::ZeroPage) => Some(0xC4),
        (Mnemonic::Cpy, AddressingMode::Absolute) => Some(0xCC),
        (Mnemonic::Inc, AddressingMode::ZeroPage) => Some(0xE6),
        (Mnemonic::Inc, AddressingMode::Absolute) => Some(0xEE),
        (Mnemonic::Inx, AddressingMode::Implied) => Some(0xE8),
        (Mnemonic::Iny, AddressingMode::Implied) => Some(0xC8),
        (Mnemonic::Dec, AddressingMode::ZeroPage) => Some(0xC6),
        (Mnemonic::Dec, AddressingMode::Absolute) => Some(0xCE),
        (Mnemonic::Dex, AddressingMode::Implied) => Some(0xCA),
        (Mnemonic::Dey, AddressingMode::Implied) => Some(0x88),
        (Mnemonic::Asl, AddressingMode::Accumulator) => Some(0x0A),
        (Mnemonic::Asl, AddressingMode::ZeroPage) => Some(0x06),
        (Mnemonic::Asl, AddressingMode::Absolute) => Some(0x0E),
        (Mnemonic::Lsr, AddressingMode::Accumulator) => Some(0x4A),
        (Mnemonic::Lsr, AddressingMode::ZeroPage) => Some(0x46),
        (Mnemonic::Lsr, AddressingMode::Absolute) => Some(0x4E),
        (Mnemonic::Rol, AddressingMode::Accumulator) => Some(0x2A),
        (Mnemonic::Rol, AddressingMode::ZeroPage) => Some(0x26),
        (Mnemonic::Rol, AddressingMode::Absolute) => Some(0x2E),
        (Mnemonic::Ror, AddressingMode::Accumulator) => Some(0x6A),
        (Mnemonic::Ror, AddressingMode::ZeroPage) => Some(0x66),
        (Mnemonic::Ror, AddressingMode::Absolute) => Some(0x6E),
        (Mnemonic::Jmp, AddressingMode::Absolute) => Some(0x4C),
        (Mnemonic::Jsr, AddressingMode::Absolute) => Some(0x20),
        (Mnemonic::Rts, AddressingMode::Implied) => Some(0x60),
        (Mnemonic::Bcc, AddressingMode::Relative) => Some(0x90),
        (Mnemonic::Bcs, AddressingMode::Relative) => Some(0xB0),
        (Mnemonic::Beq, AddressingMode::Relative) => Some(0xF0),
        (Mnemonic::Bmi, AddressingMode::Relative) => Some(0x30),
        (Mnemonic::Bne, AddressingMode::Relative) => Some(0xD0),
        (Mnemonic::Bpl, AddressingMode::Relative) => Some(0x10),
        (Mnemonic::Bvc, AddressingMode::Relative) => Some(0x50),
        (Mnemonic::Bvs, AddressingMode::Relative) => Some(0x70),
        (Mnemonic::Clc, AddressingMode::Implied) => Some(0x18),
        (Mnemonic::Cld, AddressingMode::Implied) => Some(0xD8),
        (Mnemonic::Cli, AddressingMode::Implied) => Some(0x58),
        (Mnemonic::Clv, AddressingMode::Implied) => Some(0xB8),
        (Mnemonic::Sec, AddressingMode::Implied) => Some(0x38),
        (Mnemonic::Sed, AddressingMode::Implied) => Some(0xF8),
        (Mnemonic::Sei, AddressingMode::Implied) => Some(0x78),
        (Mnemonic::Brk, AddressingMode::Implied) => Some(0x00),
        (Mnemonic::Nop, AddressingMode::Implied) => Some(0xEA),
        (Mnemonic::Rti, AddressingMode::Implied) => Some(0x40),
        _ => None,
    }
}

/// Executable twin of the decode matrix.
fn spec_decode_exec(byte: u8) -> (r: Option<(Mnemonic, AddressingMode)>)
    ensures
        r == spec_decode(byte),
{
    match byte {
        0xA9 => Some((Mnemonic::Lda, AddressingMode::Immediate)),
        0xA5 => Some((Mnemonic::Lda, AddressingMode::ZeroPage)),
        0xAD => Some((Mnemonic::Lda, AddressingMode::Absolute)),
        0xA2 => Some((Mnemonic::Ldx, AddressingMode::Immediate)),
        0xA6 => Some((Mnemonic::Ldx, AddressingMode::ZeroPage)),
        0xAE => Some((Mnemonic::Ldx, AddressingMode::Absolute)),
        0xA0 => Some((Mnemonic::Ldy, AddressingMode::Immediate)),
        0xA4 => Some((Mnemonic::Ldy, AddressingMode::ZeroPage)),
        0xAC => Some((Mnemonic::Ldy, AddressingMode::Absolute)),
        0x85 => Some((Mnemonic::Sta, AddressingMode::ZeroPage)),
        0x8D => Some((Mnemonic::Sta, AddressingMode::Absolute)),
        0x84 => Some((Mnemonic::Sty, AddressingMode::ZeroPage)),
        0x8C => Some((Mnemonic::Sty, AddressingMode::Absolute)),
        0x86 => Some((Mnemonic::Stx, AddressingMode::ZeroPage)),
        0x8E => Some((Mnemonic::Stx, AddressingMode::Absolute)),
        0xAA => Some((Mnemonic::Tax, AddressingMode::Implied)),
        0xA8 => Some((Mnemonic::Tay, AddressingMode::Implied)),
        0x8A => Some((Mnemonic::Txa, AddressingMode::Implied)),
        0x98 => Some((Mnemonic::Tya, AddressingMode::Implied)),
        0xBA => Some((Mnemonic::Tsx, AddressingMode::Implied)),
        0x9A => Some((Mnemonic::Txs, AddressingMode::Implied)),
        0x48 => Some((Mnemonic::Pha, AddressingMode::Implied)),
        0x08 => Some((Mnemonic::Php, AddressingMode::Implied)),
        0x68 => Some((Mnemonic::Pla, AddressingMode::Implied)),
        0x28 => Some((Mnemonic::Plp, AddressingMode::Implied)),
        0x29 => Some((Mnemonic::And, AddressingMode::Immediate)),
        0x25 => Some((Mnemonic::And, AddressingMode::ZeroPage)),
        0x2D => Some((Mnemonic::And, AddressingMode::Absolute)),
        0x49 => Some((Mnemonic::Eor, AddressingMode::Immediate)),
        0x45 => Some((Mnemonic::Eor, AddressingMode::ZeroPage)),
        0x4D => Some((Mnemonic::Eor, AddressingMode::Absolute)),
        0x09 => Some((Mnemonic::Ora, AddressingMode::Immediate)),
        0x05 => Some((Mnemonic::Ora, AddressingMode::ZeroPage)),
        0x0D => Some((Mnemonic::Ora, AddressingMode::Absolute)),
        0x24 => Some((Mnemonic::Bit, AddressingMode::ZeroPage)),
        0x2C => Some((Mnemonic::Bit, AddressingMode::Absolute)),
        0x69 => Some((Mnemonic::Adc, AddressingMode::Immediate)),
        0x65 => Some((Mnemonic::Adc, AddressingMode::ZeroPage)),
        0x6D => Some((Mnemonic::Adc, AddressingMode::Absolute)),
        0xE9 => Some((Mnemonic::Sbc, AddressingMode::Immediate)),
        0xE5 => Some((Mnemonic::Sbc, AddressingMode::ZeroPage)),
        0xED => Some((Mnemonic::Sbc, AddressingMode::Absolute)),
        0xC9 => Some((Mnemonic::Cmp, AddressingMode::Immediate)),
        0xC5 => Some((Mnemonic::Cmp, AddressingMode::ZeroPage)),
        0xCD => Some((Mnemonic::Cmp, AddressingMode::Absolute)),
        0xE0 => Some((Mnemonic::Cpx, AddressingMode::Immediate)),
        0xE4 => Some((Mnemonic::Cpx, AddressingMode::ZeroPage)),
        0xEC => Some((Mnemonic::Cpx, AddressingMode::Absolute)),
        0xC0 => Some((Mnemonic::Cpy, AddressingMode::Immediate)),
        0xC4 => Some((Mnemonic::Cpy, AddressingMode::ZeroPage)),
        0xCC => Some((Mnemonic::Cpy, AddressingMode::Absolute)),
        0xE6 => Some((Mnemonic::Inc, AddressingMode::ZeroPage)),
        0xEE => Some((Mnemonic::Inc, AddressingMode::Absolute)),
        0xE8 => Some((Mnemonic::Inx, AddressingMode::Implied)),
        0xC8 => Some((Mnemonic::Iny, AddressingMode::Implied)),
        0xC6 => Some((Mnemonic::Dec, AddressingMode::ZeroPage)),
        0xCE => Some((Mnemonic::Dec, AddressingMode::Absolute)),
        0xCA => Some((Mnemonic::Dex, AddressingMode::Implied)),
        0x88 => Some((Mnemonic::Dey, AddressingMode::Implied)),
        0x0A => Some((Mnemonic::Asl, AddressingMode::Accumulator)),
        0x06 => Some((Mnemonic::Asl, AddressingMode::ZeroPage)),
        0x0E => Some((Mnemonic::Asl, AddressingMode::Absolute)),
        0x4A => Some((Mnemonic::Lsr, AddressingMode::Accumulator)),
        0x46 => Some((Mnemonic::Lsr, AddressingMode::ZeroPage)),
        0x4E => Some((Mnemonic::Lsr, AddressingMode::Absolute)),
        0x2A => Some((Mnemonic::Rol, AddressingMode::Accumulator)),
        0x26 => Some((Mnemonic::Rol, AddressingMode::ZeroPage)),
        0x2E => Some((Mnemonic::Rol, AddressingMode::Absolute)),
        0x6A => Some((Mnemonic::Ror, AddressingMode::Accumulator)),
        0x66 => Some((Mnemonic::Ror, AddressingMode::ZeroPage)),
        0x6E => Some((Mnemonic::Ror, AddressingMode::Absolute)),
        0x4C => Some((Mnemonic::Jmp, AddressingMode::Absolute)),
        0x20 => Some((Mnemonic::Jsr, AddressingMode::Absolute)),
        0x60 => Some((Mnemonic::Rts, AddressingMode::Implied)),
        0x90 => Some((Mnemonic::Bcc, AddressingMode::Relative)),
        0xB0 => Some((Mnemonic::Bcs, AddressingMode::Relative)),
        0xF0 => Some((Mnemonic::Beq, AddressingMode::Relative)),
        0x30 => Some((Mnemonic::Bmi, AddressingMode::Relative)),
        0xD0 => Some((Mnemonic::Bne, AddressingMode::Relative)),
        0x10 => Some((Mnemonic::Bpl, AddressingMode::Relative)),
        0x50 => Some((Mnemonic::Bvc, AddressingMode::Relative)),
        0x70 => Some((Mnemonic::Bvs, AddressingMode::Relative)),
        0x18 => Some((Mnemonic::Clc, AddressingMode::Implied)),
        0xD8 => Some((Mnemonic::Cld, AddressingMode::Implied)),
        0x58 => Some((Mnemonic::Cli, AddressingMode::Implied)),
        0xB8 => Some((Mnemonic::Clv, AddressingMode::Implied)),
        0x38 => Some((Mnemonic::Sec, AddressingMode::Implied)),
        0xF8 => Some((Mnemonic::Sed, AddressingMode::Implied)),
        0x78 => Some((Mnemonic::Sei, AddressingMode::Implied)),
        0x00 => Some((Mnemonic::Brk, AddressingMode::Implied)),
        0xEA => Some((Mnemonic::Nop, AddressingMode::Implied)),
        0x40 => Some((Mnemonic::Rti, AddressingMode::Implied)),
        _ => None,
    }
}

} // verus!
