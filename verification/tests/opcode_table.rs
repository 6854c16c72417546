use retrosys::opcode::{decode, encode, AddressingMode, DecodeError, Mnemonic};

#[test]
fn decode_known_bytes() {
    assert_eq!(decode(0xA9), Ok((Mnemonic::Lda, AddressingMode::Immediate)));
    assert_eq!(decode(0x85), Ok((Mnemonic::Sta, AddressingMode::ZeroPage)));
    assert_eq!(decode(0x8D), Ok((Mnemonic::Sta, AddressingMode::Absolute)));
    assert_eq!(decode(0x0A), Ok((Mnemonic::Asl, AddressingMode::Accumulator)));
    assert_eq!(decode(0xEA), Ok((Mnemonic::Nop, AddressingMode::Implied)));
    assert_eq!(decode(0x00), Ok((Mnemonic::Brk, AddressingMode::Implied)));
    assert_eq!(decode(0xF0), Ok((Mnemonic::Beq, AddressingMode::Relative)));
    assert_eq!(decode(0x6D), Ok((Mnemonic::Adc, AddressingMode::Absolute)));
}

#[test]
fn decode_unknown_bytes_rejected() {
    assert_eq!(decode(0xFF), Err(DecodeError::UnknownOpcode));
    assert_eq!(decode(0x02), Err(DecodeError::UnknownOpcode));
    assert_eq!(decode(0x80), Err(DecodeError::UnknownOpcode));
}

#[test]
fn encode_known_pairs() {
    assert_eq!(encode(Mnemonic::Lda, AddressingMode::Immediate), Ok(0xA9));
    assert_eq!(encode(Mnemonic::Sta, AddressingMode::Absolute), Ok(0x8D));
    assert_eq!(encode(Mnemonic::Ror, AddressingMode::ZeroPage), Ok(0x66));
    assert_eq!(encode(Mnemonic::Sei, AddressingMode::Implied), Ok(0x78));
}

#[test]
fn encode_missing_pairs_rejected() {
    assert_eq!(
        encode(Mnemonic::Lda, AddressingMode::Implied),
        Err(DecodeError::WrongAddressingMode)
    );
    assert_eq!(
        encode(Mnemonic::Sta, AddressingMode::Immediate),
        Err(DecodeError::WrongAddressingMode)
    );
    assert_eq!(
        encode(Mnemonic::Nop, AddressingMode::Absolute),
        Err(DecodeError::WrongAddressingMode)
    );
    assert_eq!(
        encode(Mnemonic::Brk, AddressingMode::Relative),
        Err(DecodeError::WrongAddressingMode)
    );
}

#[test]
fn encode_decode_round_trip_samples() {
    let pairs = vec![
        (Mnemonic::Lda, AddressingMode::Immediate),
        (Mnemonic::Lda, AddressingMode::ZeroPage),
        (Mnemonic::Lda, AddressingMode::Absolute),
        (Mnemonic::Sta, AddressingMode::ZeroPage),
        (Mnemonic::Stx, AddressingMode::Absolute),
        (Mnemonic::Tax, AddressingMode::Implied),
        (Mnemonic::Adc, AddressingMode::Immediate),
        (Mnemonic::Sbc, AddressingMode::Absolute),
        (Mnemonic::Cmp, AddressingMode::ZeroPage),
        (Mnemonic::Asl, AddressingMode::Accumulator),
        (Mnemonic::Ror, AddressingMode::Absolute),
        (Mnemonic::Inc, AddressingMode::ZeroPage),
        (Mnemonic::Jmp, AddressingMode::Absolute),
        (Mnemonic::Bne, AddressingMode::Relative),
        (Mnemonic::Cld, AddressingMode::Implied),
        (Mnemonic::Rti, AddressingMode::Implied),
    ];
    for (m, mode) in pairs {
        let byte = encode(m, mode).expect("pair should be in the table");
        assert_eq!(decode(byte), Ok((m, mode)));
    }
}
