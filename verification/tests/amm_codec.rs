use ledger_programs::address::Address;
use ledger_programs::amm::error::AmmError;
use ledger_programs::amm::instruction::AmmInstruction;
use ledger_programs::amm::state::LiquidityPool;
use ledger_programs::program_error::ProgramError;

fn pool() -> LiquidityPool {
    LiquidityPool {
        mint_a: Address::new_from_array([2u8; 32]),
        mint_b: Address::new_from_array([3u8; 32]),
        reserve_a: 1000,
        reserve_b: 0x0102_0304_0506_0708,
        fee_bps: 30,
        bump: 254,
    }
}

#[test]
fn pool_is_stored_field_by_field() {
    let data = pool().pack();
    assert_eq!(data.len(), LiquidityPool::SPACE);
    assert_eq!(data.len(), 83);
    assert_eq!(&data[0..32], &[2u8; 32]);
    assert_eq!(&data[32..64], &[3u8; 32]);
    assert_eq!(&data[64..72], &[0xe8, 3, 0, 0, 0, 0, 0, 0]);
    assert_eq!(&data[72..80], &[8, 7, 6, 5, 4, 3, 2, 1]);
    assert_eq!(&data[80..82], &[30, 0]);
    assert_eq!(data[82], 254);
    let expected = borsh::to_vec(&([2u8; 32], [3u8; 32], 1000u64, 0x0102_0304_0506_0708u64, 30u16, 254u8))
        .unwrap();
    assert_eq!(data, expected);
}

#[test]
fn pool_is_read_back_whatever_follows() {
    let mut data = pool().pack();
    assert_eq!(LiquidityPool::unpack(&data), Ok(pool()));
    data.extend_from_slice(&[7u8; 40]);
    assert_eq!(LiquidityPool::unpack(&data), Ok(pool()));
    assert_eq!(LiquidityPool::unpack(&data[..82]), Err(ProgramError::BorshIoError));
    assert_eq!(LiquidityPool::unpack(&[]), Err(ProgramError::BorshIoError));
    let zeros = LiquidityPool::unpack(&[0u8; 83]).unwrap();
    assert_eq!(zeros.reserve_a, 0);
    assert_eq!(zeros.bump, 0);
}

fn encode(opcode: u8, fields: &[u64], fee: Option<u16>) -> Vec<u8> {
    let mut data = vec![opcode];
    for f in fields {
        data.extend_from_slice(&f.to_le_bytes());
    }
    if let Some(fee) = fee {
        data.extend_from_slice(&fee.to_le_bytes());
    }
    data
}

#[test]
fn instructions_are_decoded_by_opcode() {
    assert_eq!(
        AmmInstruction::unpack(&encode(0, &[1000, 4000], Some(30))),
        Ok(AmmInstruction::CreatePool { amount_a: 1000, amount_b: 4000, fee_bps: 30 })
    );
    assert_eq!(
        AmmInstruction::unpack(&encode(1, &[1, 2, 3, u64::MAX], None)),
        Ok(AmmInstruction::ProvideLiquidity {
            amount_a_desired: 1,
            amount_b_desired: 2,
            amount_a_min: 3,
            amount_b_min: u64::MAX,
        })
    );
    assert_eq!(
        AmmInstruction::unpack(&encode(2, &[9, 8, 7], None)),
        Ok(AmmInstruction::WithdrawLiquidity { amount_lp_in: 9, amount_a_min: 8, amount_b_min: 7 })
    );
    assert_eq!(
        AmmInstruction::unpack(&encode(3, &[100, 0], None)),
        Ok(AmmInstruction::Swap { amount_in: 100, min_out: 0 })
    );
    assert_eq!(
        AmmInstruction::unpack(&[3, 1, 2, 0, 0, 0, 0, 0, 0, 4, 0, 0, 0, 0, 0, 0, 0]),
        Ok(AmmInstruction::Swap { amount_in: 0x0201, min_out: 4 })
    );
}

#[test]
fn malformed_instructions_are_invalid_data() {
    let invalid = Err(ProgramError::InvalidInstructionData);
    assert_eq!(AmmInstruction::unpack(&[]), invalid);
    assert_eq!(AmmInstruction::unpack(&[4]), invalid);
    assert_eq!(AmmInstruction::unpack(&[255, 0, 0]), invalid);
    assert_eq!(AmmInstruction::unpack(&[3]), invalid);
    assert_eq!(AmmInstruction::unpack(&encode(3, &[100], None)), invalid);
    assert_eq!(AmmInstruction::unpack(&encode(3, &[100, 0, 0], None)), invalid);
    assert_eq!(AmmInstruction::unpack(&encode(0, &[1000, 4000], None)), invalid);
    assert_eq!(AmmInstruction::unpack(&encode(0, &[1000, 4000, 1], Some(30))), invalid);
    assert_eq!(AmmInstruction::unpack(&encode(1, &[1, 2, 3], None)), invalid);
    assert_eq!(AmmInstruction::unpack(&encode(2, &[9, 8], Some(1))), invalid);
    let mut long = encode(3, &[100, 0], None);
    long.push(0);
    assert_eq!(AmmInstruction::unpack(&long), invalid);
}

#[test]
fn errors_have_stable_codes() {
    let all = [
        AmmError::IdenticalMints,
        AmmError::PoolAddressMismatch,
        AmmError::VaultAddressMismatch,
        AmmError::MintAddressMismatch,
        AmmError::LpMintAddressMismatch,
        AmmError::ZeroLiquidityAmount,
        AmmError::FeeTooHigh,
        AmmError::ZeroSwapAmount,
        AmmError::SlippageExceed,
    ];
    for (i, e) in all.iter().enumerate() {
        assert_eq!(e.code(), i as u32);
        assert_eq!(ProgramError::from(*e), ProgramError::Custom(i as u32));
    }
    assert_eq!(AmmError::IdenticalMints.message(), "Token mints must be different");
    assert_eq!(
        AmmError::FeeTooHigh.message(),
        "Fee must not exceed 10000 basis points (100%)"
    );
    assert_eq!(
        AmmError::SlippageExceed.message(),
        "Slippage tolerance exceeded: output amount is below the minimum specified"
    );
}
