use ledger_programs::account::{AccountInfo, Rent, THRESHOLD_ONE};
use ledger_programs::address::Address;
use ledger_programs::effect::{AccountMeta, Effect, Instruction};
use ledger_programs::program_error::ProgramError;
use ledger_programs::swap_program::error::SwapProgramError;
use ledger_programs::swap_program::instruction::SwapInstruction;
use ledger_programs::swap_program::processor::{
    process_create_pool, process_fund_pool, process_instruction, process_swap,
};
use ledger_programs::swap_program::state::LiquidityPool;
use solana_program::program_pack::Pack;
use solana_program::pubkey::Pubkey;

fn key(p: &Pubkey) -> Address {
    Address::new_from_array(p.to_bytes())
}

fn pubkey(a: &Address) -> Pubkey {
    Pubkey::new_from_array(a.bytes)
}

fn account(p: &Pubkey, data: Vec<u8>, lamports: u64) -> AccountInfo {
    AccountInfo {
        key: key(p),
        is_signer: false,
        is_writable: true,
        lamports,
        data,
        owner: Address::new_from_array([0u8; 32]),
    }
}

fn mint_data(decimals: u8) -> Vec<u8> {
    let mint = spl_token::state::Mint {
        mint_authority: solana_program::program_option::COption::None,
        supply: 5,
        decimals,
        is_initialized: true,
        freeze_authority: solana_program::program_option::COption::None,
    };
    let mut data = vec![0u8; 82];
    spl_token::state::Mint::pack(mint, &mut data).unwrap();
    data
}

fn converted(ix: solana_program::instruction::Instruction) -> Instruction {
    Instruction {
        program_id: key(&ix.program_id),
        accounts: ix
            .accounts
            .iter()
            .map(|m| AccountMeta { pubkey: key(&m.pubkey), is_signer: m.is_signer, is_writable: m.is_writable })
            .collect(),
        data: ix.data,
    }
}

fn invocation(instruction: solana_program::instruction::Instruction, accounts: &[usize], signer_seeds: Vec<Vec<u8>>) -> Effect {
    Effect::Invoke { instruction: converted(instruction), accounts: accounts.to_vec(), signer_seeds }
}

fn rent() -> Rent {
    Rent::new(6960, THRESHOLD_ONE, 50).unwrap()
}

fn program() -> Pubkey {
    Pubkey::new_from_array([11u8; 32])
}

fn pool_address() -> (Pubkey, u8) {
    Pubkey::find_program_address(&[b"liquidity_pool"], &program())
}

fn fund_accounts(pool_data: Vec<u8>, lamports: u64) -> Vec<AccountInfo> {
    let (pool, _) = pool_address();
    let mint = Pubkey::new_from_array([21u8; 32]);
    let payer = Pubkey::new_from_array([22u8; 32]);
    vec![
        account(&pool, pool_data, lamports),
        account(&mint, mint_data(6), 1),
        account(&spl_associated_token_account::get_associated_token_address(&pool, &mint), vec![], 1),
        account(&spl_associated_token_account::get_associated_token_address(&payer, &mint), vec![], 1),
        account(&payer, vec![], 1),
        account(&solana_system_interface::program::id(), vec![], 1),
        account(&spl_token::id(), vec![], 1),
        account(&spl_associated_token_account::id(), vec![], 1),
    ]
}

fn swap_accounts() -> Vec<AccountInfo> {
    let (pool, _) = pool_address();
    let receive = Pubkey::new_from_array([21u8; 32]);
    let pay = Pubkey::new_from_array([23u8; 32]);
    let payer = Pubkey::new_from_array([22u8; 32]);
    let ata = |w: &Pubkey, m: &Pubkey| spl_associated_token_account::get_associated_token_address(w, m);
    vec![
        account(&pool, vec![], 1),
        account(&receive, mint_data(6), 1),
        account(&ata(&pool, &receive), vec![], 1),
        account(&ata(&payer, &receive), vec![], 1),
        account(&pay, mint_data(6), 1),
        account(&ata(&pool, &pay), vec![], 1),
        account(&ata(&payer, &pay), vec![], 1),
        account(&payer, vec![], 1),
        account(&spl_token::id(), vec![], 1),
        account(&spl_associated_token_account::id(), vec![], 1),
    ]
}

#[test]
fn swap_instructions_are_decoded_by_opcode() {
    assert_eq!(SwapInstruction::unpack(&[0]), Ok(SwapInstruction::CreatePool));
    assert_eq!(SwapInstruction::unpack(&[0, 1, 2, 3]), Ok(SwapInstruction::CreatePool));
    assert_eq!(
        SwapInstruction::unpack(&[1, 5, 1, 0, 0, 0, 0, 0, 0]),
        Ok(SwapInstruction::FundPool { amount: 261 })
    );
    assert_eq!(
        SwapInstruction::unpack(&[2, 0, 0, 0, 0, 0, 0, 0, 128]),
        Ok(SwapInstruction::Swap { amount_to_swap: 1 << 63 })
    );
    let invalid = Err(ProgramError::InvalidInstructionData);
    assert_eq!(SwapInstruction::unpack(&[]), invalid);
    assert_eq!(SwapInstruction::unpack(&[3]), invalid);
    assert_eq!(SwapInstruction::unpack(&[1]), invalid);
    assert_eq!(SwapInstruction::unpack(&[1, 0, 0, 0, 0, 0, 0, 0]), invalid);
    assert_eq!(SwapInstruction::unpack(&[2, 0, 0, 0, 0, 0, 0, 0, 0, 0]), invalid);
}

#[test]
fn swap_errors_have_stable_codes() {
    assert_eq!(SwapProgramError::InvalidSwapZeroAmount.code(), 0);
    assert_eq!(SwapProgramError::InvalidSwapMatchingAssets.code(), 1);
    assert_eq!(ProgramError::from(SwapProgramError::InvalidSwapMatchingAssets), ProgramError::Custom(1));
}

#[test]
fn asset_list_is_stored_with_its_count() {
    let pool = LiquidityPool {
        assets: vec![Address::new_from_array([1u8; 32]), Address::new_from_array([2u8; 32])],
        bump: 250,
    };
    let data = pool.pack();
    assert_eq!(data.len(), 4 + 64 + 1);
    let expected = borsh::to_vec(&(vec![[1u8; 32], [2u8; 32]], 250u8)).unwrap();
    assert_eq!(data, expected);
    assert_eq!(LiquidityPool::unpack(&data), Ok(pool.clone()));
    let mut longer = data.clone();
    longer.extend_from_slice(&[9u8; 5]);
    assert_eq!(LiquidityPool::unpack(&longer), Ok(pool.clone()));
    assert_eq!(LiquidityPool::unpack(&data[..68]), Err(ProgramError::BorshIoError));
    assert_eq!(LiquidityPool::unpack(&data[..3]), Err(ProgramError::BorshIoError));
    assert_eq!(LiquidityPool::unpack(&[255, 255, 255, 255, 0]), Err(ProgramError::BorshIoError));
    assert!(pool.contains(&Address::new_from_array([2u8; 32])));
    assert!(!pool.contains(&Address::new_from_array([3u8; 32])));
    let empty = LiquidityPool { assets: vec![], bump: 7 };
    assert_eq!(empty.pack(), vec![0, 0, 0, 0, 7]);
    assert_eq!(empty.pack().len(), LiquidityPool::SPACE);
    assert_eq!(LiquidityPool::unpack(&[0u8; 5]), Ok(LiquidityPool { assets: vec![], bump: 0 }));
}

#[test]
fn pool_is_created_at_its_derived_address() {
    let (pool, bump) = pool_address();
    let payer = Pubkey::new_from_array([22u8; 32]);
    let system = solana_system_interface::program::id();
    let accounts = vec![account(&pool, vec![], 0), account(&payer, vec![], 1), account(&system, vec![], 1)];
    let effects = process_create_pool(&key(&program()), &accounts, &rent()).unwrap();
    let expected = vec![
        invocation(
            solana_system_interface::instruction::create_account(&payer, &pool, (128 + 5) * 6960, 5, &program()),
            &[1, 0, 2],
            vec![b"liquidity_pool".to_vec(), vec![bump]],
        ),
        Effect::Write { account: 0, data: vec![0, 0, 0, 0, bump] },
    ];
    assert_eq!(effects, expected);
    assert_eq!(process_instruction(&key(&program()), &accounts, &[0], &rent()), Ok(expected));

    assert_eq!(process_create_pool(&key(&program()), &accounts[..2], &rent()), Err(ProgramError::NotEnoughAccountKeys));
    let mut wrong = accounts.clone();
    wrong[0].key = Address::new_from_array([42u8; 32]);
    assert_eq!(process_create_pool(&key(&program()), &wrong, &rent()), Err(ProgramError::InvalidSeeds));
    assert_eq!(process_create_pool(&key(&payer), &accounts, &rent()), Err(ProgramError::InvalidSeeds));
}

#[test]
fn funding_a_new_asset_grows_the_pool() {
    let (_, bump) = pool_address();
    let accounts = fund_accounts(vec![0, 0, 0, 0, bump], 900_000);
    let p = |i: usize| pubkey(&accounts[i].key);
    let effects = process_fund_pool(&key(&program()), &accounts, 77, &rent()).unwrap();
    let required = (128 + 37) * 6960;
    let expected = vec![
        invocation(
            spl_associated_token_account::instruction::create_associated_token_account_idempotent(&p(4), &p(0), &p(1), &p(6)),
            &[4, 0, 1, 6],
            vec![],
        ),
        invocation(solana_system_interface::instruction::transfer(&p(4), &p(0), required - 900_000), &[4, 0], vec![]),
        Effect::Resize { account: 0, len: 37 },
        invocation(
            spl_token::instruction::transfer_checked(&p(6), &p(3), &p(1), &p(2), &p(4), &[], 77, 6).unwrap(),
            &[6, 3, 1, 2, 4],
            vec![],
        ),
    ];
    assert_eq!(effects, expected);
    match &effects[1] {
        Effect::Invoke { instruction, .. } => {
            let mut data = vec![2u8, 0, 0, 0];
            data.extend_from_slice(&(required - 900_000).to_le_bytes());
            assert_eq!(instruction.data, data);
            assert_eq!(
                instruction.accounts,
                vec![
                    AccountMeta { pubkey: accounts[4].key, is_signer: true, is_writable: true },
                    AccountMeta { pubkey: accounts[0].key, is_signer: false, is_writable: true },
                ]
            );
        }
        _ => panic!("the rent is paid by an invocation"),
    }
    let mut data = vec![1u8];
    data.extend_from_slice(&77u64.to_le_bytes());
    assert_eq!(process_instruction(&key(&program()), &accounts, &data, &rent()), Ok(expected));
}

#[test]
fn funding_a_known_asset_only_moves_tokens() {
    let (_, bump) = pool_address();
    let known = LiquidityPool { assets: vec![Address::new_from_array([21u8; 32])], bump };
    let accounts = fund_accounts(known.pack(), 900_000);
    let effects = process_fund_pool(&key(&program()), &accounts, 77, &rent()).unwrap();
    assert_eq!(effects.len(), 2);
    match &effects[1] {
        Effect::Invoke { instruction, accounts, .. } => {
            assert_eq!(instruction.data, vec![12u8, 77, 0, 0, 0, 0, 0, 0, 0, 6]);
            assert_eq!(accounts, &vec![6, 3, 1, 2, 4]);
        }
        _ => panic!("the tokens are moved by an invocation"),
    }
}

#[test]
fn fund_pool_rejections() {
    let (_, bump) = pool_address();
    let id = key(&program());
    let accounts = fund_accounts(vec![0, 0, 0, 0, bump], 900_000);
    assert_eq!(process_fund_pool(&id, &accounts[..7], 77, &rent()), Err(ProgramError::NotEnoughAccountKeys));
    for at in [0usize, 2, 3] {
        let mut wrong = accounts.clone();
        wrong[at].key = Address::new_from_array([42u8; 32]);
        assert_eq!(process_fund_pool(&id, &wrong, 77, &rent()), Err(ProgramError::InvalidSeeds));
    }
    let mut wrong = accounts.clone();
    wrong[0].data = vec![0, 0, 0];
    assert_eq!(process_fund_pool(&id, &wrong, 77, &rent()), Err(ProgramError::BorshIoError));
    let mut rich = accounts.clone();
    rich[0].lamports = (128 + 37) * 6960 + 1;
    assert_eq!(process_fund_pool(&id, &rich, 77, &rent()), Err(ProgramError::ArithmeticOverflow));
    let mut exact = accounts.clone();
    exact[0].lamports = (128 + 37) * 6960;
    assert!(process_fund_pool(&id, &exact, 77, &rent()).is_ok());
    let mut wrong = accounts.clone();
    wrong[1].data = vec![0u8; 82];
    assert_eq!(process_fund_pool(&id, &wrong, 77, &rent()), Err(ProgramError::UninitializedAccount));
    let mut wrong = accounts.clone();
    wrong[6].key = Address::new_from_array([42u8; 32]);
    assert_eq!(process_fund_pool(&id, &wrong, 77, &rent()), Err(ProgramError::IncorrectProgramId));
}

#[test]
fn swap_is_validated_and_moves_nothing() {
    let id = key(&program());
    let accounts = swap_accounts();
    assert_eq!(process_swap(&id, &accounts, 5), Ok(vec![]));
    let mut data = vec![2u8];
    data.extend_from_slice(&5u64.to_le_bytes());
    assert_eq!(process_instruction(&id, &accounts, &data, &rent()), Ok(vec![]));
    assert_eq!(process_swap(&id, &accounts[..9], 5), Err(ProgramError::NotEnoughAccountKeys));
    assert_eq!(process_swap(&id, &accounts, 0), Err(ProgramError::Custom(0)));
    for at in [2usize, 3, 5, 6] {
        let mut wrong = accounts.clone();
        wrong[at].key = Address::new_from_array([42u8; 32]);
        assert_eq!(process_swap(&id, &wrong, 5), Err(ProgramError::InvalidSeeds));
        assert_eq!(process_swap(&id, &wrong, 0), Err(ProgramError::InvalidSeeds));
    }
    let mut same = accounts.clone();
    same[4] = same[1].clone();
    same[5] = same[2].clone();
    same[6] = same[3].clone();
    assert_eq!(process_swap(&id, &same, 5), Err(ProgramError::Custom(1)));
    assert_eq!(process_swap(&id, &same, 0), Err(ProgramError::Custom(0)));
}
