use ledger_programs::account::{AccountInfo, Rent, THRESHOLD_ONE};
use ledger_programs::address::Address;
use ledger_programs::effect::{AccountMeta, Effect, Instruction};
use ledger_programs::movie_review::error::ReviewError;
use ledger_programs::movie_review::instruction::MovieInstruction;
use ledger_programs::movie_review::processor::{
    initialize_token_mint, process_add_comment, process_add_movie_review, process_instruction,
    process_update_movie_review, LAMPORTS_PER_SOL,
};
use ledger_programs::movie_review::state::{
    ReviewCommentCounterState, ReviewCommentState, ReviewState,
};
use ledger_programs::program_error::ProgramError;
use solana_program::pubkey::Pubkey;

fn key(p: &Pubkey) -> Address {
    Address::new_from_array(p.to_bytes())
}

fn pubkey(a: &Address) -> Pubkey {
    Pubkey::new_from_array(a.bytes)
}

fn account(p: &Pubkey, is_signer: bool, data: Vec<u8>) -> AccountInfo {
    AccountInfo {
        key: key(p),
        is_signer,
        is_writable: true,
        lamports: 1,
        data,
        owner: key(&program()),
    }
}

fn converted(ix: solana_program::instruction::Instruction) -> Instruction {
    Instruction {
        program_id: key(&ix.program_id),
        accounts: ix
            .accounts
            .iter()
            .map(|m| AccountMeta { pubkey: key(&m.pubkey), is_signer: m.is_signer, is_writable: m.is_writable })
            .collect(),
        data: ix.data,
    }
}

fn invocation(instruction: solana_program::instruction::Instruction, accounts: &[usize], signer_seeds: Vec<Vec<u8>>) -> Effect {
    Effect::Invoke { instruction: converted(instruction), accounts: accounts.to_vec(), signer_seeds }
}

fn rent() -> Rent {
    Rent::new(6960, THRESHOLD_ONE, 50).unwrap()
}

fn program() -> Pubkey {
    Pubkey::new_from_array([31u8; 32])
}

fn payer() -> Pubkey {
    Pubkey::new_from_array([32u8; 32])
}

struct Board {
    review: Pubkey,
    review_bump: u8,
    counter: Pubkey,
    counter_bump: u8,
    token_mint: Pubkey,
    mint_bump: u8,
    mint_auth: Pubkey,
    auth_bump: u8,
    user_ata: Pubkey,
}

fn board(title: &str) -> Board {
    let (review, review_bump) =
        Pubkey::find_program_address(&[payer().as_ref(), title.as_bytes()], &program());
    let (counter, counter_bump) =
        Pubkey::find_program_address(&[review.as_ref(), "counter".as_ref()], &program());
    let (token_mint, mint_bump) = Pubkey::find_program_address(&[b"token_mint"], &program());
    let (mint_auth, auth_bump) = Pubkey::find_program_address(&[b"mint_auth"], &program());
    let user_ata = spl_associated_token_account::get_associated_token_address(&payer(), &token_mint);
    Board { review, review_bump, counter, counter_bump, token_mint, mint_bump, mint_auth, auth_bump, user_ata }
}

fn review_accounts(b: &Board) -> Vec<AccountInfo> {
    vec![
        account(&payer(), true, vec![]),
        account(&b.review, false, vec![]),
        account(&b.counter, false, vec![]),
        account(&b.token_mint, false, vec![]),
        account(&b.mint_auth, false, vec![]),
        account(&b.user_ata, false, vec![]),
        account(&solana_system_interface::program::id(), false, vec![]),
        account(&spl_token::id(), false, vec![]),
    ]
}

fn review_payload(opcode: u8, title: &str, rating: u8, description: &str) -> Vec<u8> {
    let mut data = vec![opcode];
    data.extend_from_slice(&borsh::to_vec(&(title.to_string(), rating, description.to_string())).unwrap());
    data
}

fn written(effect: &Effect, account: usize) -> Vec<u8> {
    match effect {
        Effect::Write { account: at, data } => {
            assert_eq!(*at, account);
            data.clone()
        }
        _ => panic!("a write was expected"),
    }
}

const DESCRIPTION: &str = "Sometimes I just need to see the start. Or end. Or a trailer.";

#[test]
fn initialize_token_mint_ix_test() {
    let b = board("Interstellar");
    let initializer = payer();
    let accounts = vec![
        account(&initializer, true, vec![]),
        account(&b.token_mint, false, vec![]),
        account(&b.mint_auth, false, vec![]),
        account(&solana_system_interface::program::id(), false, vec![]),
        account(&spl_token::id(), false, vec![]),
    ];
    let effects = initialize_token_mint(&key(&program()), &accounts, &rent()).unwrap();
    let seeds = vec![b"token_mint".to_vec(), vec![b.mint_bump]];
    let expected = vec![
        invocation(
            solana_system_interface::instruction::create_account(&initializer, &b.token_mint, (128 + 82) * 6960, 82, &spl_token::id()),
            &[0, 1, 3],
            seeds.clone(),
        ),
        invocation(
            spl_token::instruction::initialize_mint2(&spl_token::id(), &b.token_mint, &b.mint_auth, None, 9).unwrap(),
            &[1, 2],
            seeds,
        ),
    ];
    assert_eq!(effects, expected);
    assert_eq!(process_instruction(&key(&program()), &accounts, &[3], &rent()), Ok(expected));

    assert_eq!(initialize_token_mint(&key(&program()), &accounts[..4], &rent()), Err(ProgramError::NotEnoughAccountKeys));
    for at in [1usize, 2, 4] {
        let mut wrong = accounts.clone();
        wrong[at].key = Address::new_from_array([42u8; 32]);
        assert_eq!(initialize_token_mint(&key(&program()), &wrong, &rent()), Err(ProgramError::Custom(2)));
    }
}

#[test]
fn add_movie_review_ix_test() {
    let title = String::from("Interstellar");
    let rating = 5;
    let description = String::from(DESCRIPTION);
    let b = board(&title);
    let accounts = review_accounts(&b);
    let effects = process_add_movie_review(
        &key(&program()),
        &accounts,
        title.clone(),
        rating,
        description.clone(),
        &rent(),
    )
    .unwrap();
    assert_eq!(effects.len(), 5);

    let state = ReviewState::unpack(&written(&effects[1], 1)).unwrap();
    assert_eq!(state.discriminator, ReviewState::DISCRIMINATOR);
    assert_eq!(state.is_initialized, true);
    assert_eq!(state.reviewer, key(&payer()));
    assert_eq!(state.rating, rating);
    assert_eq!(state.title, title);
    assert_eq!(state.description, description);
    assert_eq!(written(&effects[1], 1).len(), ReviewState::space(&title, &description));

    assert_eq!(written(&effects[3], 2).len(), ReviewCommentCounterState::SPACE);
    let counter = ReviewCommentCounterState::unpack(&written(&effects[3], 2)).unwrap();
    assert_eq!(counter.discriminator, ReviewCommentCounterState::DISCRIMINATOR);
    assert_eq!(counter.is_initialized, true);
    assert_eq!(counter.counter, 0);

    let token = spl_token::id();
    assert_eq!(
        effects[0],
        invocation(
            solana_system_interface::instruction::create_account(&payer(), &b.review, (128 + 1000) * 6960, 1000, &program()),
            &[0, 1, 6],
            vec![payer().to_bytes().to_vec(), title.as_bytes().to_vec(), vec![b.review_bump]],
        )
    );
    assert_eq!(
        effects[2],
        invocation(
            solana_system_interface::instruction::create_account(&payer(), &b.counter, (128 + 20) * 6960, 20, &program()),
            &[0, 2, 6],
            vec![b.review.to_bytes().to_vec(), b"counter".to_vec(), vec![b.counter_bump]],
        )
    );
    assert_eq!(
        effects[4],
        invocation(
            spl_token::instruction::mint_to(&token, &b.token_mint, &b.user_ata, &b.mint_auth, &[], 10 * LAMPORTS_PER_SOL).unwrap(),
            &[3, 5, 4],
            vec![b"mint_auth".to_vec(), vec![b.auth_bump]],
        )
    );
    assert_eq!(LAMPORTS_PER_SOL, solana_program::native_token::LAMPORTS_PER_SOL);

    let data = review_payload(0, &title, rating, &description);
    assert_eq!(process_instruction(&key(&program()), &accounts, &data, &rent()), Ok(effects));
}

#[test]
fn add_movie_review_ix_with_invalid_movie_review_account_test() {
    let title = String::from("Interstellar");
    let b = board(&title);
    let mut accounts = review_accounts(&b);
    accounts[1].key = key(&Pubkey::new_from_array([99u8; 32]));
    let r = process_add_movie_review(
        &key(&program()),
        &accounts,
        title.clone(),
        5,
        String::from(DESCRIPTION),
        &rent(),
    );
    assert!(r.is_err());
    assert_eq!(r, Err(ProgramError::InvalidSeeds));
}

#[test]
fn add_movie_review_rejections() {
    let title = String::from("Interstellar");
    let b = board(&title);
    let accounts = review_accounts(&b);
    let id = key(&program());
    let run = |accounts: &[AccountInfo], title: &str, rating: u8, description: &str| {
        process_add_movie_review(&id, accounts, title.to_string(), rating, description.to_string(), &rent())
    };
    assert_eq!(run(&accounts[..7], &title, 5, "fine"), Err(ProgramError::NotEnoughAccountKeys));
    let mut unsigned = accounts.clone();
    unsigned[0].is_signer = false;
    assert_eq!(run(&unsigned, &title, 5, "fine"), Err(ProgramError::MissingRequiredSignature));
    assert_eq!(run(&accounts, "Another", 5, "fine"), Err(ProgramError::InvalidSeeds));
    assert_eq!(run(&accounts, &title, 0, "fine"), Err(ProgramError::Custom(ReviewError::InvalidRating.code())));
    assert_eq!(run(&accounts, &title, 6, "fine"), Err(ProgramError::Custom(1)));
    assert!(run(&accounts, &title, 1, "fine").is_ok());
    let long = "x".repeat(1000 - 52 - title.len());
    assert!(run(&accounts, &title, 5, &long).is_ok());
    let longer = "x".repeat(1000 - 52 - title.len() + 1);
    assert_eq!(run(&accounts, &title, 5, &longer), Err(ProgramError::Custom(0)));
    let mut wrong = accounts.clone();
    wrong[2].key = Address::new_from_array([42u8; 32]);
    assert_eq!(run(&wrong, &title, 5, "fine"), Err(ProgramError::InvalidSeeds));
    for at in [3usize, 4, 5, 7] {
        let mut wrong = accounts.clone();
        wrong[at].key = Address::new_from_array([42u8; 32]);
        assert_eq!(run(&wrong, &title, 5, "fine"), Err(ProgramError::Custom(2)));
    }
    let too_long_for_a_seed = "t".repeat(33);
    assert_eq!(run(&accounts, &too_long_for_a_seed, 5, "fine"), Err(ProgramError::InvalidSeeds));
}

#[test]
fn update_movie_review_ix_test() {
    let title = String::from("Interstellar");
    let b = board(&title);
    let created = process_add_movie_review(
        &key(&program()),
        &review_accounts(&b),
        title.clone(),
        5,
        String::from(DESCRIPTION),
        &rent(),
    )
    .unwrap();
    let mut data = written(&created[1], 1);
    data.resize(1000, 0);
    let accounts = vec![account(&payer(), true, vec![]), account(&b.review, false, data)];

    let new_rating = 3;
    let new_description = String::from("Not bad.");
    let effects = process_update_movie_review(
        &key(&program()),
        &accounts,
        title.clone(),
        new_rating,
        new_description.clone(),
    )
    .unwrap();
    assert_eq!(effects.len(), 1);
    let state = ReviewState::unpack(&written(&effects[0], 1)).unwrap();
    assert_eq!(state.discriminator, ReviewState::DISCRIMINATOR);
    assert_eq!(state.is_initialized, true);
    assert_eq!(state.reviewer, key(&payer()));
    assert_eq!(state.rating, new_rating);
    assert_eq!(state.title, title);
    assert_eq!(state.description, new_description);

    let payload = review_payload(1, &title, new_rating, &new_description);
    assert_eq!(process_instruction(&key(&program()), &accounts, &payload, &rent()), Ok(effects));
}

#[test]
fn update_movie_review_rejections() {
    let title = String::from("Interstellar");
    let b = board(&title);
    let state = ReviewState {
        discriminator: String::from("review"),
        is_initialized: true,
        reviewer: key(&payer()),
        rating: 5,
        title: title.clone(),
        description: String::from("old"),
    };
    let mut data = state.pack().unwrap();
    let exact = data.len();
    data.resize(1000, 0);
    let accounts = vec![account(&payer(), true, vec![]), account(&b.review, false, data.clone())];
    let id = key(&program());
    let run = |accounts: &[AccountInfo], title: &str, rating: u8, description: &str| {
        process_update_movie_review(&id, accounts, title.to_string(), rating, description.to_string())
    };
    assert_eq!(run(&accounts[..1], &title, 3, "new"), Err(ProgramError::NotEnoughAccountKeys));
    let mut unsigned = accounts.clone();
    unsigned[0].is_signer = false;
    assert_eq!(run(&unsigned, &title, 3, "new"), Err(ProgramError::MissingRequiredSignature));
    let mut foreign = accounts.clone();
    foreign[1].owner = Address::new_from_array([0u8; 32]);
    assert_eq!(run(&foreign, &title, 3, "new"), Err(ProgramError::InvalidAccountOwner));
    assert_eq!(run(&accounts, "Another", 3, "new"), Err(ProgramError::InvalidSeeds));
    let mut unused = accounts.clone();
    unused[1].data = vec![0u8; 1000];
    assert_eq!(run(&unused, &title, 3, "new"), Err(ProgramError::UninitializedAccount));
    let mut broken = accounts.clone();
    broken[1].data = vec![9u8; 3];
    assert_eq!(run(&broken, &title, 3, "new"), Err(ProgramError::BorshIoError));
    let mut flag = accounts.clone();
    flag[1].data[10] = 2;
    assert_eq!(run(&flag, &title, 3, "new"), Err(ProgramError::BorshIoError));
    let mut not_text = accounts.clone();
    not_text[1].data[4] = 0xff;
    assert_eq!(run(&not_text, &title, 3, "new"), Err(ProgramError::BorshIoError));
    assert_eq!(run(&accounts, &title, 0, "new"), Err(ProgramError::Custom(1)));
    assert_eq!(run(&accounts, &title, 3, &"d".repeat(1000)), Err(ProgramError::Custom(0)));
    let mut tight = accounts.clone();
    tight[1].data.truncate(exact);
    assert!(run(&tight, &title, 3, "new").is_ok());
    assert_eq!(run(&tight, &title, 3, "longer"), Err(ProgramError::BorshIoError));
}

#[test]
fn add_comment_ix_test() {
    let title = String::from("Interstellar");
    let b = board(&title);
    let comment = String::from("Totally agree!");
    let (comment_account, comment_bump) =
        Pubkey::find_program_address(&[b.review.as_ref(), 0u64.to_be_bytes().as_ref()], &program());
    let counter = ReviewCommentCounterState {
        discriminator: String::from("counter"),
        is_initialized: true,
        counter: 0,
    };
    let accounts = vec![
        account(&payer(), true, vec![]),
        account(&b.review, false, vec![]),
        account(&b.counter, false, counter.pack().unwrap()),
        account(&comment_account, false, vec![]),
        account(&b.token_mint, false, vec![]),
        account(&b.mint_auth, false, vec![]),
        account(&b.user_ata, false, vec![]),
        account(&solana_system_interface::program::id(), false, vec![]),
        account(&spl_token::id(), false, vec![]),
    ];
    let effects = process_add_comment(&key(&program()), &accounts, comment.clone(), &rent()).unwrap();
    assert_eq!(effects.len(), 4);

    let space = ReviewCommentState::space(&comment);
    assert_eq!(space, 88 + 14);
    let stored = written(&effects[1], 3);
    assert_eq!(stored.len(), space);
    let expected = borsh::to_vec(&(
        String::from("comment"),
        true,
        b.review.to_bytes(),
        payer().to_bytes(),
        comment.clone(),
        0u64,
    ))
    .unwrap();
    assert_eq!(stored, expected);
    let state = ReviewCommentState {
        discriminator: ReviewCommentState::DISCRIMINATOR.to_string(),
        is_initialized: true,
        review: key(&b.review),
        commenter: key(&payer()),
        comment: comment.clone(),
        count: 0,
    };
    assert_eq!(state.pack(), Ok(stored));
    assert!(state.is_initialized());

    let after = ReviewCommentCounterState::unpack(&written(&effects[2], 2)).unwrap();
    assert_eq!(after.counter, 1);
    assert!(after.is_initialized());

    assert_eq!(
        effects[0],
        invocation(
            solana_system_interface::instruction::create_account(&payer(), &comment_account, (128 + space as u64) * 6960, space as u64, &program()),
            &[0, 3, 7],
            vec![b.review.to_bytes().to_vec(), 0u64.to_be_bytes().to_vec(), vec![comment_bump]],
        )
    );
    assert_eq!(
        effects[3],
        invocation(
            spl_token::instruction::mint_to(&spl_token::id(), &b.token_mint, &b.user_ata, &b.mint_auth, &[], 5 * LAMPORTS_PER_SOL).unwrap(),
            &[5, 6, 4],
            vec![b"mint_auth".to_vec(), vec![b.auth_bump]],
        )
    );

    let mut data = vec![2u8];
    data.extend_from_slice(&borsh::to_vec(&comment).unwrap());
    assert_eq!(process_instruction(&key(&program()), &accounts, &data, &rent()), Ok(effects));
}

#[test]
fn add_comment_uses_the_number_of_the_comment() {
    let b = board("Interstellar");
    let number: u64 = 0x0102_0304_0506_0708;
    let (comment_account, comment_bump) =
        Pubkey::find_program_address(&[b.review.as_ref(), number.to_be_bytes().as_ref()], &program());
    let counter = |n: u64| {
        ReviewCommentCounterState { discriminator: String::from("counter"), is_initialized: true, counter: n }
            .pack()
            .unwrap()
    };
    let accounts = vec![
        account(&payer(), true, vec![]),
        account(&b.review, false, vec![]),
        account(&b.counter, false, counter(number)),
        account(&comment_account, false, vec![]),
        account(&b.token_mint, false, vec![]),
        account(&b.mint_auth, false, vec![]),
        account(&b.user_ata, false, vec![]),
        account(&solana_system_interface::program::id(), false, vec![]),
        account(&spl_token::id(), false, vec![]),
    ];
    let id = key(&program());
    let effects = process_add_comment(&id, &accounts, String::from("ok"), &rent()).unwrap();
    match &effects[0] {
        Effect::Invoke { signer_seeds, .. } => {
            assert_eq!(signer_seeds[1], vec![1, 2, 3, 4, 5, 6, 7, 8]);
            assert_eq!(signer_seeds[2], vec![comment_bump]);
        }
        _ => panic!("the account is created by an invocation"),
    }
    assert_eq!(written(&effects[2], 2), counter(number + 1));

    assert_eq!(process_add_comment(&id, &accounts[..8], String::from("ok"), &rent()), Err(ProgramError::NotEnoughAccountKeys));
    let mut other = accounts.clone();
    other[2].data = counter(number + 1);
    assert_eq!(process_add_comment(&id, &other, String::from("ok"), &rent()), Err(ProgramError::InvalidSeeds));
    let mut broken = accounts.clone();
    broken[2].data = vec![1, 0, 0];
    assert_eq!(process_add_comment(&id, &broken, String::from("ok"), &rent()), Err(ProgramError::BorshIoError));
    for at in [4usize, 5, 6, 8] {
        let mut wrong = accounts.clone();
        wrong[at].key = Address::new_from_array([42u8; 32]);
        assert_eq!(process_add_comment(&id, &wrong, String::from("ok"), &rent()), Err(ProgramError::Custom(2)));
    }
    let (last_account, _) =
        Pubkey::find_program_address(&[b.review.as_ref(), u64::MAX.to_be_bytes().as_ref()], &program());
    let mut last = accounts.clone();
    last[2].data = counter(u64::MAX);
    last[3].key = key(&last_account);
    assert_eq!(process_add_comment(&id, &last, String::from("ok"), &rent()), Err(ProgramError::ArithmeticOverflow));
    let huge = "c".repeat(10 * 1024 * 1024);
    assert_eq!(process_add_comment(&id, &accounts, huge, &rent()), Err(ProgramError::InvalidRealloc));
}

#[test]
fn review_is_stored_field_by_field() {
    let state = ReviewState {
        discriminator: String::from("review"),
        is_initialized: true,
        reviewer: Address::new_from_array([5u8; 32]),
        rating: 4,
        title: String::from("Dune"),
        description: String::from("Sand, \u{00e9}pic."),
    };
    let data = state.pack().unwrap();
    let expected = borsh::to_vec(&(
        String::from("review"),
        true,
        [5u8; 32],
        4u8,
        String::from("Dune"),
        String::from("Sand, \u{00e9}pic."),
    ))
    .unwrap();
    assert_eq!(data, expected);
    assert_eq!(data.len(), ReviewState::space("Dune", "Sand, \u{00e9}pic."));
    assert_eq!(ReviewState::space("", ""), 52);
    assert_eq!(ReviewState::unpack(&data), Ok(state.clone()));
    assert!(state.is_initialized());
    let mut padded = data.clone();
    padded.resize(1000, 0);
    assert_eq!(ReviewState::unpack(&padded), Ok(state));
    assert_eq!(ReviewState::unpack(&data[..data.len() - 1]), Err(ProgramError::BorshIoError));
    let zeroed = ReviewState::unpack(&[0u8; 1000]).unwrap();
    assert_eq!(zeroed.is_initialized, false);
    assert_eq!(zeroed.title, "");
}

#[test]
fn movie_instructions_are_decoded_by_opcode() {
    assert_eq!(
        MovieInstruction::unpack(&review_payload(0, "Dune", 4, "Sand.")),
        Ok(MovieInstruction::AddMovieReview {
            title: String::from("Dune"),
            rating: 4,
            description: String::from("Sand."),
        })
    );
    assert_eq!(
        MovieInstruction::unpack(&review_payload(1, "", 0, "")),
        Ok(MovieInstruction::UpdateMovieReview {
            title: String::new(),
            rating: 0,
            description: String::new(),
        })
    );
    assert_eq!(
        MovieInstruction::unpack(&[2, 2, 0, 0, 0, b'o', b'k']),
        Ok(MovieInstruction::AddComment { comment: String::from("ok") })
    );
    assert_eq!(MovieInstruction::unpack(&[3]), Ok(MovieInstruction::InitializeMint));
    let invalid = Err(ProgramError::InvalidInstructionData);
    assert_eq!(MovieInstruction::unpack(&[]), invalid);
    assert_eq!(MovieInstruction::unpack(&[4]), invalid);
    assert_eq!(MovieInstruction::unpack(&[2, 2, 0, 0, 0, b'o']), invalid);
    assert_eq!(MovieInstruction::unpack(&[2, 2, 0, 0, 0, b'o', b'k', 0]), invalid);
    assert_eq!(MovieInstruction::unpack(&[2, 1, 0, 0, 0, 0xff]), invalid);
    let mut short = review_payload(0, "Dune", 4, "Sand.");
    short.pop();
    assert_eq!(MovieInstruction::unpack(&short), invalid);
    let mut long = review_payload(0, "Dune", 4, "Sand.");
    long.push(0);
    assert_eq!(MovieInstruction::unpack(&long), invalid);
    assert_eq!(MovieInstruction::unpack(&[0, 0, 0, 0, 0]), invalid);
}

#[test]
fn review_errors_have_stable_codes() {
    assert_eq!(ReviewError::InvalidDataLength.code(), 0);
    assert_eq!(ReviewError::InvalidRating.code(), 1);
    assert_eq!(ReviewError::IncorrectAccountError.code(), 2);
    assert_eq!(ProgramError::from(ReviewError::IncorrectAccountError), ProgramError::Custom(2));
    assert_eq!(ReviewError::InvalidDataLength.message(), "Input data exceeds max length");
    assert_eq!(ReviewError::InvalidRating.message(), "Rating less than 1 or greater than 5");
    assert_eq!(ReviewError::IncorrectAccountError.message(), "Accounts do not match");
}
