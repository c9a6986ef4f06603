use ledger_programs::account::{Rent, THRESHOLD_ONE, THRESHOLD_TWO};
use ledger_programs::address::{bump_of, derive_address, find_address, is_address, Address};
use ledger_programs::program_error::ProgramError;
use ledger_programs::associated_token::{
    associated_token_program_id, get_associated_token_address,
    get_associated_token_address_with_program_id,
};
use ledger_programs::system::system_program_id;
use ledger_programs::token::token_program_id;
use solana_program::pubkey::Pubkey;

fn key(p: &Pubkey) -> Address {
    Address::new_from_array(p.to_bytes())
}

fn sample(seed: u8) -> Pubkey {
    let mut bytes = [0u8; 32];
    for (i, b) in bytes.iter_mut().enumerate() {
        *b = seed.wrapping_mul(31).wrapping_add(i as u8 * 7);
    }
    Pubkey::new_from_array(bytes)
}

#[test]
fn program_ids_are_those_of_the_programs() {
    assert_eq!(token_program_id().bytes, spl_token::id().to_bytes());
    assert_eq!(
        associated_token_program_id().bytes,
        spl_associated_token_account::id().to_bytes()
    );
    assert_eq!(system_program_id().bytes, solana_system_interface::program::id().to_bytes());
}

#[test]
fn addresses_compare_byte_by_byte() {
    for a in 0..12u8 {
        for b in 0..12u8 {
            let (x, y) = (sample(a), sample(b));
            assert_eq!(key(&x).precedes(&key(&y)), x < y);
            assert_eq!(key(&x) == key(&y), x == y);
        }
    }
    let mut low = [5u8; 32];
    let mut high = [5u8; 32];
    low[31] = 1;
    high[31] = 2;
    assert!(Address::new_from_array(low).precedes(&Address::new_from_array(high)));
    assert!(!Address::new_from_array(high).precedes(&Address::new_from_array(low)));
    assert!(!Address::new_from_array(low).precedes(&Address::new_from_array(low)));
    high[0] = 4;
    assert!(Address::new_from_array(high).precedes(&Address::new_from_array(low)));
}

#[test]
fn address_bytes_round_trip() {
    let a = key(&sample(3));
    assert_eq!(a.to_vec(), sample(3).to_bytes().to_vec());
    let mut data = vec![9u8; 3];
    data.extend_from_slice(&a.bytes);
    data.push(1);
    assert_eq!(Address::from_slice(&data, 3), a);
}

#[test]
fn associated_address_is_the_one_the_program_derives() {
    for w in 0..6u8 {
        for m in 6..10u8 {
            let (wallet, mint) = (sample(w), sample(m));
            let expected = spl_associated_token_account::get_associated_token_address(&wallet, &mint);
            assert_eq!(get_associated_token_address(&key(&wallet), &key(&mint)), Some(key(&expected)));
            let other_program = sample(77);
            let expected = spl_associated_token_account::get_associated_token_address_with_program_id(
                &wallet,
                &mint,
                &other_program,
            );
            assert_eq!(
                get_associated_token_address_with_program_id(
                    &key(&wallet),
                    &key(&mint),
                    &key(&other_program)
                ),
                Some(key(&expected))
            );
        }
    }
}

#[test]
fn search_finds_what_the_runtime_finds() {
    let program = sample(40);
    for n in 0..20u8 {
        let word = vec![n, 2, 3];
        let seeds: Vec<Vec<u8>> = vec![b"pool".to_vec(), word.clone()];
        let (address, bump) = Pubkey::find_program_address(&[b"pool", &word], &program);
        assert_eq!(find_address(&seeds, &key(&program)), Some((key(&address), bump)));
        let mut with_bump = seeds.clone();
        with_bump.push(vec![bump]);
        assert_eq!(derive_address(&with_bump, &key(&program)), Ok(key(&address)));
        for higher in (bump as u16 + 1)..=255 {
            let mut skipped = seeds.clone();
            skipped.push(vec![higher as u8]);
            assert_eq!(derive_address(&skipped, &key(&program)), Err(ProgramError::InvalidSeeds));
        }
    }
}

#[test]
fn seeds_beyond_the_limits_derive_nothing() {
    let program = key(&sample(40));
    let too_long: Vec<Vec<u8>> = vec![vec![0u8; 33]];
    assert_eq!(find_address(&too_long, &program), None);
    assert_eq!(derive_address(&too_long, &program), Err(ProgramError::MaxSeedLengthExceeded));
    let long_enough: Vec<Vec<u8>> = vec![vec![0u8; 32]];
    assert!(find_address(&long_enough, &program).is_some());
    let sixteen: Vec<Vec<u8>> = (0..16).map(|i| vec![i as u8]).collect();
    assert_eq!(find_address(&sixteen, &program), None);
    let fifteen: Vec<Vec<u8>> = (0..15).map(|i| vec![i as u8]).collect();
    assert!(find_address(&fifteen, &program).is_some());
    let seventeen: Vec<Vec<u8>> = (0..17).map(|i| vec![i as u8]).collect();
    assert_eq!(derive_address(&seventeen, &program), Err(ProgramError::MaxSeedLengthExceeded));
    let empty: Vec<Vec<u8>> = vec![];
    let (address, bump) = Pubkey::find_program_address(&[], &sample(40));
    assert_eq!(find_address(&empty, &program), Some((key(&address), bump)));
}

#[test]
fn derived_addresses_are_compared_with_keys() {
    let (a, b) = (key(&sample(1)), key(&sample(2)));
    assert!(is_address(Some(a), &a));
    assert!(!is_address(Some(a), &b));
    assert!(!is_address(None, &a));
    assert_eq!(bump_of(Some((a, 254)), &a), Some(254));
    assert_eq!(bump_of(Some((a, 254)), &b), None);
    assert_eq!(bump_of(None, &a), None);
}

#[test]
fn rent_is_computed_in_integers() {
    let rent = Rent::new(6960, THRESHOLD_ONE, 50).unwrap();
    assert_eq!(rent.minimum_balance(0), Some(128 * 6960));
    assert_eq!(rent.minimum_balance(83), Some((128 + 83) * 6960));
    assert_eq!(rent.minimum_balance(10 * 1024 * 1024), Some((128 + 10_485_760) * 6960));
    assert_eq!(rent.minimum_balance(10 * 1024 * 1024 + 1), None);
    let doubled = Rent::new(3480, THRESHOLD_TWO, 50).unwrap();
    assert_eq!(doubled.minimum_balance(82), Some(2 * (128 + 82) * 3480));
    assert_eq!(doubled.minimum_balance(82), rent.minimum_balance(82));
    let outside = solana_program::rent::Rent::default();
    assert_eq!(rent.minimum_balance(1000), Some(outside.minimum_balance(1000)));
}

#[test]
fn rent_rejects_other_thresholds_and_rates() {
    assert!(Rent::new(6960, [0, 0, 0, 0, 0, 0, 8, 64], 50).is_none());
    assert!(Rent::new(1_759_197_129_867, THRESHOLD_ONE, 0).is_some());
    assert!(Rent::new(1_759_197_129_868, THRESHOLD_ONE, 0).is_none());
    assert!(Rent::new(879_598_564_933, THRESHOLD_TWO, 0).is_some());
    assert!(Rent::new(879_598_564_934, THRESHOLD_TWO, 0).is_none());
}
