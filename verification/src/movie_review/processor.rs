//! The processors of the review board's four instructions.
//!
//! A processor derives the addresses that the accounts of its instruction
//! must lie at. What the instruction does once the addresses are derived is
//! a function of plain values: the accounts, the payload and the derived
//! addresses.

use crate::account::{AccountInfo, Rent};
use crate::address::{
    address_of_found, bump_at, bump_of, find_address, is_address, seed_views, spec_find_address,
    Address,
};
use crate::associated_token::{get_associated_token_address, spec_associated_token_address};
use crate::codec::{spec_u64_to_be_bytes, u64_to_be_bytes};
use crate::effect::{answers, invoke_signed, views, Effect, EffectView};
use crate::movie_review::error::ReviewError;
use crate::movie_review::instruction::{MovieInstruction, MovieInstructionView};
use crate::movie_review::state::{
    ReviewCommentCounterState, ReviewCommentCounterStateView, ReviewCommentState,
    ReviewCommentStateView, ReviewState, ReviewStateView, COMMENT_FIXED_SPACE, REVIEW_FIXED_SPACE,
};
use crate::program_error::ProgramError;
use crate::system::spec_create_account;
use crate::token::{spec_initialize_mint2, spec_mint_to, token_program, MINT_LEN};
use vstd::prelude::*;
use vstd::slice::slice_to_vec;
use vstd::utf8::encode_utf8;

verus! {

/// The second seed of a counter's address: the word "counter".
pub const COUNTER_SEED: [u8; 7] = [99, 111, 117, 110, 116, 101, 114];

/// The seed of the address of the reward mint: the words "token_mint".
pub const TOKEN_MINT_SEED: [u8; 10] = [116, 111, 107, 101, 110, 95, 109, 105, 110, 116];

/// The seed of the address of the mint authority: the words "mint_auth".
pub const MINT_AUTH_SEED: [u8; 9] = [109, 105, 110, 116, 95, 97, 117, 116, 104];

/// The smallest units of one reward token.
pub const LAMPORTS_PER_SOL: u64 = 1_000_000_000;

/// Decimal places of the reward mint.
pub const REWARD_DECIMALS: u8 = 9;

/// Reward tokens for a review.
pub const REVIEW_REWARD: u64 = 10;

/// Reward tokens for a comment.
pub const COMMENT_REWARD: u64 = 5;

/// The seeds of the review of the movie `title` by `author`.
pub open spec fn review_seeds(author: Address, title: Seq<char>) -> Seq<Seq<u8>> {
    seq![author@, encode_utf8(title)]
}

/// The seeds of the counter of the review at `review`.
pub open spec fn counter_seeds(review: Address) -> Seq<Seq<u8>> {
    seq![review@, COUNTER_SEED@]
}

/// The seeds of the comment number `count` on the review at `review`: the
/// review and the number, most significant byte first.
pub open spec fn comment_seeds(review: Address, count: u64) -> Seq<Seq<u8>> {
    seq![review@, spec_u64_to_be_bytes(count)]
}

/// The seeds of the reward mint.
pub open spec fn token_mint_seeds() -> Seq<Seq<u8>> {
    seq![TOKEN_MINT_SEED@]
}

/// The seeds of the mint authority.
pub open spec fn mint_auth_seeds() -> Seq<Seq<u8>> {
    seq![MINT_AUTH_SEED@]
}

/// A list of two seeds.
fn two_seeds(first: Vec<u8>, second: Vec<u8>) -> (seeds: Vec<Vec<u8>>)
    ensures
        seed_views(seeds@) == seq![first@, second@],
{
    let ghost (a, b) = (first@, second@);
    let mut seeds: Vec<Vec<u8>> = Vec::new();
    seeds.push(first);
    seeds.push(second);
    assert(seed_views(seeds@) =~= seq![a, b]);
    seeds
}

/// A list of one seed.
fn one_seed(word: &[u8]) -> (seeds: Vec<Vec<u8>>)
    ensures
        seed_views(seeds@) == seq![word@],
{
    let mut seeds: Vec<Vec<u8>> = Vec::new();
    seeds.push(slice_to_vec(word));
    assert(seed_views(seeds@) =~= seq![word@]);
    seeds
}

/// The seeds `seeds` with the bump seed `bump` behind them.
fn with_bump(seeds: Vec<Vec<u8>>, bump: u8) -> (signer: Vec<Vec<u8>>)
    ensures
        seed_views(signer@) == seed_views(seeds@).push(seq![bump]),
{
    let ghost before = seed_views(seeds@);
    let mut signer = seeds;
    let mut last: Vec<u8> = Vec::new();
    last.push(bump);
    signer.push(last);
    assert(seed_views(signer@) =~= before.push(seq![bump]));
    signer
}

/// The addresses that the program derives for the payment of a reward: the
/// reward mint, its authority with the bump seed found for it, and the
/// associated token account of the rewarded wallet.
#[derive(Clone, Copy, Debug)]
pub struct RewardAddresses {
    pub token_mint: Option<Address>,
    pub mint_auth: Option<(Address, u8)>,
    pub user_ata: Option<Address>,
}

/// The addresses that the program derives for a new review: the review's
/// and its counter's, each with the bump seed found for it, and those of
/// the reward.
#[derive(Clone, Copy, Debug)]
pub struct ReviewAddresses {
    pub review: Option<(Address, u8)>,
    pub counter: Option<(Address, u8)>,
    pub reward: RewardAddresses,
}

/// The addresses that the program derives for a new comment: the comment's
/// with the bump seed found for it, and those of the reward.
#[derive(Clone, Copy, Debug)]
pub struct CommentAddresses {
    pub comment: Option<(Address, u8)>,
    pub reward: RewardAddresses,
}

/// The addresses that the program derives for the creation of the reward
/// mint: the mint's with the bump seed found for it, and its authority's.
#[derive(Clone, Copy, Debug)]
pub struct MintAddresses {
    pub token_mint: Option<(Address, u8)>,
    pub mint_auth: Option<Address>,
}

/// What the program `program_id` derives for a reward to `wallet`, paid in
/// the mint at `token_mint`.
pub open spec fn spec_reward_addresses(program_id: Address, token_mint: Address, wallet: Address) -> RewardAddresses {
    RewardAddresses {
        token_mint: address_of_found(spec_find_address(token_mint_seeds(), program_id)),
        mint_auth: spec_find_address(mint_auth_seeds(), program_id),
        user_ata: spec_associated_token_address(wallet, token_mint),
    }
}

/// Derives the addresses for a reward.
pub fn derive_reward_addresses(program_id: &Address, token_mint: &Address, wallet: &Address) -> (r:
    RewardAddresses)
    ensures
        r == spec_reward_addresses(*program_id, *token_mint, *wallet),
{
    let mint = match find_address(&one_seed(TOKEN_MINT_SEED.as_slice()), program_id) {
        Some((address, _)) => Some(address),
        None => None,
    };
    RewardAddresses {
        token_mint: mint,
        mint_auth: find_address(&one_seed(MINT_AUTH_SEED.as_slice()), program_id),
        user_ata: get_associated_token_address(wallet, token_mint),
    }
}

/// Whether the accounts that pay a reward out lie at the addresses
/// `reward`, and the token program is the token program.
pub open spec fn reward_accounts_match(
    token_mint: Address,
    mint_auth: Address,
    user_ata: Address,
    token_program_id: Address,
    reward: RewardAddresses,
) -> bool {
    &&& reward.token_mint == Some(token_mint)
    &&& bump_at(reward.mint_auth, mint_auth) is Some
    &&& reward.user_ata == Some(user_ata)
    &&& token_program_id == token_program()
}

/// The bump seed of the mint authority, where the accounts that pay a
/// reward out are the expected ones.
fn check_reward_accounts(
    token_mint: &Address,
    mint_auth: &Address,
    user_ata: &Address,
    token_program_id: &Address,
    reward: &RewardAddresses,
) -> (r: Option<u8>)
    ensures
        r is Some <==> reward_accounts_match(
            *token_mint,
            *mint_auth,
            *user_ata,
            *token_program_id,
            *reward,
        ),
        r is Some ==> r == bump_at(reward.mint_auth, *mint_auth),
{
    if !is_address(reward.token_mint, token_mint) {
        return None;
    }
    let bump = match bump_of(reward.mint_auth, mint_auth) {
        Some(bump) => bump,
        None => {
            return None;
        },
    };
    if !is_address(reward.user_ata, user_ata) {
        return None;
    }
    if *token_program_id != crate::token::token_program_id() {
        return None;
    }
    Some(bump)
}

/// The effect that mints `tokens` reward tokens to the account at position
/// `to`, with the mint at position `mint` and its authority at position
/// `authority`, which signs with the bump seed `bump`; `positions` are the
/// accounts of the invocation.
pub open spec fn reward_effect(
    accounts: Seq<AccountInfo>,
    mint: int,
    authority: int,
    to: int,
    token_program_id: Address,
    tokens: u64,
    positions: Seq<usize>,
    bump: u8,
) -> EffectView {
    invoke_signed(
        spec_mint_to(
            token_program_id,
            accounts[mint].key,
            accounts[to].key,
            accounts[authority].key,
            (tokens * LAMPORTS_PER_SOL) as u64,
        ),
        positions,
        mint_auth_seeds().push(seq![bump]),
    )
}

/// Whether a rating is one to five stars.
pub open spec fn valid_rating(rating: u8) -> bool {
    1 <= rating <= 5
}

/// Whether a review with the given title and description fits into the
/// account of a review.
fn review_fits(title: &str, description: &str) -> (r: bool)
    ensures
        r == (ReviewState::spec_space(title@, description@) <= ReviewState::MAX_SPACE),
{
    let title_len = title.as_bytes().len();
    let description_len = description.as_bytes().len();
    title_len <= ReviewState::MAX_SPACE && description_len <= ReviewState::MAX_SPACE
        && REVIEW_FIXED_SPACE + title_len + description_len <= ReviewState::MAX_SPACE
}

/// The review that `process_add_movie_review` stores.
pub open spec fn new_review(reviewer: Address, title: Seq<char>, rating: u8, description: Seq<char>) -> ReviewStateView {
    ReviewStateView {
        discriminator: ReviewState::DISCRIMINATOR@,
        is_initialized: true,
        reviewer,
        rating,
        title,
        description,
    }
}

/// The counter of a review without comments.
pub open spec fn new_counter() -> ReviewCommentCounterStateView {
    ReviewCommentCounterStateView {
        discriminator: ReviewCommentCounterState::DISCRIMINATOR@,
        is_initialized: true,
        counter: 0,
    }
}

/// What a new review answers, given the addresses `derived` for it.
///
/// The accounts are, in order: the author, the review, its counter, the
/// reward mint, the mint authority, the author's token account, the system
/// program and the token program.
pub open spec fn spec_add_movie_review_at(
    program_id: Address,
    accounts: Seq<AccountInfo>,
    title: Seq<char>,
    rating: u8,
    description: Seq<char>,
    rent: Rent,
    derived: ReviewAddresses,
) -> Result<Seq<EffectView>, ProgramError> {
    let review_bump = bump_at(derived.review, accounts[1].key);
    let counter_bump = bump_at(derived.counter, accounts[2].key);
    let review = new_review(accounts[0].key, title, rating, description);
    if accounts.len() < 8 {
        Err(ProgramError::NotEnoughAccountKeys)
    } else if !accounts[0].is_signer {
        Err(ProgramError::MissingRequiredSignature)
    } else if review_bump is None {
        Err(ProgramError::InvalidSeeds)
    } else if !valid_rating(rating) {
        Err(ReviewError::InvalidRating.to_program_error())
    } else if ReviewState::spec_space(title, description) > ReviewState::MAX_SPACE {
        Err(ReviewError::InvalidDataLength.to_program_error())
    } else if counter_bump is None {
        Err(ProgramError::InvalidSeeds)
    } else if !reward_accounts_match(
        accounts[3].key,
        accounts[4].key,
        accounts[5].key,
        accounts[7].key,
        derived.reward,
    ) {
        Err(ReviewError::IncorrectAccountError.to_program_error())
    } else {
        Ok(
            seq![
                invoke_signed(
                    spec_create_account(
                        accounts[0].key,
                        accounts[1].key,
                        rent.spec_minimum_balance(ReviewState::MAX_SPACE)->0,
                        ReviewState::MAX_SPACE as u64,
                        program_id,
                    ),
                    seq![0usize, 1usize, 6usize],
                    review_seeds(accounts[0].key, title).push(seq![review_bump->0]),
                ),
                EffectView::Write { account: 1, data: review.spec_pack() },
                invoke_signed(
                    spec_create_account(
                        accounts[0].key,
                        accounts[2].key,
                        rent.spec_minimum_balance(ReviewCommentCounterState::SPACE)->0,
                        ReviewCommentCounterState::SPACE as u64,
                        program_id,
                    ),
                    seq![0usize, 2usize, 6usize],
                    counter_seeds(accounts[1].key).push(seq![counter_bump->0]),
                ),
                EffectView::Write { account: 2, data: new_counter().spec_pack() },
                reward_effect(
                    accounts,
                    3,
                    4,
                    5,
                    accounts[7].key,
                    REVIEW_REWARD,
                    seq![3usize, 5usize, 4usize],
                    bump_at(derived.reward.mint_auth, accounts[4].key)->0,
                ),
            ],
        )
    }
}

/// What the program `program_id` derives for the accounts of a new review
/// of the movie `title`.
pub open spec fn spec_review_addresses(program_id: Address, accounts: Seq<AccountInfo>, title: Seq<char>) -> ReviewAddresses {
    ReviewAddresses {
        review: spec_find_address(review_seeds(accounts[0].key, title), program_id),
        counter: spec_find_address(counter_seeds(accounts[1].key), program_id),
        reward: spec_reward_addresses(program_id, accounts[3].key, accounts[0].key),
    }
}

/// What `process_add_movie_review` answers: what the new review answers,
/// given the addresses that the program derives.
pub open spec fn spec_process_add_movie_review(
    program_id: Address,
    accounts: Seq<AccountInfo>,
    title: Seq<char>,
    rating: u8,
    description: Seq<char>,
    rent: Rent,
) -> Result<Seq<EffectView>, ProgramError> {
    if accounts.len() < 8 {
        Err(ProgramError::NotEnoughAccountKeys)
    } else {
        spec_add_movie_review_at(
            program_id,
            accounts,
            title,
            rating,
            description,
            rent,
            spec_review_addresses(program_id, accounts, title),
        )
    }
}

/// Stores the review of the movie `title` by the signing author, with a
/// counter for its comments, and rewards the author with ten tokens, where
/// the accounts lie at the addresses `derived`. The rating is one to five,
/// and the review fits into 1000 bytes.
pub fn add_movie_review_at(
    program_id: &Address,
    accounts: &[AccountInfo],
    title: String,
    rating: u8,
    description: String,
    rent: &Rent,
    derived: &ReviewAddresses,
) -> (r: Result<Vec<Effect>, ProgramError>)
    ensures
        answers(
            r,
            spec_add_movie_review_at(
                *program_id,
                accounts@,
                title@,
                rating,
                description@,
                *rent,
                *derived,
            ),
        ),
{
    if accounts.len() < 8 {
        return Err(ProgramError::NotEnoughAccountKeys);
    }
    let author = &accounts[0].key;
    let review_key = &accounts[1].key;
    let counter_key = &accounts[2].key;
    if !accounts[0].is_signer {
        return Err(ProgramError::MissingRequiredSignature);
    }
    let review_bump = match bump_of(derived.review, review_key) {
        Some(bump) => bump,
        None => {
            return Err(ProgramError::InvalidSeeds);
        },
    };
    if rating < 1 || rating > 5 {
        return Err(ProgramError::from(ReviewError::InvalidRating));
    }
    if !review_fits(title.as_str(), description.as_str()) {
        return Err(ProgramError::from(ReviewError::InvalidDataLength));
    }
    let review_rent = match rent.minimum_balance(ReviewState::MAX_SPACE) {
        Some(lamports) => lamports,
        None => {
            return Err(ProgramError::ArithmeticOverflow);
        },
    };
    let create_review = crate::system::create_account(
        author,
        review_key,
        review_rent,
        ReviewState::MAX_SPACE as u64,
        program_id,
    );
    let review_signer = with_bump(
        two_seeds(author.to_vec(), slice_to_vec(title.as_str().as_bytes())),
        review_bump,
    );
    let review = ReviewState {
        discriminator: ReviewState::DISCRIMINATOR.to_owned(),
        is_initialized: true,
        reviewer: *author,
        rating,
        title,
        description,
    };
    let stored_review = match review.pack() {
        Ok(data) => data,
        Err(e) => {
            proof {
                lemma_words_storable();
            }
            return Err(e);
        },
    };
    let counter_bump = match bump_of(derived.counter, counter_key) {
        Some(bump) => bump,
        None => {
            return Err(ProgramError::InvalidSeeds);
        },
    };
    let counter_rent = match rent.minimum_balance(ReviewCommentCounterState::SPACE) {
        Some(lamports) => lamports,
        None => {
            return Err(ProgramError::ArithmeticOverflow);
        },
    };
    let create_counter = crate::system::create_account(
        author,
        counter_key,
        counter_rent,
        ReviewCommentCounterState::SPACE as u64,
        program_id,
    );
    let counter = ReviewCommentCounterState {
        discriminator: ReviewCommentCounterState::DISCRIMINATOR.to_owned(),
        is_initialized: true,
        counter: 0,
    };
    let stored_counter = match counter.pack() {
        Ok(data) => data,
        Err(e) => {
            proof {
                lemma_words_storable();
            }
            return Err(e);
        },
    };
    let mint_auth_bump = match check_reward_accounts(
        &accounts[3].key,
        &accounts[4].key,
        &accounts[5].key,
        &accounts[7].key,
        &derived.reward,
    ) {
        Some(bump) => bump,
        None => {
            return Err(ProgramError::from(ReviewError::IncorrectAccountError));
        },
    };
    let reward = match crate::token::mint_to(
        &accounts[7].key,
        &accounts[3].key,
        &accounts[5].key,
        &accounts[4].key,
        REVIEW_REWARD * LAMPORTS_PER_SOL,
    ) {
        Ok(instruction) => instruction,
        Err(e) => {
            return Err(e);
        },
    };
    let mut effects: Vec<Effect> = Vec::new();
    effects.push(Effect::invoke_signed(create_review, vec![0, 1, 6], review_signer));
    effects.push(Effect::Write { account: 1, data: stored_review });
    effects.push(
        Effect::invoke_signed(
            create_counter,
            vec![0, 2, 6],
            with_bump(
                two_seeds(review_key.to_vec(), slice_to_vec(COUNTER_SEED.as_slice())),
                counter_bump,
            ),
        ),
    );
    effects.push(Effect::Write { account: 2, data: stored_counter });
    effects.push(
        Effect::invoke_signed(
            reward,
            vec![3, 5, 4],
            with_bump(one_seed(MINT_AUTH_SEED.as_slice()), mint_auth_bump),
        ),
    );
    proof {
        let expected = spec_add_movie_review_at(
            *program_id,
            accounts@,
            review@.title,
            rating,
            review@.description,
            *rent,
            *derived,
        );
        assert(expected is Ok);
        assert(views(effects@) =~= expected->Ok_0);
    }
    Ok(effects)
}

/// Stores a review: derives the addresses of its accounts and stores it at
/// them.
pub fn process_add_movie_review(
    program_id: &Address,
    accounts: &[AccountInfo],
    title: String,
    rating: u8,
    description: String,
    rent: &Rent,
) -> (r: Result<Vec<Effect>, ProgramError>)
    ensures
        answers(
            r,
            spec_process_add_movie_review(
                *program_id,
                accounts@,
                title@,
                rating,
                description@,
                *rent,
            ),
        ),
{
    if accounts.len() < 8 {
        return Err(ProgramError::NotEnoughAccountKeys);
    }
    let derived = ReviewAddresses {
        review: find_address(
            &two_seeds(accounts[0].key.to_vec(), slice_to_vec(title.as_str().as_bytes())),
            program_id,
        ),
        counter: find_address(
            &two_seeds(accounts[1].key.to_vec(), slice_to_vec(COUNTER_SEED.as_slice())),
            program_id,
        ),
        reward: derive_reward_addresses(program_id, &accounts[3].key, &accounts[0].key),
    };
    add_movie_review_at(program_id, accounts, title, rating, description, rent, &derived)
}

/// The words that mark the records are short enough to be stored.
proof fn lemma_words_storable()
    ensures
        encode_utf8(ReviewState::DISCRIMINATOR@).len() <= u32::MAX,
        encode_utf8(ReviewCommentCounterState::DISCRIMINATOR@).len() <= u32::MAX,
        encode_utf8(ReviewCommentState::DISCRIMINATOR@).len() <= u32::MAX,
{
    reveal_strlit("review");
    reveal_strlit("counter");
    reveal_strlit("comment");
    vstd::utf8::is_ascii_chars_encode_utf8(ReviewState::DISCRIMINATOR@);
    vstd::utf8::is_ascii_chars_encode_utf8(ReviewCommentCounterState::DISCRIMINATOR@);
    vstd::utf8::is_ascii_chars_encode_utf8(ReviewCommentState::DISCRIMINATOR@);
}

/// The review `stored` with a new rating and description.
pub open spec fn updated_review(stored: ReviewStateView, rating: u8, description: Seq<char>) -> ReviewStateView {
    ReviewStateView { rating, description, ..stored }
}

/// What an update of a review answers, where `review` is the address
/// derived for the review.
///
/// The accounts are, in order: the author and the review.
pub open spec fn spec_update_movie_review_at(
    program_id: Address,
    accounts: Seq<AccountInfo>,
    title: Seq<char>,
    rating: u8,
    description: Seq<char>,
    review: Option<Address>,
) -> Result<Seq<EffectView>, ProgramError> {
    if accounts.len() < 2 {
        Err(ProgramError::NotEnoughAccountKeys)
    } else if !accounts[0].is_signer {
        Err(ProgramError::MissingRequiredSignature)
    } else if accounts[1].owner != program_id {
        Err(ProgramError::InvalidAccountOwner)
    } else if review != Some(accounts[1].key) {
        Err(ProgramError::InvalidSeeds)
    } else {
        match ReviewState::spec_unpack(accounts[1].data@) {
            Err(e) => Err(e),
            Ok(stored) => if !stored.is_initialized {
                Err(ProgramError::UninitializedAccount)
            } else if !valid_rating(rating) {
                Err(ReviewError::InvalidRating.to_program_error())
            } else if ReviewState::spec_space(title, description) > ReviewState::MAX_SPACE {
                Err(ReviewError::InvalidDataLength.to_program_error())
            } else if !updated_review(stored, rating, description).storable() || updated_review(
                stored,
                rating,
                description,
            ).spec_pack().len() > accounts[1].data@.len() {
                Err(ProgramError::BorshIoError)
            } else {
                Ok(
                    seq![
                        EffectView::Write {
                            account: 1,
                            data: updated_review(stored, rating, description).spec_pack(),
                        },
                    ],
                )
            },
        }
    }
}

/// What `process_update_movie_review` answers: what the update answers,
/// given the address that the program derives for the review.
pub open spec fn spec_process_update_movie_review(
    program_id: Address,
    accounts: Seq<AccountInfo>,
    title: Seq<char>,
    rating: u8,
    description: Seq<char>,
) -> Result<Seq<EffectView>, ProgramError> {
    if accounts.len() < 2 {
        Err(ProgramError::NotEnoughAccountKeys)
    } else {
        spec_update_movie_review_at(
            program_id,
            accounts,
            title,
            rating,
            description,
            address_of_found(spec_find_address(review_seeds(accounts[0].key, title), program_id)),
        )
    }
}

/// Replaces the rating and the description of the signing author's review
/// of the movie `title`, where the review lies at the address `review`. The
/// review is owned by the program and in use; the new review fits into 1000
/// bytes and into its account.
pub fn update_movie_review_at(
    program_id: &Address,
    accounts: &[AccountInfo],
    title: String,
    rating: u8,
    description: String,
    review: Option<Address>,
) -> (r: Result<Vec<Effect>, ProgramError>)
    ensures
        answers(
            r,
            spec_update_movie_review_at(
                *program_id,
                accounts@,
                title@,
                rating,
                description@,
                review,
            ),
        ),
{
    if accounts.len() < 2 {
        return Err(ProgramError::NotEnoughAccountKeys);
    }
    if !accounts[0].is_signer {
        return Err(ProgramError::MissingRequiredSignature);
    }
    if accounts[1].owner != *program_id {
        return Err(ProgramError::InvalidAccountOwner);
    }
    if !is_address(review, &accounts[1].key) {
        return Err(ProgramError::InvalidSeeds);
    }
    let mut state = match ReviewState::unpack(accounts[1].data.as_slice()) {
        Ok(state) => state,
        Err(e) => {
            return Err(e);
        },
    };
    let ghost stored = state@;
    if !state.is_initialized() {
        return Err(ProgramError::UninitializedAccount);
    }
    if rating < 1 || rating > 5 {
        return Err(ProgramError::from(ReviewError::InvalidRating));
    }
    if !review_fits(title.as_str(), description.as_str()) {
        return Err(ProgramError::from(ReviewError::InvalidDataLength));
    }
    state.rating = rating;
    state.description = description;
    assert(state@ == updated_review(stored, rating, state@.description));
    let data = match state.pack() {
        Ok(data) => data,
        Err(e) => {
            return Err(e);
        },
    };
    if data.len() > accounts[1].data.len() {
        return Err(ProgramError::BorshIoError);
    }
    let mut effects: Vec<Effect> = Vec::new();
    effects.push(Effect::Write { account: 1, data });
    proof {
        let expected = spec_update_movie_review_at(
            *program_id,
            accounts@,
            title@,
            rating,
            state@.description,
            review,
        );
        assert(expected is Ok);
        assert(views(effects@) =~= expected->Ok_0);
    }
    Ok(effects)
}

/// Updates a review: derives its address and updates it there.
pub fn process_update_movie_review(
    program_id: &Address,
    accounts: &[AccountInfo],
    title: String,
    rating: u8,
    description: String,
) -> (r: Result<Vec<Effect>, ProgramError>)
    ensures
        answers(
            r,
            spec_process_update_movie_review(*program_id, accounts@, title@, rating, description@),
        ),
{
    if accounts.len() < 2 {
        return Err(ProgramError::NotEnoughAccountKeys);
    }
    let review = match find_address(
        &two_seeds(accounts[0].key.to_vec(), slice_to_vec(title.as_str().as_bytes())),
        program_id,
    ) {
        Some((address, _)) => Some(address),
        None => None,
    };
    update_movie_review_at(program_id, accounts, title, rating, description, review)
}

/// The comment that `process_add_comment` stores.
pub open spec fn new_comment(review: Address, commenter: Address, comment: Seq<char>, count: u64) -> ReviewCommentStateView {
    ReviewCommentStateView {
        discriminator: ReviewCommentState::DISCRIMINATOR@,
        is_initialized: true,
        review,
        commenter,
        comment,
        count,
    }
}

/// The counter `stored` one comment later.
pub open spec fn next_counter(stored: ReviewCommentCounterStateView) -> ReviewCommentCounterStateView {
    ReviewCommentCounterStateView { counter: (stored.counter + 1) as u64, ..stored }
}

/// What a new comment answers, where the counter of the review holds
/// `stored`, given the addresses `derived` for the comment.
///
/// The accounts are, in order: the commenter, the review, its counter, the
/// comment, the reward mint, the mint authority, the commenter's token
/// account, the system program and the token program.
pub open spec fn spec_add_comment_at(
    program_id: Address,
    accounts: Seq<AccountInfo>,
    comment: Seq<char>,
    rent: Rent,
    stored: ReviewCommentCounterStateView,
    derived: CommentAddresses,
) -> Result<Seq<EffectView>, ProgramError> {
    let space = ReviewCommentState::spec_space(comment);
    let bump = bump_at(derived.comment, accounts[3].key);
    let text = new_comment(accounts[1].key, accounts[0].key, comment, stored.counter);
    if accounts.len() < 9 {
        Err(ProgramError::NotEnoughAccountKeys)
    } else if space > usize::MAX || rent.spec_minimum_balance(space as usize) is None {
        Err(ProgramError::InvalidRealloc)
    } else if bump is None {
        Err(ProgramError::InvalidSeeds)
    } else if stored.counter == u64::MAX {
        Err(ProgramError::ArithmeticOverflow)
    } else if !next_counter(stored).storable() || next_counter(stored).spec_pack().len()
        > accounts[2].data@.len() {
        Err(ProgramError::BorshIoError)
    } else if !reward_accounts_match(
        accounts[4].key,
        accounts[5].key,
        accounts[6].key,
        accounts[8].key,
        derived.reward,
    ) {
        Err(ReviewError::IncorrectAccountError.to_program_error())
    } else {
        Ok(
            seq![
                invoke_signed(
                    spec_create_account(
                        accounts[0].key,
                        accounts[3].key,
                        rent.spec_minimum_balance(space as usize)->0,
                        space as u64,
                        program_id,
                    ),
                    seq![0usize, 3usize, 7usize],
                    comment_seeds(accounts[1].key, stored.counter).push(seq![bump->0]),
                ),
                EffectView::Write { account: 3, data: text.spec_pack() },
                EffectView::Write { account: 2, data: next_counter(stored).spec_pack() },
                reward_effect(
                    accounts,
                    4,
                    5,
                    6,
                    accounts[8].key,
                    COMMENT_REWARD,
                    seq![5usize, 6usize, 4usize],
                    bump_at(derived.reward.mint_auth, accounts[5].key)->0,
                ),
            ],
        )
    }
}

/// What the program `program_id` derives for the accounts of the comment
/// number `count`.
pub open spec fn spec_comment_addresses(program_id: Address, accounts: Seq<AccountInfo>, count: u64) -> CommentAddresses {
    CommentAddresses {
        comment: spec_find_address(comment_seeds(accounts[1].key, count), program_id),
        reward: spec_reward_addresses(program_id, accounts[4].key, accounts[0].key),
    }
}

/// What `process_add_comment` answers: what the new comment answers with
/// the counter that the counter's account stores, given the addresses that
/// the program derives.
pub open spec fn spec_process_add_comment(
    program_id: Address,
    accounts: Seq<AccountInfo>,
    comment: Seq<char>,
    rent: Rent,
) -> Result<Seq<EffectView>, ProgramError> {
    if accounts.len() < 9 {
        Err(ProgramError::NotEnoughAccountKeys)
    } else {
        match ReviewCommentCounterState::spec_unpack(accounts[2].data@) {
            Err(e) => Err(e),
            Ok(stored) => spec_add_comment_at(
                program_id,
                accounts,
                comment,
                rent,
                stored,
                spec_comment_addresses(program_id, accounts, stored.counter),
            ),
        }
    }
}

/// Stores a comment on a review, counts it, and rewards the commenter with
/// five tokens, where `counter` is the counter of the review and the
/// accounts lie at the addresses `derived`.
pub fn add_comment_at(
    program_id: &Address,
    accounts: &[AccountInfo],
    comment: String,
    rent: &Rent,
    counter: ReviewCommentCounterState,
    derived: &CommentAddresses,
) -> (r: Result<Vec<Effect>, ProgramError>)
    ensures
        answers(
            r,
            spec_add_comment_at(*program_id, accounts@, comment@, *rent, counter@, *derived),
        ),
{
    if accounts.len() < 9 {
        return Err(ProgramError::NotEnoughAccountKeys);
    }
    let commenter = &accounts[0].key;
    let review_key = &accounts[1].key;
    let comment_key = &accounts[3].key;
    let ghost stored = counter@;
    let mut counter = counter;
    let count = counter.counter;
    let comment_len = comment.as_str().as_bytes().len();
    if comment_len > usize::MAX - COMMENT_FIXED_SPACE {
        return Err(ProgramError::InvalidRealloc);
    }
    let space = COMMENT_FIXED_SPACE + comment_len;
    let comment_rent = match rent.minimum_balance(space) {
        Some(lamports) => lamports,
        None => {
            return Err(ProgramError::InvalidRealloc);
        },
    };
    let bump = match bump_of(derived.comment, comment_key) {
        Some(bump) => bump,
        None => {
            return Err(ProgramError::InvalidSeeds);
        },
    };
    let create_comment = crate::system::create_account(
        commenter,
        comment_key,
        comment_rent,
        space as u64,
        program_id,
    );
    let text = ReviewCommentState {
        discriminator: ReviewCommentState::DISCRIMINATOR.to_owned(),
        is_initialized: true,
        review: *review_key,
        commenter: *commenter,
        comment,
        count,
    };
    let stored_comment = match text.pack() {
        Ok(data) => data,
        Err(e) => {
            proof {
                lemma_words_storable();
            }
            return Err(e);
        },
    };
    if count == u64::MAX {
        return Err(ProgramError::ArithmeticOverflow);
    }
    counter.counter = count + 1;
    assert(counter@ == next_counter(stored));
    let stored_counter = match counter.pack() {
        Ok(data) => data,
        Err(e) => {
            return Err(e);
        },
    };
    if stored_counter.len() > accounts[2].data.len() {
        return Err(ProgramError::BorshIoError);
    }
    let mint_auth_bump = match check_reward_accounts(
        &accounts[4].key,
        &accounts[5].key,
        &accounts[6].key,
        &accounts[8].key,
        &derived.reward,
    ) {
        Some(bump) => bump,
        None => {
            return Err(ProgramError::from(ReviewError::IncorrectAccountError));
        },
    };
    let reward = match crate::token::mint_to(
        &accounts[8].key,
        &accounts[4].key,
        &accounts[6].key,
        &accounts[5].key,
        COMMENT_REWARD * LAMPORTS_PER_SOL,
    ) {
        Ok(instruction) => instruction,
        Err(e) => {
            return Err(e);
        },
    };
    let mut effects: Vec<Effect> = Vec::new();
    effects.push(
        Effect::invoke_signed(
            create_comment,
            vec![0, 3, 7],
            with_bump(two_seeds(review_key.to_vec(), u64_to_be_bytes(count)), bump),
        ),
    );
    effects.push(Effect::Write { account: 3, data: stored_comment });
    effects.push(Effect::Write { account: 2, data: stored_counter });
    effects.push(
        Effect::invoke_signed(
            reward,
            vec![5, 6, 4],
            with_bump(one_seed(MINT_AUTH_SEED.as_slice()), mint_auth_bump),
        ),
    );
    proof {
        let expected = spec_add_comment_at(
            *program_id,
            accounts@,
            text@.comment,
            *rent,
            stored,
            *derived,
        );
        assert(expected is Ok);
        assert(views(effects@) =~= expected->Ok_0);
    }
    Ok(effects)
}

/// Stores a comment: reads the counter of the review, derives the addresses
/// of the accounts and stores the comment at them.
pub fn process_add_comment(program_id: &Address, accounts: &[AccountInfo], comment: String, rent: &Rent) -> (r:
    Result<Vec<Effect>, ProgramError>)
    ensures
        answers(r, spec_process_add_comment(*program_id, accounts@, comment@, *rent)),
{
    if accounts.len() < 9 {
        return Err(ProgramError::NotEnoughAccountKeys);
    }
    let counter = match ReviewCommentCounterState::unpack(accounts[2].data.as_slice()) {
        Ok(counter) => counter,
        Err(e) => {
            return Err(e);
        },
    };
    let derived = CommentAddresses {
        comment: find_address(
            &two_seeds(accounts[1].key.to_vec(), u64_to_be_bytes(counter.counter)),
            program_id,
        ),
        reward: derive_reward_addresses(program_id, &accounts[4].key, &accounts[0].key),
    };
    add_comment_at(program_id, accounts, comment, rent, counter, &derived)
}

/// What the creation of the reward mint answers, given the addresses
/// `derived` for it: the creation of the mint at its address, with nine
/// decimal places and the derived mint authority; `IncorrectAccountError`
/// where the mint, its authority or the token program are not the expected
/// accounts.
///
/// The accounts are, in order: the initializer, the reward mint, the mint
/// authority, the system program and the token program.
pub open spec fn spec_initialize_token_mint_at(
    accounts: Seq<AccountInfo>,
    rent: Rent,
    derived: MintAddresses,
) -> Result<Seq<EffectView>, ProgramError> {
    let mint_bump = bump_at(derived.token_mint, accounts[1].key);
    if accounts.len() < 5 {
        Err(ProgramError::NotEnoughAccountKeys)
    } else if mint_bump is None || derived.mint_auth != Some(accounts[2].key) || accounts[4].key
        != token_program() {
        Err(ReviewError::IncorrectAccountError.to_program_error())
    } else {
        Ok(
            seq![
                invoke_signed(
                    spec_create_account(
                        accounts[0].key,
                        accounts[1].key,
                        rent.spec_minimum_balance(MINT_LEN)->0,
                        MINT_LEN as u64,
                        accounts[4].key,
                    ),
                    seq![0usize, 1usize, 3usize],
                    token_mint_seeds().push(seq![mint_bump->0]),
                ),
                invoke_signed(
                    spec_initialize_mint2(
                        accounts[4].key,
                        accounts[1].key,
                        accounts[2].key,
                        REWARD_DECIMALS,
                    ),
                    seq![1usize, 2usize],
                    token_mint_seeds().push(seq![mint_bump->0]),
                ),
            ],
        )
    }
}

/// What `initialize_token_mint` answers: what the creation of the reward
/// mint answers, given the addresses that the program derives.
pub open spec fn spec_initialize_token_mint(program_id: Address, accounts: Seq<AccountInfo>, rent: Rent) -> Result<
    Seq<EffectView>,
    ProgramError,
> {
    spec_initialize_token_mint_at(
        accounts,
        rent,
        (MintAddresses {
            token_mint: spec_find_address(token_mint_seeds(), program_id),
            mint_auth: address_of_found(spec_find_address(mint_auth_seeds(), program_id)),
        }),
    )
}

/// Creates the reward mint, where the accounts lie at the addresses
/// `derived`.
pub fn initialize_token_mint_at(accounts: &[AccountInfo], rent: &Rent, derived: &MintAddresses) -> (r:
    Result<Vec<Effect>, ProgramError>)
    ensures
        answers(r, spec_initialize_token_mint_at(accounts@, *rent, *derived)),
{
    if accounts.len() < 5 {
        return Err(ProgramError::NotEnoughAccountKeys);
    }
    let token_mint = &accounts[1].key;
    let mint_auth = &accounts[2].key;
    let token_program_id = &accounts[4].key;
    let mint_bump = match bump_of(derived.token_mint, token_mint) {
        Some(bump) => bump,
        None => {
            return Err(ProgramError::from(ReviewError::IncorrectAccountError));
        },
    };
    if !is_address(derived.mint_auth, mint_auth) {
        return Err(ProgramError::from(ReviewError::IncorrectAccountError));
    }
    if *token_program_id != crate::token::token_program_id() {
        return Err(ProgramError::from(ReviewError::IncorrectAccountError));
    }
    let mint_rent = match rent.minimum_balance(MINT_LEN) {
        Some(lamports) => lamports,
        None => {
            return Err(ProgramError::ArithmeticOverflow);
        },
    };
    let create = crate::system::create_account(
        &accounts[0].key,
        token_mint,
        mint_rent,
        MINT_LEN as u64,
        token_program_id,
    );
    let initialize = match crate::token::initialize_mint2(
        token_program_id,
        token_mint,
        mint_auth,
        REWARD_DECIMALS,
    ) {
        Ok(instruction) => instruction,
        Err(e) => {
            return Err(e);
        },
    };
    let mut effects: Vec<Effect> = Vec::new();
    effects.push(
        Effect::invoke_signed(
            create,
            vec![0, 1, 3],
            with_bump(one_seed(TOKEN_MINT_SEED.as_slice()), mint_bump),
        ),
    );
    effects.push(
        Effect::invoke_signed(
            initialize,
            vec![1, 2],
            with_bump(one_seed(TOKEN_MINT_SEED.as_slice()), mint_bump),
        ),
    );
    proof {
        let expected = spec_initialize_token_mint_at(accounts@, *rent, *derived);
        assert(views(effects@) =~= expected->Ok_0);
    }
    Ok(effects)
}

/// Creates the reward mint: derives its addresses and creates it at them.
pub fn initialize_token_mint(program_id: &Address, accounts: &[AccountInfo], rent: &Rent) -> (r: Result<
    Vec<Effect>,
    ProgramError,
>)
    ensures
        answers(r, spec_initialize_token_mint(*program_id, accounts@, *rent)),
{
    let mint_auth = match find_address(&one_seed(MINT_AUTH_SEED.as_slice()), program_id) {
        Some((address, _)) => Some(address),
        None => None,
    };
    let derived = MintAddresses {
        token_mint: find_address(&one_seed(TOKEN_MINT_SEED.as_slice()), program_id),
        mint_auth,
    };
    initialize_token_mint_at(accounts, rent, &derived)
}

/// What `process_instruction` answers: what the processor of the encoded
/// instruction answers, or `InvalidInstructionData` where `data` encodes
/// none.
pub open spec fn spec_process_instruction(
    program_id: Address,
    accounts: Seq<AccountInfo>,
    data: Seq<u8>,
    rent: Rent,
) -> Result<Seq<EffectView>, ProgramError> {
    match MovieInstruction::spec_unpack(data) {
        Err(e) => Err(e),
        Ok(
            MovieInstructionView::AddMovieReview { title, rating, description },
        ) => spec_process_add_movie_review(program_id, accounts, title, rating, description, rent),
        Ok(
            MovieInstructionView::UpdateMovieReview { title, rating, description },
        ) => spec_process_update_movie_review(program_id, accounts, title, rating, description),
        Ok(MovieInstructionView::AddComment { comment }) => spec_process_add_comment(
            program_id,
            accounts,
            comment,
            rent,
        ),
        Ok(MovieInstructionView::InitializeMint) => spec_initialize_token_mint(
            program_id,
            accounts,
            rent,
        ),
    }
}

/// Decodes an instruction and hands it to its processor.
pub fn process_instruction(
    program_id: &Address,
    accounts: &[AccountInfo],
    instruction_data: &[u8],
    rent: &Rent,
) -> (r: Result<Vec<Effect>, ProgramError>)
    ensures
        answers(r, spec_process_instruction(*program_id, accounts@, instruction_data@, *rent)),
{
    let instruction = match MovieInstruction::unpack(instruction_data) {
        Ok(instruction) => instruction,
        Err(e) => {
            return Err(e);
        },
    };
    match instruction {
        MovieInstruction::AddMovieReview { title, rating, description } => process_add_movie_review(
            program_id,
            accounts,
            title,
            rating,
            description,
            rent,
        ),
        MovieInstruction::UpdateMovieReview {
            title,
            rating,
            description,
        } => process_update_movie_review(program_id, accounts, title, rating, description),
        MovieInstruction::AddComment { comment } => process_add_comment(
            program_id,
            accounts,
            comment,
            rent,
        ),
        MovieInstruction::InitializeMint => initialize_token_mint(program_id, accounts, rent),
    }
}

} // verus!
