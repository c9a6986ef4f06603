//! The records of the review board: a review, the counter of the comments
//! on it, and a comment.
//!
//! A record is stored as its fields in order: a string as the number of its
//! bytes and the bytes, a flag as one byte, an address as its 32 bytes, a
//! number little-endian.

use crate::address::Address;
use crate::codec::{
    put_address, put_string, put_u64, read_u64, spec_string, spec_take_string, take_string,
};
use crate::program_error::ProgramError;
use vstd::bytes::{spec_u64_from_le_bytes, spec_u64_to_le_bytes};
use vstd::prelude::*;
use vstd::utf8::encode_utf8;

verus! {

/// A review of a movie by one author.
#[derive(Clone, Debug, PartialEq, Eq)]
pub struct ReviewState {
    pub discriminator: String,
    pub is_initialized: bool,
    pub reviewer: Address,
    pub rating: u8,
    pub title: String,
    pub description: String,
}

/// The number of comments on a review.
#[derive(Clone, Debug, PartialEq, Eq)]
pub struct ReviewCommentCounterState {
    pub discriminator: String,
    pub is_initialized: bool,
    pub counter: u64,
}

/// A comment on a review.
#[derive(Clone, Debug, PartialEq, Eq)]
pub struct ReviewCommentState {
    pub discriminator: String,
    pub is_initialized: bool,
    pub review: Address,
    pub commenter: Address,
    pub comment: String,
    pub count: u64,
}

/// A review, as specifications see it.
pub struct ReviewStateView {
    pub discriminator: Seq<char>,
    pub is_initialized: bool,
    pub reviewer: Address,
    pub rating: u8,
    pub title: Seq<char>,
    pub description: Seq<char>,
}

/// A counter, as specifications see it.
pub struct ReviewCommentCounterStateView {
    pub discriminator: Seq<char>,
    pub is_initialized: bool,
    pub counter: u64,
}

/// A comment, as specifications see it.
pub struct ReviewCommentStateView {
    pub discriminator: Seq<char>,
    pub is_initialized: bool,
    pub review: Address,
    pub commenter: Address,
    pub comment: Seq<char>,
    pub count: u64,
}

/// The stored form of a flag.
pub open spec fn spec_flag(flag: bool) -> Seq<u8> {
    if flag {
        seq![1u8]
    } else {
        seq![0u8]
    }
}

impl View for ReviewState {
    type V = ReviewStateView;

    open spec fn view(&self) -> ReviewStateView {
        ReviewStateView {
            discriminator: self.discriminator@,
            is_initialized: self.is_initialized,
            reviewer: self.reviewer,
            rating: self.rating,
            title: self.title@,
            description: self.description@,
        }
    }
}

impl View for ReviewCommentCounterState {
    type V = ReviewCommentCounterStateView;

    open spec fn view(&self) -> ReviewCommentCounterStateView {
        ReviewCommentCounterStateView {
            discriminator: self.discriminator@,
            is_initialized: self.is_initialized,
            counter: self.counter,
        }
    }
}

impl View for ReviewCommentState {
    type V = ReviewCommentStateView;

    open spec fn view(&self) -> ReviewCommentStateView {
        ReviewCommentStateView {
            discriminator: self.discriminator@,
            is_initialized: self.is_initialized,
            review: self.review,
            commenter: self.commenter,
            comment: self.comment@,
            count: self.count,
        }
    }
}

impl ReviewStateView {
    /// Whether every string of the review can be stored.
    pub open spec fn storable(self) -> bool {
        &&& encode_utf8(self.discriminator).len() <= u32::MAX
        &&& encode_utf8(self.title).len() <= u32::MAX
        &&& encode_utf8(self.description).len() <= u32::MAX
    }

    /// The stored form of the review.
    pub open spec fn spec_pack(self) -> Seq<u8> {
        spec_string(self.discriminator) + spec_flag(self.is_initialized) + self.reviewer@
            + seq![self.rating] + spec_string(self.title) + spec_string(self.description)
    }
}

impl ReviewCommentCounterStateView {
    /// Whether the discriminator of the counter can be stored.
    pub open spec fn storable(self) -> bool {
        encode_utf8(self.discriminator).len() <= u32::MAX
    }

    /// The stored form of the counter.
    pub open spec fn spec_pack(self) -> Seq<u8> {
        spec_string(self.discriminator) + spec_flag(self.is_initialized) + spec_u64_to_le_bytes(
            self.counter,
        )
    }
}

impl ReviewCommentStateView {
    /// Whether every string of the comment can be stored.
    pub open spec fn storable(self) -> bool {
        &&& encode_utf8(self.discriminator).len() <= u32::MAX
        &&& encode_utf8(self.comment).len() <= u32::MAX
    }

    /// The stored form of the comment.
    pub open spec fn spec_pack(self) -> Seq<u8> {
        spec_string(self.discriminator) + spec_flag(self.is_initialized) + self.review@
            + self.commenter@ + spec_string(self.comment) + spec_u64_to_le_bytes(self.count)
    }
}

/// Bytes of a review besides its title and description: the discriminator
/// with its length, the flag, the author, the rating and the lengths of
/// the two strings.
pub const REVIEW_FIXED_SPACE: usize = 52;

/// Bytes of a comment besides its text.
pub const COMMENT_FIXED_SPACE: usize = 88;

impl ReviewState {
    /// The word that marks a review: "review".
    pub const DISCRIMINATOR: &'static str = "review";

    /// Bytes of the account of every review.
    pub const MAX_SPACE: usize = 1000;

    /// Bytes of the stored review with the given title and description.
    pub open spec fn spec_space(title: Seq<char>, description: Seq<char>) -> int {
        REVIEW_FIXED_SPACE + encode_utf8(title).len() + encode_utf8(description).len()
    }

    /// Bytes of the stored review with the given title and description.
    pub fn space(title: &str, description: &str) -> (n: usize)
        requires
            ReviewState::spec_space(title@, description@) <= usize::MAX,
        ensures
            n == ReviewState::spec_space(title@, description@),
    {
        (4 + 6) + 1 + 32 + 1 + (4 + title.len()) + (4 + description.len())
    }

    /// Whether the review is in use.
    pub fn is_initialized(&self) -> (r: bool)
        ensures
            r == self.is_initialized,
    {
        self.is_initialized
    }

    /// The stored form of the review; `BorshIoError` for a string of more
    /// than `u32::MAX` bytes.
    pub fn pack(&self) -> (r: Result<Vec<u8>, ProgramError>)
        ensures
            r is Ok <==> self@.storable(),
            r matches Ok(data) ==> data@ == self@.spec_pack(),
            r matches Err(e) ==> e == ProgramError::BorshIoError,
    {
        let mut data: Vec<u8> = Vec::new();
        if !put_string(&mut data, self.discriminator.as_str()) {
            return Err(ProgramError::BorshIoError);
        }
        data.push(if self.is_initialized { 1 } else { 0 });
        put_address(&mut data, &self.reviewer);
        data.push(self.rating);
        if !put_string(&mut data, self.title.as_str()) {
            return Err(ProgramError::BorshIoError);
        }
        if !put_string(&mut data, self.description.as_str()) {
            return Err(ProgramError::BorshIoError);
        }
        assert(data@ =~= self@.spec_pack());
        Ok(data)
    }

    /// The review stored at the front of `data`. Bytes behind the record are
    /// ignored; data that ends within the record, a flag other than 0 or 1
    /// and a string that is not UTF-8 are `BorshIoError`.
    pub open spec fn spec_unpack(data: Seq<u8>) -> Result<ReviewStateView, ProgramError> {
        match spec_take_string(data) {
            None => Err(ProgramError::BorshIoError),
            Some((discriminator, a)) => if data.len() < a + 34 || data[a] > 1 {
                Err(ProgramError::BorshIoError)
            } else {
                match spec_take_string(data.skip(a + 34)) {
                    None => Err(ProgramError::BorshIoError),
                    Some((title, b)) => match spec_take_string(data.skip(a + 34 + b)) {
                        None => Err(ProgramError::BorshIoError),
                        Some((description, _)) => Ok(
                            ReviewStateView {
                                discriminator,
                                is_initialized: data[a] == 1,
                                reviewer: Address::of(data.subrange(a + 1, a + 33)),
                                rating: data[a + 33],
                                title,
                                description,
                            },
                        ),
                    },
                }
            },
        }
    }

    /// Reads the review stored at the front of `data`.
    pub fn unpack(data: &[u8]) -> (r: Result<ReviewState, ProgramError>)
        ensures
            r matches Ok(state) ==> ReviewState::spec_unpack(data@) == Ok::<
                ReviewStateView,
                ProgramError,
            >(state@),
            r matches Err(e) ==> ReviewState::spec_unpack(data@) == Err::<
                ReviewStateView,
                ProgramError,
            >(e),
    {
        let len = data.len();
        assert(data@.skip(0) =~= data@);
        let (discriminator, a) = match take_string(data, 0) {
            Some(taken) => taken,
            None => {
                return Err(ProgramError::BorshIoError);
            },
        };
        if len - a < 34 || data[a] > 1 {
            return Err(ProgramError::BorshIoError);
        }
        let is_initialized = data[a] == 1;
        let reviewer = Address::from_slice(data, a + 1);
        let rating = data[a + 33];
        let (title, b) = match take_string(data, a + 34) {
            Some(taken) => taken,
            None => {
                return Err(ProgramError::BorshIoError);
            },
        };
        let (description, _) = match take_string(data, b) {
            Some(taken) => taken,
            None => {
                return Err(ProgramError::BorshIoError);
            },
        };
        Ok(ReviewState { discriminator, is_initialized, reviewer, rating, title, description })
    }
}

impl ReviewCommentCounterState {
    /// The word that marks a counter: "counter".
    pub const DISCRIMINATOR: &'static str = "counter";

    /// Bytes of the account of every counter.
    pub const SPACE: usize = 20;

    /// Whether the counter is in use.
    pub fn is_initialized(&self) -> (r: bool)
        ensures
            r == self.is_initialized,
    {
        self.is_initialized
    }

    /// The stored form of the counter; `BorshIoError` for a discriminator of
    /// more than `u32::MAX` bytes.
    pub fn pack(&self) -> (r: Result<Vec<u8>, ProgramError>)
        ensures
            r is Ok <==> self@.storable(),
            r matches Ok(data) ==> data@ == self@.spec_pack(),
            r matches Err(e) ==> e == ProgramError::BorshIoError,
    {
        let mut data: Vec<u8> = Vec::new();
        if !put_string(&mut data, self.discriminator.as_str()) {
            return Err(ProgramError::BorshIoError);
        }
        data.push(if self.is_initialized { 1 } else { 0 });
        put_u64(&mut data, self.counter);
        assert(data@ =~= self@.spec_pack());
        Ok(data)
    }

    /// The counter stored at the front of `data`.
    pub open spec fn spec_unpack(data: Seq<u8>) -> Result<ReviewCommentCounterStateView, ProgramError> {
        match spec_take_string(data) {
            None => Err(ProgramError::BorshIoError),
            Some((discriminator, a)) => if data.len() < a + 9 || data[a] > 1 {
                Err(ProgramError::BorshIoError)
            } else {
                Ok(
                    ReviewCommentCounterStateView {
                        discriminator,
                        is_initialized: data[a] == 1,
                        counter: spec_u64_from_le_bytes(data.subrange(a + 1, a + 9)),
                    },
                )
            },
        }
    }

    /// Reads the counter stored at the front of `data`.
    pub fn unpack(data: &[u8]) -> (r: Result<ReviewCommentCounterState, ProgramError>)
        ensures
            r matches Ok(state) ==> ReviewCommentCounterState::spec_unpack(data@) == Ok::<
                ReviewCommentCounterStateView,
                ProgramError,
            >(state@),
            r matches Err(e) ==> ReviewCommentCounterState::spec_unpack(data@) == Err::<
                ReviewCommentCounterStateView,
                ProgramError,
            >(e),
    {
        let len = data.len();
        assert(data@.skip(0) =~= data@);
        let (discriminator, a) = match take_string(data, 0) {
            Some(taken) => taken,
            None => {
                return Err(ProgramError::BorshIoError);
            },
        };
        if len - a < 9 || data[a] > 1 {
            return Err(ProgramError::BorshIoError);
        }
        Ok(
            ReviewCommentCounterState {
                discriminator,
                is_initialized: data[a] == 1,
                counter: read_u64(data, a + 1),
            },
        )
    }
}

impl ReviewCommentState {
    /// The word that marks a comment: "comment".
    pub const DISCRIMINATOR: &'static str = "comment";

    /// Bytes of the stored comment with the given text.
    pub open spec fn spec_space(comment: Seq<char>) -> int {
        COMMENT_FIXED_SPACE + encode_utf8(comment).len()
    }

    /// Bytes of the stored comment with the given text.
    pub fn space(comment: &str) -> (n: usize)
        requires
            ReviewCommentState::spec_space(comment@) <= usize::MAX,
        ensures
            n == ReviewCommentState::spec_space(comment@),
    {
        (4 + 7) + 1 + 32 + 32 + (4 + comment.len()) + 8
    }

    /// Whether the comment is in use.
    pub fn is_initialized(&self) -> (r: bool)
        ensures
            r == self.is_initialized,
    {
        self.is_initialized
    }

    /// The stored form of the comment; `BorshIoError` for a string of more
    /// than `u32::MAX` bytes.
    pub fn pack(&self) -> (r: Result<Vec<u8>, ProgramError>)
        ensures
            r is Ok <==> self@.storable(),
            r matches Ok(data) ==> data@ == self@.spec_pack(),
            r matches Err(e) ==> e == ProgramError::BorshIoError,
    {
        let mut data: Vec<u8> = Vec::new();
        if !put_string(&mut data, self.discriminator.as_str()) {
            return Err(ProgramError::BorshIoError);
        }
        data.push(if self.is_initialized { 1 } else { 0 });
        put_address(&mut data, &self.review);
        put_address(&mut data, &self.commenter);
        if !put_string(&mut data, self.comment.as_str()) {
            return Err(ProgramError::BorshIoError);
        }
        put_u64(&mut data, self.count);
        assert(data@ =~= self@.spec_pack());
        Ok(data)
    }
}

} // verus!
