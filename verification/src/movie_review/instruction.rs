//! The instructions of the review board and their binary encoding: one
//! opcode byte, then the fields of the instruction, a string as the number
//! of its bytes and the bytes.

use crate::codec::{spec_take_string, take_string};
use crate::program_error::ProgramError;
use vstd::prelude::*;

verus! {

/// One instruction to the review board.
#[derive(Clone, Debug, PartialEq, Eq)]
pub enum MovieInstruction {
    AddMovieReview { title: String, rating: u8, description: String },
    UpdateMovieReview { title: String, rating: u8, description: String },
    AddComment { comment: String },
    InitializeMint,
}

/// An instruction, as specifications see it.
pub enum MovieInstructionView {
    AddMovieReview { title: Seq<char>, rating: u8, description: Seq<char> },
    UpdateMovieReview { title: Seq<char>, rating: u8, description: Seq<char> },
    AddComment { comment: Seq<char> },
    InitializeMint,
}

impl View for MovieInstruction {
    type V = MovieInstructionView;

    open spec fn view(&self) -> MovieInstructionView {
        match *self {
            MovieInstruction::AddMovieReview {
                title,
                rating,
                description,
            } => MovieInstructionView::AddMovieReview {
                title: title@,
                rating,
                description: description@,
            },
            MovieInstruction::UpdateMovieReview {
                title,
                rating,
                description,
            } => MovieInstructionView::UpdateMovieReview {
                title: title@,
                rating,
                description: description@,
            },
            MovieInstruction::AddComment { comment } => MovieInstructionView::AddComment {
                comment: comment@,
            },
            MovieInstruction::InitializeMint => MovieInstructionView::InitializeMint,
        }
    }
}

/// The title, rating and description that `payload` holds and nothing else.
pub open spec fn spec_review_payload(payload: Seq<u8>) -> Option<(Seq<char>, u8, Seq<char>)> {
    match spec_take_string(payload) {
        None => None,
        Some((title, a)) => if payload.len() < a + 1 {
            None
        } else {
            match spec_take_string(payload.skip(a + 1)) {
                None => None,
                Some((description, b)) => if a + 1 + b == payload.len() {
                    Some((title, payload[a], description))
                } else {
                    None
                },
            }
        },
    }
}

/// The comment that `payload` holds and nothing else.
pub open spec fn spec_comment_payload(payload: Seq<u8>) -> Option<Seq<char>> {
    match spec_take_string(payload) {
        Some((comment, a)) => if a == payload.len() {
            Some(comment)
        } else {
            None
        },
        None => None,
    }
}

/// Reads a title, a rating and a description from `input` behind its first
/// byte.
fn review_payload(input: &[u8]) -> (r: Option<(String, u8, String)>)
    requires
        input@.len() >= 1,
    ensures
        r is Some <==> spec_review_payload(input@.skip(1)) is Some,
        r matches Some((title, rating, description)) ==> spec_review_payload(input@.skip(1)) == Some(
            (title@, rating, description@),
        ),
{
    let len = input.len();
    let ghost payload = input@.skip(1);
    let (title, a) = match take_string(input, 1) {
        Some(taken) => taken,
        None => {
            return None;
        },
    };
    if a >= len {
        return None;
    }
    let rating = input[a];
    assert(payload.skip(a - 1 + 1) =~= input@.skip(a + 1));
    let (description, b) = match take_string(input, a + 1) {
        Some(taken) => taken,
        None => {
            return None;
        },
    };
    if b != len {
        return None;
    }
    Some((title, rating, description))
}

impl MovieInstruction {
    /// The instruction that `input` encodes, or `InvalidInstructionData`: for
    /// an empty input, an unknown opcode, or a payload that is not exactly
    /// the fields of its opcode. What follows the opcode of `InitializeMint`
    /// is not read.
    pub open spec fn spec_unpack(input: Seq<u8>) -> Result<MovieInstructionView, ProgramError> {
        if input.len() == 0 {
            Err(ProgramError::InvalidInstructionData)
        } else if input[0] == 0 || input[0] == 1 {
            match spec_review_payload(input.skip(1)) {
                Some((title, rating, description)) => if input[0] == 0 {
                    Ok(MovieInstructionView::AddMovieReview { title, rating, description })
                } else {
                    Ok(MovieInstructionView::UpdateMovieReview { title, rating, description })
                },
                None => Err(ProgramError::InvalidInstructionData),
            }
        } else if input[0] == 2 {
            match spec_comment_payload(input.skip(1)) {
                Some(comment) => Ok(MovieInstructionView::AddComment { comment }),
                None => Err(ProgramError::InvalidInstructionData),
            }
        } else if input[0] == 3 {
            Ok(MovieInstructionView::InitializeMint)
        } else {
            Err(ProgramError::InvalidInstructionData)
        }
    }

    /// Decodes an instruction.
    pub fn unpack(input: &[u8]) -> (r: Result<MovieInstruction, ProgramError>)
        ensures
            r matches Ok(instruction) ==> MovieInstruction::spec_unpack(input@) == Ok::<
                MovieInstructionView,
                ProgramError,
            >(instruction@),
            r matches Err(e) ==> MovieInstruction::spec_unpack(input@) == Err::<
                MovieInstructionView,
                ProgramError,
            >(e),
    {
        let len = input.len();
        if len == 0 {
            return Err(ProgramError::InvalidInstructionData);
        }
        let opcode = input[0];
        if opcode == 0 || opcode == 1 {
            match review_payload(input) {
                Some((title, rating, description)) => if opcode == 0 {
                    Ok(MovieInstruction::AddMovieReview { title, rating, description })
                } else {
                    Ok(MovieInstruction::UpdateMovieReview { title, rating, description })
                },
                None => Err(ProgramError::InvalidInstructionData),
            }
        } else if opcode == 2 {
            match take_string(input, 1) {
                Some((comment, next)) => if next == len {
                    Ok(MovieInstruction::AddComment { comment })
                } else {
                    Err(ProgramError::InvalidInstructionData)
                },
                None => Err(ProgramError::InvalidInstructionData),
            }
        } else if opcode == 3 {
            Ok(MovieInstruction::InitializeMint)
        } else {
            Err(ProgramError::InvalidInstructionData)
        }
    }
}

} // verus!
