//! The reasons for which the tweet program refuses an instruction.

use vstd::prelude::*;

verus! {

/// The rejections that the program itself defines: a text that exceeds its
/// character limit.
#[derive(Clone, Copy, Debug, PartialEq, Eq, Structural)]
pub enum ErrorCode {
    /// The topic holds more than fifty characters.
    TopicTooLong,
    /// The content holds more than two hundred and eighty characters.
    ContentTooLong,
}

/// Why an instruction was refused. Every refusal leaves all accounts as they
/// were before the call.
#[derive(Clone, Copy, Debug, PartialEq, Eq, Structural)]
pub enum TweetError {
    /// A text exceeds its character limit.
    Invalid(ErrorCode),
    /// The signing identity is not the author stored in the record.
    NotAuthor,
    /// The slot offered for a new record is not freshly allocated.
    SlotInUse,
    /// The slot holds no valid record.
    NoRecord,
    /// The host clock could not be read.
    ClockUnavailable,
    /// Returning the slot's balance would exceed what a balance can hold.
    BalanceOverflow,
}

impl ErrorCode {
    /// The text shown to the submitting client.
    pub open spec fn message_spec(self) -> Seq<char> {
        match self {
            ErrorCode::TopicTooLong => {
                "The provided topic should be 50 characters long maximum."@
            },
            ErrorCode::ContentTooLong => {
                "The provided content should be 280 characters long maximum."@
            },
        }
    }

    /// The text shown to the submitting client.
    pub fn message(&self) -> (text: String)
        ensures
            text@ == self.message_spec(),
    {
        match self {
            ErrorCode::TopicTooLong => {
                "The provided topic should be 50 characters long maximum.".to_owned()
            },
            ErrorCode::ContentTooLong => {
                "The provided content should be 280 characters long maximum.".to_owned()
            },
        }
    }
}

} // verus!
