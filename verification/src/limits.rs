//! Character limits of the two texts of a tweet.
//!
//! A text is measured in characters (Unicode scalar values), never in bytes:
//! the view of a string is its sequence of characters, so its length in a
//! contract is the character count.

use vstd::prelude::*;
use vstd::string::StrSliceExecFns;
use crate::error::ErrorCode;

verus! {

/// Largest number of characters in a topic.
pub const MAX_TOPIC_CHARS: usize = 50;

/// Largest number of characters in a content.
pub const MAX_CONTENT_CHARS: usize = 280;

/// The rejection owed to a pair of texts, if any. The topic is judged first.
pub open spec fn text_error(topic: Seq<char>, content: Seq<char>) -> Option<ErrorCode> {
    if topic.len() > MAX_TOPIC_CHARS {
        Some(ErrorCode::TopicTooLong)
    } else if content.len() > MAX_CONTENT_CHARS {
        Some(ErrorCode::ContentTooLong)
    } else {
        None
    }
}

/// What `check_text` returns for a pair of texts.
pub open spec fn text_verdict(topic: Seq<char>, content: Seq<char>) -> Result<(), ErrorCode> {
    match text_error(topic, content) {
        Some(e) => Err(e),
        None => Ok(()),
    }
}

/// Both texts are within their limits.
pub open spec fn text_fits(topic: Seq<char>, content: Seq<char>) -> bool {
    topic.len() <= MAX_TOPIC_CHARS && content.len() <= MAX_CONTENT_CHARS
}

/// Number of characters in `text`.
pub fn count_chars(text: &str) -> (n: usize)
    ensures
        n == text@.len(),
{
    text.unicode_len()
}

/// Judges a topic and a content against their limits.
pub fn check_text(topic: &str, content: &str) -> (r: Result<(), ErrorCode>)
    ensures
        r == text_verdict(topic@, content@),
        r is Ok <==> text_fits(topic@, content@),
{
    if count_chars(topic) > MAX_TOPIC_CHARS {
        return Err(ErrorCode::TopicTooLong);
    }
    if count_chars(content) > MAX_CONTENT_CHARS {
        return Err(ErrorCode::ContentTooLong);
    }
    Ok(())
}

} // verus!
