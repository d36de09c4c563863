//! A record keeper for short texts ("tweets") held in account storage.
//!
//! A tweet has an author, a timestamp, a topic of at most fifty characters
//! and a content of at most two hundred and eighty. It lives in a storage
//! slot of fixed size, in a fixed byte layout. Three instructions act on it:
//! `send_tweet` creates it, `update_tweet` replaces its texts and
//! `delete_tweet` removes it; the last two are open to its author alone.

mod clock;
pub mod error;
pub mod identity;
pub mod laws;
pub mod layout;
pub mod limits;
pub mod program;
pub mod slot;
pub mod tweet;

pub use crate::error::{ErrorCode, TweetError};
pub use crate::identity::{Identity, PUBLIC_KEY_LENGTH};
pub use crate::layout::{
    decode, encode, CLOSED_DISCRIMINATOR, DISCRIMINATOR, DISCRIMINATOR_LENGTH, MAX_BYTES_PER_CHAR,
    MAX_CONTENT_LENGTH, MAX_TOPIC_LENGTH, STRING_LENGTH_PREFIX, TIMESTAMP_LENGTH,
};
pub use crate::limits::{check_text, count_chars, MAX_CONTENT_CHARS, MAX_TOPIC_CHARS};
pub use crate::program::{
    delete_tweet, send_tweet, send_tweet_at, update_tweet, DeleteTweet, SendTweet, Signer,
    UpdateTweet,
};
pub use crate::slot::Slot;
pub use crate::tweet::Tweet;
