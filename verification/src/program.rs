//! The three instructions of the program: send, update and delete a tweet.
//!
//! Each instruction works on the accounts it is handed: the slot of the tweet
//! and the identity whose signature the host has verified. An instruction
//! either takes full effect or refuses and leaves every account as it was.

use vstd::prelude::*;
use crate::clock::host_unix_timestamp;
use crate::error::TweetError;
use crate::identity::Identity;
use crate::limits::text_error;
use crate::slot::{Slot, SlotView};
use crate::tweet::{Tweet, TweetView};

verus! {

/// An identity that has authorized the instruction, with its balance.
#[derive(Clone, Copy, Debug, PartialEq, Eq)]
pub struct Signer {
    /// The identity that signed.
    pub key: Identity,
    /// Its balance.
    pub lamports: u64,
}

/// The accounts of `send_tweet`.
#[derive(Debug, PartialEq, Eq)]
pub struct SendTweet {
    /// The freshly allocated slot that will hold the tweet.
    pub tweet: Slot,
    /// The signing identity, which becomes the tweet's author.
    pub author: Signer,
}

/// The accounts of `update_tweet`.
#[derive(Debug, PartialEq, Eq)]
pub struct UpdateTweet {
    /// The slot of the tweet to change.
    pub tweet: Slot,
    /// The signing identity, which must be the tweet's author.
    pub author: Signer,
}

/// The accounts of `delete_tweet`.
#[derive(Debug, PartialEq, Eq)]
pub struct DeleteTweet {
    /// The slot of the tweet to remove.
    pub tweet: Slot,
    /// The signing identity, which must be the tweet's author and receives
    /// the slot's balance.
    pub author: Signer,
}

impl Clone for SendTweet {
    fn clone(&self) -> (copy: SendTweet)
        ensures
            copy.tweet@ == self.tweet@,
            copy.author == self.author,
    {
        SendTweet { tweet: self.tweet.clone(), author: self.author }
    }
}

impl Clone for UpdateTweet {
    fn clone(&self) -> (copy: UpdateTweet)
        ensures
            copy.tweet@ == self.tweet@,
            copy.author == self.author,
    {
        UpdateTweet { tweet: self.tweet.clone(), author: self.author }
    }
}

impl Clone for DeleteTweet {
    fn clone(&self) -> (copy: DeleteTweet)
        ensures
            copy.tweet@ == self.tweet@,
            copy.author == self.author,
    {
        DeleteTweet { tweet: self.tweet.clone(), author: self.author }
    }
}

/// Whether an instruction that was owed `expected` did as owed: it succeeded
/// and left the slot as `expected` says, or it refused for the reason that
/// `expected` gives and left the slot as it was.
pub open spec fn slot_outcome_is(
    before: Slot,
    after: Slot,
    r: Result<(), TweetError>,
    expected: Result<SlotView, TweetError>,
) -> bool {
    match expected {
        Ok(slot) => r is Ok && after@ == slot,
        Err(e) => r == Err::<(), TweetError>(e) && after == before,
    }
}

/// What sending a tweet does to `slot`, given what the host clock said.
///
/// The slot must be fresh and the clock readable; then the texts are judged,
/// the topic first. On success the slot holds a tweet of the signing
/// identity, stamped with the clock's time.
pub open spec fn send_outcome(
    slot: SlotView,
    signer: Seq<u8>,
    clock: Option<i64>,
    topic: Seq<char>,
    content: Seq<char>,
) -> Result<SlotView, TweetError> {
    if !slot.is_fresh() {
        Err(TweetError::SlotInUse)
    } else if clock is None {
        Err(TweetError::ClockUnavailable)
    } else {
        match text_error(topic, content) {
            Some(e) => Err(TweetError::Invalid(e)),
            None => Ok(
                slot.with_record(
                    TweetView { author: signer, timestamp: clock->Some_0, topic, content },
                ),
            ),
        }
    }
}

/// What updating a tweet does to `slot`.
///
/// The slot must hold a tweet and the signing identity must be its author;
/// then the texts are judged, the topic first. On success the tweet has the
/// new texts, and its author and timestamp as before.
pub open spec fn update_outcome(
    slot: SlotView,
    signer: Seq<u8>,
    topic: Seq<char>,
    content: Seq<char>,
) -> Result<SlotView, TweetError> {
    match slot.record() {
        None => Err(TweetError::NoRecord),
        Some(t) => if t.author != signer {
            Err(TweetError::NotAuthor)
        } else {
            match text_error(topic, content) {
                Some(e) => Err(TweetError::Invalid(e)),
                None => Ok(slot.with_record(t.with_text(topic, content))),
            }
        },
    }
}

/// What deleting a tweet does to `slot`.
///
/// The slot must hold a tweet, the signing identity must be its author, and
/// the author's balance must have room for the slot's. On success the slot
/// is closed.
pub open spec fn delete_outcome(slot: SlotView, signer: Signer) -> Result<SlotView, TweetError> {
    match slot.record() {
        None => Err(TweetError::NoRecord),
        Some(t) => if t.author != signer.key@ {
            Err(TweetError::NotAuthor)
        } else if signer.lamports + slot.lamports > u64::MAX {
            Err(TweetError::BalanceOverflow)
        } else {
            Ok(slot.closed())
        },
    }
}

/// Creates a tweet in a fresh slot, stamped with what the host clock said:
/// `clock` is the clock's time, or nothing where the clock could not be read.
pub fn send_tweet_at(
    ctx: &mut SendTweet,
    clock: Option<i64>,
    topic: String,
    content: String,
) -> (r: Result<(), TweetError>)
    ensures
        slot_outcome_is(
            old(ctx).tweet,
            final(ctx).tweet,
            r,
            send_outcome(old(ctx).tweet@, old(ctx).author.key@, clock, topic@, content@),
        ),
        final(ctx).author == old(ctx).author,
        r is Ok ==> final(ctx).tweet@.record() == Some(
            TweetView {
                author: old(ctx).author.key@,
                timestamp: clock->Some_0,
                topic: topic@,
                content: content@,
            },
        ),
{
    if !ctx.tweet.is_fresh() {
        return Err(TweetError::SlotInUse);
    }
    let timestamp: i64 = match clock {
        None => { return Err(TweetError::ClockUnavailable); },
        Some(timestamp) => timestamp,
    };
    let tweet = match Tweet::new(ctx.author.key, timestamp, topic, content) {
        Err(e) => { return Err(TweetError::Invalid(e)); },
        Ok(tweet) => tweet,
    };
    ctx.tweet.store(&tweet);
    Ok(())
}

/// Creates a tweet in a fresh slot: its author is the signing identity, its
/// timestamp the host clock's time at the call.
///
/// It does what `send_tweet_at` does with whatever the clock said. The
/// clock is the host's, so which time a tweet gets, and whether the clock
/// could be read, is not said here.
pub fn send_tweet(ctx: &mut SendTweet, topic: String, content: String) -> (r: Result<
    (),
    TweetError,
>)
    ensures
        exists|clock: Option<i64>|
            slot_outcome_is(
                old(ctx).tweet,
                final(ctx).tweet,
                r,
                #[trigger] send_outcome(
                    old(ctx).tweet@,
                    old(ctx).author.key@,
                    clock,
                    topic@,
                    content@,
                ),
            ),
        final(ctx).author == old(ctx).author,
        !old(ctx).tweet@.is_fresh() ==> r == Err::<(), TweetError>(TweetError::SlotInUse),
        r is Ok ==> old(ctx).tweet@.is_fresh() && text_error(topic@, content@) is None,
        r is Ok ==> exists|now: i64|
            final(ctx).tweet@.record() == Some(
                TweetView {
                    author: old(ctx).author.key@,
                    timestamp: now,
                    topic: topic@,
                    content: content@,
                },
            ),
        r is Err ==> final(ctx).tweet == old(ctx).tweet,
{
    let clock = host_unix_timestamp();
    send_tweet_at(ctx, clock, topic, content)
}

/// Replaces the texts of the tweet in the slot. Only its author may.
pub fn update_tweet(ctx: &mut UpdateTweet, topic: String, content: String) -> (r: Result<
    (),
    TweetError,
>)
    ensures
        slot_outcome_is(
            old(ctx).tweet,
            final(ctx).tweet,
            r,
            update_outcome(old(ctx).tweet@, old(ctx).author.key@, topic@, content@),
        ),
        final(ctx).author == old(ctx).author,
        r is Ok ==> final(ctx).tweet@.record() == Some(
            old(ctx).tweet@.record()->Some_0.with_text(topic@, content@),
        ),
{
    let mut tweet = match ctx.tweet.load() {
        None => { return Err(TweetError::NoRecord); },
        Some(tweet) => tweet,
    };
    if !tweet.author().same(&ctx.author.key) {
        return Err(TweetError::NotAuthor);
    }
    match tweet.set_text(topic, content) {
        Err(e) => { return Err(TweetError::Invalid(e)); },
        Ok(()) => {},
    }
    ctx.tweet.store(&tweet);
    Ok(())
}

/// Removes the tweet in the slot and returns the slot's balance to its
/// author. Only the author may.
pub fn delete_tweet(ctx: &mut DeleteTweet) -> (r: Result<(), TweetError>)
    ensures
        slot_outcome_is(
            old(ctx).tweet,
            final(ctx).tweet,
            r,
            delete_outcome(old(ctx).tweet@, old(ctx).author),
        ),
        final(ctx).author.key == old(ctx).author.key,
        r is Ok ==> final(ctx).author.lamports == old(ctx).author.lamports
            + old(ctx).tweet@.lamports,
        r is Err ==> final(ctx).author == old(ctx).author,
        r is Ok ==> final(ctx).tweet@.record() is None,
{
    let tweet = match ctx.tweet.load() {
        None => { return Err(TweetError::NoRecord); },
        Some(tweet) => tweet,
    };
    if !tweet.author().same(&ctx.author.key) {
        return Err(TweetError::NotAuthor);
    }
    if ctx.tweet.lamports() > u64::MAX - ctx.author.lamports {
        return Err(TweetError::BalanceOverflow);
    }
    let reclaimed: u64 = ctx.tweet.close();
    ctx.author.lamports = ctx.author.lamports + reclaimed;
    Ok(())
}

} // verus!
