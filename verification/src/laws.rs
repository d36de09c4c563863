//! Laws of the record keeper, proved of every slot, identity and text.
//!
//! The laws of the instructions speak of `send_outcome`, `update_outcome`
//! and `delete_outcome`, by which the instructions state what they do, and
//! of `slot_outcome_is`, which ties a call to its outcome.

use vstd::prelude::*;
use crate::error::{ErrorCode, TweetError};
use crate::identity::Identity;
use crate::layout::{
    encode_record, lemma_decode_encode, lemma_encode_decode, lemma_encode_record_len,
    lemma_unmarked_holds_no_record,
};
use crate::limits::text_error;
use crate::program::{delete_outcome, send_outcome, slot_outcome_is, update_outcome, Signer};
use crate::slot::{Slot, SlotView};
use crate::tweet::{Tweet, TweetView};

verus! {

/// A slot of the size that the host allocates for a tweet.
pub open spec fn sized(slot: SlotView) -> bool {
    slot.data.len() == Tweet::LEN
}

/// A pair of texts is accepted exactly when the topic has at most fifty
/// characters and the content at most two hundred and eighty. A topic that
/// is too long is named first; a content that is too long is named where the
/// topic fits.
pub proof fn law_text_limits(topic: Seq<char>, content: Seq<char>)
    ensures
        text_error(topic, content) is None <==> topic.len() <= 50 && content.len() <= 280,
        text_error(topic, content) == Some(ErrorCode::TopicTooLong) <==> topic.len() > 50,
        text_error(topic, content) == Some(ErrorCode::ContentTooLong) <==> topic.len() <= 50
            && content.len() > 280,
{
}

/// Sending into a fresh slot with a readable clock succeeds exactly when
/// both texts are within their limits, and otherwise names the text that is
/// too long, the topic first.
pub proof fn law_send_judges_texts(
    slot: SlotView,
    signer: Seq<u8>,
    now: i64,
    topic: Seq<char>,
    content: Seq<char>,
)
    requires
        slot.is_fresh(),
    ensures
        send_outcome(slot, signer, Some(now), topic, content) is Ok <==> topic.len() <= 50
            && content.len() <= 280,
        send_outcome(slot, signer, Some(now), topic, content) == Err::<SlotView, TweetError>(
            TweetError::Invalid(ErrorCode::TopicTooLong),
        ) <==> topic.len() > 50,
        send_outcome(slot, signer, Some(now), topic, content) == Err::<SlotView, TweetError>(
            TweetError::Invalid(ErrorCode::ContentTooLong),
        ) <==> topic.len() <= 50 && content.len() > 280,
{
}

/// An update by the author of the stored tweet succeeds exactly when both
/// texts are within their limits, and otherwise names the text that is too
/// long, the topic first.
pub proof fn law_update_judges_texts(
    slot: SlotView,
    signer: Seq<u8>,
    topic: Seq<char>,
    content: Seq<char>,
)
    requires
        slot.record() is Some,
        slot.record()->Some_0.author == signer,
    ensures
        update_outcome(slot, signer, topic, content) is Ok <==> topic.len() <= 50 && content.len()
            <= 280,
        update_outcome(slot, signer, topic, content) == Err::<SlotView, TweetError>(
            TweetError::Invalid(ErrorCode::TopicTooLong),
        ) <==> topic.len() > 50,
        update_outcome(slot, signer, topic, content) == Err::<SlotView, TweetError>(
            TweetError::Invalid(ErrorCode::ContentTooLong),
        ) <==> topic.len() <= 50 && content.len() > 280,
{
}

/// A tweet that was sent is stored with the signing identity as its author
/// and the clock's time as its timestamp, and with the texts given. The
/// slot keeps its size and its balance.
pub proof fn law_send_stamps_signer_and_clock(
    slot: SlotView,
    signer: Seq<u8>,
    clock: Option<i64>,
    topic: Seq<char>,
    content: Seq<char>,
)
    requires
        sized(slot),
        signer.len() == 32,
        send_outcome(slot, signer, clock, topic, content) is Ok,
    ensures
        clock is Some,
        send_outcome(slot, signer, clock, topic, content)->Ok_0.record() == Some(
            TweetView { author: signer, timestamp: clock->Some_0, topic, content },
        ),
        send_outcome(slot, signer, clock, topic, content)->Ok_0.lamports == slot.lamports,
        sized(send_outcome(slot, signer, clock, topic, content)->Ok_0),
{
    let t = TweetView { author: signer, timestamp: clock->Some_0, topic, content };
    lemma_encode_record_len(t);
    let tail = slot.data.subrange(encode_record(t).len() as int, slot.data.len() as int);
    lemma_decode_encode(t, tail);
}

/// Sending into a slot that is not fresh is refused, whatever else holds.
pub proof fn law_send_needs_fresh_slot(
    slot: SlotView,
    signer: Seq<u8>,
    clock: Option<i64>,
    topic: Seq<char>,
    content: Seq<char>,
)
    requires
        !slot.is_fresh(),
    ensures
        send_outcome(slot, signer, clock, topic, content) == Err::<SlotView, TweetError>(
            TweetError::SlotInUse,
        ),
{
}

/// An update by an identity that is not the tweet's author is refused,
/// whatever the texts, and leaves the slot, and so the tweet in it, exactly
/// as it was.
pub proof fn law_update_by_stranger_changes_nothing(
    before: Slot,
    after: Slot,
    r: Result<(), TweetError>,
    signer: Seq<u8>,
    topic: Seq<char>,
    content: Seq<char>,
)
    requires
        before@.record() is Some,
        before@.record()->Some_0.author != signer,
        slot_outcome_is(before, after, r, update_outcome(before@, signer, topic, content)),
    ensures
        r == Err::<(), TweetError>(TweetError::NotAuthor),
        after == before,
        after@.record() == before@.record(),
{
}

/// An update that succeeds changes the two texts and nothing else: author,
/// timestamp, balance and size stay.
pub proof fn law_update_keeps_author_and_timestamp(
    slot: SlotView,
    signer: Seq<u8>,
    topic: Seq<char>,
    content: Seq<char>,
)
    requires
        sized(slot),
        update_outcome(slot, signer, topic, content) is Ok,
    ensures
        slot.record() is Some,
        slot.record()->Some_0.author == signer,
        update_outcome(slot, signer, topic, content)->Ok_0.record() == Some(
            TweetView {
                author: slot.record()->Some_0.author,
                timestamp: slot.record()->Some_0.timestamp,
                topic,
                content,
            },
        ),
        update_outcome(slot, signer, topic, content)->Ok_0.lamports == slot.lamports,
        sized(update_outcome(slot, signer, topic, content)->Ok_0),
{
    lemma_encode_decode(slot.data);
    let t = slot.record()->Some_0.with_text(topic, content);
    lemma_encode_record_len(t);
    let tail = slot.data.subrange(encode_record(t).len() as int, slot.data.len() as int);
    lemma_decode_encode(t, tail);
}

/// A deletion by an identity that is not the tweet's author is refused and
/// leaves the slot exactly as it was: allocated, funded, and holding the
/// tweet.
pub proof fn law_delete_by_stranger_changes_nothing(
    before: Slot,
    after: Slot,
    r: Result<(), TweetError>,
    signer: Signer,
)
    requires
        before@.record() is Some,
        before@.record()->Some_0.author != signer.key@,
        slot_outcome_is(before, after, r, delete_outcome(before@, signer)),
    ensures
        r == Err::<(), TweetError>(TweetError::NotAuthor),
        after == before,
        after@.record() == before@.record(),
        after@.lamports == before@.lamports,
{
}

/// A deletion by the tweet's author, whose balance has room for the slot's,
/// succeeds, and whoever reads the slot afterwards finds no tweet and no
/// balance in it.
pub proof fn law_delete_by_author_removes_tweet(
    before: Slot,
    after: Slot,
    r: Result<(), TweetError>,
    signer: Signer,
)
    requires
        before@.record() is Some,
        before@.record()->Some_0.author == signer.key@,
        signer.lamports + before@.lamports <= u64::MAX,
        slot_outcome_is(before, after, r, delete_outcome(before@, signer)),
    ensures
        r is Ok,
        after@.record() is None,
        after@.lamports == 0,
        after@.data.len() == before@.data.len(),
{
    lemma_unmarked_holds_no_record(after@.data);
}

/// A closed slot holds no tweet, has no balance, and is not fresh: no
/// instruction succeeds on it.
pub proof fn law_closed_slot_is_dead(
    slot: SlotView,
    signer: Signer,
    clock: Option<i64>,
    topic: Seq<char>,
    content: Seq<char>,
)
    requires
        sized(slot),
    ensures
        slot.closed().record() is None,
        slot.closed().lamports == 0,
        sized(slot.closed()),
        send_outcome(slot.closed(), signer.key@, clock, topic, content) is Err,
        update_outcome(slot.closed(), signer.key@, topic, content) is Err,
        delete_outcome(slot.closed(), signer) is Err,
{
    let data = slot.closed().data;
    assert(data[0] == 255);
    lemma_unmarked_holds_no_record(data);
}

/// A fresh slot holds no tweet: nothing can be updated or deleted before a
/// tweet was sent.
pub proof fn law_fresh_slot_holds_no_tweet(
    slot: SlotView,
    signer: Signer,
    topic: Seq<char>,
    content: Seq<char>,
)
    requires
        sized(slot),
        slot.is_fresh(),
    ensures
        slot.record() is None,
        update_outcome(slot, signer.key@, topic, content) == Err::<SlotView, TweetError>(
            TweetError::NoRecord,
        ),
        delete_outcome(slot, signer) == Err::<SlotView, TweetError>(TweetError::NoRecord),
{
    lemma_unmarked_holds_no_record(slot.data);
}

/// An instruction that is owed a refusal refuses for the reason owed and
/// leaves the slot exactly as it was.
pub proof fn law_refusal_changes_nothing(
    before: Slot,
    after: Slot,
    r: Result<(), TweetError>,
    expected: Result<SlotView, TweetError>,
)
    requires
        slot_outcome_is(before, after, r, expected),
        expected is Err,
    ensures
        r == Err::<(), TweetError>(expected->Err_0),
        after == before,
{
}

/// A slot takes 1376 bytes.
pub proof fn law_slot_size()
    ensures
        Tweet::LEN == 1376,
{
}

/// A tweet whose texts are within their character limits fits its slot,
/// however many bytes its characters take.
pub proof fn law_valid_tweet_fits_slot(t: TweetView)
    requires
        t.valid(),
    ensures
        encode_record(t).len() <= Tweet::LEN,
{
    lemma_encode_record_len(t);
}

/// Two tweets with the same stored form are the same tweet.
pub proof fn law_stored_form_is_unique(a: TweetView, b: TweetView)
    requires
        a.valid(),
        b.valid(),
        encode_record(a) == encode_record(b),
    ensures
        a == b,
{
    lemma_decode_encode(a, Seq::empty());
    lemma_decode_encode(b, Seq::empty());
    assert(encode_record(a) + Seq::<u8>::empty() =~= encode_record(a));
    assert(encode_record(b) + Seq::<u8>::empty() =~= encode_record(b));
}

/// Two identities with the same bytes are the same identity.
pub proof fn law_identity_is_its_bytes(a: Identity, b: Identity)
    requires
        a@ == b@,
    ensures
        a == b,
{
    assert(a.bytes =~= b.bytes);
}

} // verus!
