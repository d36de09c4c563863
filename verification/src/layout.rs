//! The fixed byte layout of a stored tweet.
//!
//! A record occupies the front of its slot, little-endian where numeric:
//!
//! | bytes        | field                                     |
//! |--------------|-------------------------------------------|
//! | 8            | discriminator, marking the slot as a tweet |
//! | 32           | author                                    |
//! | 8            | timestamp, signed                         |
//! | 4 + up to 200  | topic: byte count, then UTF-8           |
//! | 4 + up to 1120 | content: byte count, then UTF-8         |
//!
//! A character takes at most four bytes in UTF-8, so a slot of `Tweet::LEN`
//! bytes holds every tweet whose texts are within their character limits.
//! Bytes behind the content are not part of the record.

use vstd::prelude::*;
use vstd::bytes::{
    spec_u32_from_le_bytes, spec_u32_to_le_bytes, spec_u64_from_le_bytes, spec_u64_to_le_bytes,
    u32_from_le_bytes, u32_to_le_bytes, u64_from_le_bytes, u64_to_le_bytes,
};
use vstd::slice::slice_subrange;
use vstd::string::StringSliceAdditionalSpecFns;
use vstd::utf8::{decode_utf8, encode_utf8, valid_utf8};
use crate::identity::{Identity, PUBLIC_KEY_LENGTH};
use crate::limits::{count_chars, MAX_CONTENT_CHARS, MAX_TOPIC_CHARS};
use crate::tweet::{Tweet, TweetView};

verus! {

/// Bytes of the discriminator.
pub const DISCRIMINATOR_LENGTH: usize = 8;

/// Bytes of the timestamp.
pub const TIMESTAMP_LENGTH: usize = 8;

/// Bytes of the count that precedes each text.
pub const STRING_LENGTH_PREFIX: usize = 4;

/// Most bytes that one character takes in UTF-8.
pub const MAX_BYTES_PER_CHAR: usize = 4;

/// Most bytes that a topic takes.
pub const MAX_TOPIC_LENGTH: usize = MAX_TOPIC_CHARS * MAX_BYTES_PER_CHAR;

/// Most bytes that a content takes.
pub const MAX_CONTENT_LENGTH: usize = MAX_CONTENT_CHARS * MAX_BYTES_PER_CHAR;

/// The eight bytes that mark a slot as holding a tweet.
pub const DISCRIMINATOR: [u8; 8] = [229, 13, 110, 58, 118, 6, 20, 79];

/// The eight bytes that mark a slot as closed.
pub const CLOSED_DISCRIMINATOR: [u8; 8] = [255, 255, 255, 255, 255, 255, 255, 255];

impl Tweet {
    /// Size of the slot that holds a tweet, whatever its texts.
    pub const LEN: usize = DISCRIMINATOR_LENGTH + PUBLIC_KEY_LENGTH + TIMESTAMP_LENGTH
        + STRING_LENGTH_PREFIX + MAX_TOPIC_LENGTH + STRING_LENGTH_PREFIX + MAX_CONTENT_LENGTH;
}

/// Offset of the topic's byte count: behind discriminator, author and
/// timestamp.
pub open spec fn text_offset() -> int {
    DISCRIMINATOR_LENGTH + PUBLIC_KEY_LENGTH + TIMESTAMP_LENGTH
}

/// A text as stored: its UTF-8 byte count in four bytes, then the bytes.
pub open spec fn encode_text(chars: Seq<char>) -> Seq<u8> {
    spec_u32_to_le_bytes(encode_utf8(chars).len() as u32) + encode_utf8(chars)
}

/// A record as stored.
pub open spec fn encode_record(t: TweetView) -> Seq<u8> {
    DISCRIMINATOR@ + t.author + spec_u64_to_le_bytes(t.timestamp as u64) + encode_text(t.topic)
        + encode_text(t.content)
}

/// The text stored at offset `at` of `data`, with the offset behind it: there
/// is none where the count or the bytes run past the end, the bytes are not
/// UTF-8, or they hold more than `max_chars` characters.
pub open spec fn decode_text(data: Seq<u8>, at: int, max_chars: nat) -> Option<(Seq<char>, int)> {
    if at + STRING_LENGTH_PREFIX > data.len() {
        None
    } else {
        let start: int = at + STRING_LENGTH_PREFIX;
        let end: int = start + spec_u32_from_le_bytes(data.subrange(at, start));
        if end > data.len() {
            None
        } else if !valid_utf8(data.subrange(start, end)) {
            None
        } else if decode_utf8(data.subrange(start, end)).len() > max_chars {
            None
        } else {
            Some((decode_utf8(data.subrange(start, end)), end))
        }
    }
}

/// The record that a slot's bytes hold, if they hold one.
pub open spec fn decode_record(data: Seq<u8>) -> Option<TweetView> {
    if data.len() < text_offset() || data.subrange(0, 8) != DISCRIMINATOR@ {
        None
    } else {
        match decode_text(data, text_offset(), MAX_TOPIC_CHARS as nat) {
            None => None,
            Some((topic, after_topic)) => {
                match decode_text(data, after_topic, MAX_CONTENT_CHARS as nat) {
                    None => None,
                    Some((content, _)) => Some(
                        TweetView {
                            author: data.subrange(8, 40),
                            timestamp: spec_u64_from_le_bytes(data.subrange(40, 48)) as i64,
                            topic,
                            content,
                        },
                    ),
                }
            },
        }
    }
}

/// UTF-8 takes at most four bytes for each character.
pub proof fn lemma_utf8_len_bound(chars: Seq<char>)
    ensures
        encode_utf8(chars).len() <= MAX_BYTES_PER_CHAR * chars.len(),
    decreases chars.len(),
{
    if chars.len() > 0 {
        lemma_utf8_len_bound(chars.drop_first());
    }
}

/// A stored text is four bytes longer than its UTF-8 form.
pub proof fn lemma_encode_text_len(chars: Seq<char>)
    ensures
        encode_text(chars).len() == STRING_LENGTH_PREFIX + encode_utf8(chars).len(),
{
    vstd::bytes::lemma_auto_spec_u32_to_from_le_bytes();
}

/// The stored size of a record, and that a valid record fits its slot.
pub proof fn lemma_encode_record_len(t: TweetView)
    requires
        t.valid(),
    ensures
        encode_record(t).len() == text_offset() + 2 * STRING_LENGTH_PREFIX + encode_utf8(
            t.topic,
        ).len() + encode_utf8(t.content).len(),
        encode_utf8(t.topic).len() <= MAX_TOPIC_LENGTH,
        encode_utf8(t.content).len() <= MAX_CONTENT_LENGTH,
        encode_record(t).len() <= Tweet::LEN,
{
    lemma_utf8_len_bound(t.topic);
    lemma_utf8_len_bound(t.content);
    lemma_encode_text_len(t.topic);
    lemma_encode_text_len(t.content);
    vstd::bytes::lemma_auto_spec_u64_to_from_le_bytes();
}

/// A timestamp survives the passage through its unsigned form.
pub proof fn lemma_timestamp_round_trip(t: i64)
    ensures
        ((t as u64) as i64) == t,
{
    assert(((t as u64) as i64) == t) by (bit_vector);
}

/// A text that was stored at `at` is read back, whatever follows it.
pub proof fn lemma_decode_encode_text(data: Seq<u8>, at: int, chars: Seq<char>, max_chars: nat)
    requires
        0 <= at,
        at + encode_text(chars).len() <= data.len(),
        data.subrange(at, at + encode_text(chars).len()) == encode_text(chars),
        chars.len() <= max_chars,
        encode_utf8(chars).len() <= u32::MAX,
    ensures
        decode_text(data, at, max_chars) == Some((chars, at + encode_text(chars).len())),
{
    vstd::bytes::lemma_auto_spec_u32_to_from_le_bytes();
    let utf8 = encode_utf8(chars);
    let stored = encode_text(chars);
    let start: int = at + STRING_LENGTH_PREFIX;
    let prefix = spec_u32_to_le_bytes(utf8.len() as u32);
    let n: int = utf8.len() as int;
    assert(stored.len() == 4 + n);
    assert(data.subrange(at, start) =~= stored.subrange(0, 4));
    assert(stored.subrange(0, 4) =~= prefix);
    assert(spec_u32_from_le_bytes(prefix) == n as u32);
    let end: int = start + n;
    assert(data.subrange(start, end) =~= stored.subrange(4, 4 + n));
    assert(stored.subrange(4, 4 + n) =~= utf8);
    vstd::utf8::encode_utf8_valid_utf8(chars);
    vstd::utf8::encode_utf8_decode_utf8(chars);
}

/// What was stored is read back: the bytes of a valid record, followed by
/// any others, hold that record.
pub proof fn lemma_decode_encode(t: TweetView, tail: Seq<u8>)
    requires
        t.valid(),
    ensures
        decode_record(encode_record(t) + tail) == Some(t),
{
    lemma_encode_record_len(t);
    lemma_encode_text_len(t.topic);
    lemma_encode_text_len(t.content);
    vstd::bytes::lemma_auto_spec_u64_to_from_le_bytes();
    lemma_timestamp_round_trip(t.timestamp);
    let stored = encode_record(t);
    let data = stored + tail;
    let stamp = spec_u64_to_le_bytes(t.timestamp as u64);
    let topic = encode_text(t.topic);
    let content = encode_text(t.content);
    assert(data.subrange(0, 8) =~= DISCRIMINATOR@);
    assert(data.subrange(8, 40) =~= t.author);
    assert(data.subrange(40, 48) =~= stamp);
    let after_topic: int = 48 + topic.len() as int;
    assert(data.subrange(48, after_topic) =~= topic);
    lemma_decode_encode_text(data, 48, t.topic, MAX_TOPIC_CHARS as nat);
    let after_content: int = after_topic + content.len() as int;
    assert(data.subrange(after_topic, after_content) =~= content);
    lemma_decode_encode_text(data, after_topic, t.content, MAX_CONTENT_CHARS as nat);
}

/// A text that is read at `at` is stored there as written by `encode_text`.
pub proof fn lemma_encode_decode_text(data: Seq<u8>, at: int, max_chars: nat)
    requires
        0 <= at,
        decode_text(data, at, max_chars) is Some,
    ensures
        ({
            let (chars, end) = decode_text(data, at, max_chars)->Some_0;
            &&& chars.len() <= max_chars
            &&& end == at + encode_text(chars).len()
            &&& end <= data.len()
            &&& data.subrange(at, end) == encode_text(chars)
        }),
{
    vstd::bytes::lemma_auto_spec_u32_to_from_le_bytes();
    let start: int = at + STRING_LENGTH_PREFIX;
    let prefix = data.subrange(at, start);
    let n: u32 = spec_u32_from_le_bytes(prefix);
    let end: int = start + n;
    let utf8 = data.subrange(start, end);
    let chars = decode_utf8(utf8);
    vstd::utf8::decode_utf8_encode_utf8(utf8);
    assert(encode_utf8(chars) == utf8);
    assert(spec_u32_to_le_bytes(n) == prefix);
    assert(data.subrange(at, end) =~= prefix + utf8);
}

/// What is read was stored: where bytes hold a record, the record is valid
/// and the bytes begin with its stored form.
pub proof fn lemma_encode_decode(data: Seq<u8>)
    requires
        decode_record(data) is Some,
    ensures
        ({
            let t = decode_record(data)->Some_0;
            &&& t.valid()
            &&& encode_record(t).len() <= data.len()
            &&& data.subrange(0, encode_record(t).len() as int) == encode_record(t)
        }),
{
    vstd::bytes::lemma_auto_spec_u64_to_from_le_bytes();
    let t = decode_record(data)->Some_0;
    let stamp: u64 = spec_u64_from_le_bytes(data.subrange(40, 48));
    assert((stamp as i64) as u64 == stamp) by (bit_vector);
    lemma_encode_decode_text(data, 48, MAX_TOPIC_CHARS as nat);
    let after_topic: int = decode_text(data, 48, MAX_TOPIC_CHARS as nat)->Some_0.1;
    lemma_encode_decode_text(data, after_topic, MAX_CONTENT_CHARS as nat);
    let after_content: int = decode_text(data, after_topic, MAX_CONTENT_CHARS as nat)->Some_0.1;
    assert(data.subrange(0, after_content) =~= data.subrange(0, 8) + data.subrange(8, 40)
        + data.subrange(40, 48) + data.subrange(48, after_topic) + data.subrange(
        after_topic,
        after_content,
    ));
}

/// Bytes that do not begin with the discriminator hold no record: so a
/// freshly allocated slot, which is all zeros, and a closed one.
pub proof fn lemma_unmarked_holds_no_record(data: Seq<u8>)
    requires
        data.len() >= DISCRIMINATOR_LENGTH,
        data[0] != DISCRIMINATOR@[0],
    ensures
        decode_record(data) is None,
{
    assert(data.subrange(0, 8)[0] == data[0]);
}

/// `core::str::from_utf8` of std: the bytes as a string slice where they are
/// well-formed UTF-8, and nothing where they are not. The slice it gives has
/// exactly the bytes it was given.
#[verifier::external_body]
fn str_from_utf8(bytes: &[u8]) -> (r: Option<&str>)
    ensures
        r is Some <==> valid_utf8(bytes@),
        r is Some ==> r->Some_0.spec_bytes() == bytes@,
{
    match core::str::from_utf8(bytes) {
        Ok(text) => Some(text),
        Err(_) => None,
    }
}

/// Appends a text in its stored form.
fn push_text(bytes: &mut Vec<u8>, text: &str)
    requires
        encode_utf8(text@).len() <= u32::MAX,
    ensures
        final(bytes)@ == old(bytes)@ + encode_text(text@),
{
    let utf8 = text.as_bytes();
    let count = u32_to_le_bytes(utf8.len() as u32);
    bytes.extend_from_slice(count.as_slice());
    bytes.extend_from_slice(utf8);
    assert(bytes@ =~= old(bytes)@ + encode_text(text@));
}

/// The stored form of a tweet. It is never longer than `Tweet::LEN`, and
/// reads back as the same tweet.
pub fn encode(tweet: &Tweet) -> (bytes: Vec<u8>)
    ensures
        bytes@ == encode_record(tweet@),
        bytes@.len() <= Tweet::LEN,
        decode_record(bytes@) == Some(tweet@),
        tweet@.valid(),
{
    let author = tweet.author();
    proof {
        lemma_encode_record_len(tweet@);
        lemma_decode_encode(tweet@, Seq::empty());
        assert(encode_record(tweet@) + Seq::<u8>::empty() =~= encode_record(tweet@));
    }
    let mut bytes: Vec<u8> = Vec::new();
    bytes.extend_from_slice(DISCRIMINATOR.as_slice());
    bytes.extend_from_slice(author.bytes.as_slice());
    let stamp = u64_to_le_bytes(tweet.timestamp() as u64);
    bytes.extend_from_slice(stamp.as_slice());
    assert(bytes@ =~= DISCRIMINATOR@ + tweet@.author + spec_u64_to_le_bytes(
        tweet@.timestamp as u64,
    ));
    push_text(&mut bytes, tweet.topic());
    push_text(&mut bytes, tweet.content());
    bytes
}

/// Reads the text stored at offset `at`.
fn read_text(data: &[u8], at: usize, max_chars: usize) -> (r: Option<(String, usize)>)
    requires
        at <= data@.len(),
    ensures
        r is Some <==> decode_text(data@, at as int, max_chars as nat) is Some,
        r is Some ==> r->Some_0.0@ == decode_text(data@, at as int, max_chars as nat)->Some_0.0,
        r is Some ==> r->Some_0.1 == decode_text(data@, at as int, max_chars as nat)->Some_0.1,
        r is Some ==> r->Some_0.1 <= data@.len(),
{
    if data.len() - at < STRING_LENGTH_PREFIX {
        return None;
    }
    let start: usize = at + STRING_LENGTH_PREFIX;
    let count: u32 = u32_from_le_bytes(slice_subrange(data, at, start));
    if ((data.len() - start) as u64) < count as u64 {
        return None;
    }
    let end: usize = start + count as usize;
    let utf8 = slice_subrange(data, start, end);
    match str_from_utf8(utf8) {
        None => None,
        Some(text) => {
            proof {
                vstd::utf8::encode_utf8_decode_utf8(text@);
            }
            if count_chars(text) > max_chars {
                None
            } else {
                Some((text.to_owned(), end))
            }
        },
    }
}

/// Whether `data` begins with the eight bytes of `mark`.
fn begins_with(data: &[u8], mark: &[u8; 8]) -> (r: bool)
    requires
        data@.len() >= 8,
    ensures
        r == (data@.subrange(0, 8) == mark@),
{
    let mut i: usize = 0;
    while i < 8
        invariant
            i <= 8,
            data@.len() >= 8,
            forall|k: int| 0 <= k < i ==> data@[k] == mark@[k],
        decreases 8 - i,
    {
        if data[i] != mark[i] {
            assert(data@.subrange(0, 8)[i as int] != mark@[i as int]);
            return false;
        }
        i += 1;
    }
    assert(data@.subrange(0, 8) =~= mark@);
    true
}

/// The 32 bytes at offset `at`.
fn read_identity(data: &[u8], at: usize) -> (id: Identity)
    requires
        at + 32 <= data@.len(),
    ensures
        id@ == data@.subrange(at as int, at + 32),
{
    let total: usize = data.len();
    let mut bytes = [0u8; 32];
    let mut i: usize = 0;
    while i < 32
        invariant
            i <= 32,
            at + 32 <= total == data@.len(),
            forall|k: int| 0 <= k < i ==> bytes@[k] == data@[at + k],
        decreases 32 - i,
    {
        bytes[i] = data[at + i];
        i += 1;
    }
    assert(bytes@ =~= data@.subrange(at as int, at + 32));
    Identity::new(bytes)
}

/// Whether `r` is a tweet with the view `expected`, or both are nothing.
pub open spec fn tweet_option_is(r: Option<Tweet>, expected: Option<TweetView>) -> bool {
    match expected {
        Some(v) => r is Some && r->Some_0@ == v,
        None => r is None,
    }
}

/// The tweet that `data` holds, if it holds one.
pub fn decode(data: &[u8]) -> (r: Option<Tweet>)
    ensures
        tweet_option_is(r, decode_record(data@)),
        r is Some ==> r->Some_0@.valid(),
{
    if data.len() < DISCRIMINATOR_LENGTH + PUBLIC_KEY_LENGTH + TIMESTAMP_LENGTH {
        return None;
    }
    if !begins_with(data, &DISCRIMINATOR) {
        return None;
    }
    let author = read_identity(data, 8);
    let timestamp: i64 = u64_from_le_bytes(slice_subrange(data, 40, 48)) as i64;
    let (topic, after_topic) = match read_text(data, 48, MAX_TOPIC_CHARS) {
        None => { return None; },
        Some(found) => found,
    };
    let (content, _) = match read_text(data, after_topic, MAX_CONTENT_CHARS) {
        None => { return None; },
        Some(found) => found,
    };
    match Tweet::new(author, timestamp, topic, content) {
        Ok(tweet) => Some(tweet),
        Err(_) => None,
    }
}

} // verus!
