//! The tweet record.

use vstd::prelude::*;
use crate::error::ErrorCode;
use crate::identity::Identity;
use crate::limits::{check_text, text_error, text_fits, text_verdict};

verus! {

/// What a tweet is, as plain mathematical values.
pub struct TweetView {
    /// Bytes of the author's identity.
    pub author: Seq<u8>,
    /// Seconds since the epoch at which the tweet was created.
    pub timestamp: i64,
    /// Characters of the topic.
    pub topic: Seq<char>,
    /// Characters of the content.
    pub content: Seq<char>,
}

impl TweetView {
    /// The invariant of every record: a full-sized author and texts within
    /// their character limits.
    pub open spec fn valid(self) -> bool {
        self.author.len() == 32 && text_fits(self.topic, self.content)
    }

    /// This record with its two texts replaced.
    pub open spec fn with_text(self, topic: Seq<char>, content: Seq<char>) -> TweetView {
        TweetView { author: self.author, timestamp: self.timestamp, topic, content }
    }
}

/// A tweet: who wrote it, when, and its two texts. Every value of this type
/// keeps its texts within their character limits.
#[derive(Debug, PartialEq, Eq)]
pub struct Tweet {
    author: Identity,
    timestamp: i64,
    topic: String,
    content: String,
}

impl View for Tweet {
    type V = TweetView;

    closed spec fn view(&self) -> TweetView {
        TweetView {
            author: self.author@,
            timestamp: self.timestamp,
            topic: self.topic@,
            content: self.content@,
        }
    }
}

/// What `Tweet::new` returns for the given values.
pub open spec fn new_tweet(
    author: Seq<u8>,
    timestamp: i64,
    topic: Seq<char>,
    content: Seq<char>,
) -> Result<TweetView, ErrorCode> {
    match text_error(topic, content) {
        Some(e) => Err(e),
        None => Ok(TweetView { author, timestamp, topic, content }),
    }
}

/// Whether `r` is a tweet with the view `expected`, or the same rejection.
pub open spec fn tweet_result_is(
    r: Result<Tweet, ErrorCode>,
    expected: Result<TweetView, ErrorCode>,
) -> bool {
    match expected {
        Ok(v) => r is Ok && r->Ok_0@ == v,
        Err(e) => r == Err::<Tweet, ErrorCode>(e),
    }
}

impl Clone for Tweet {
    fn clone(&self) -> (copy: Tweet)
        ensures
            copy@ == self@,
    {
        proof {
            use_type_invariant(self);
        }
        Tweet {
            author: self.author,
            timestamp: self.timestamp,
            topic: self.topic.clone(),
            content: self.content.clone(),
        }
    }
}

impl Tweet {
    #[verifier::type_invariant]
    spec fn within_limits(&self) -> bool {
        text_fits(self.topic@, self.content@)
    }

    /// A tweet of the given author, time and texts, unless a text exceeds its
    /// limit.
    pub fn new(author: Identity, timestamp: i64, topic: String, content: String) -> (r: Result<
        Tweet,
        ErrorCode,
    >)
        ensures
            tweet_result_is(r, new_tweet(author@, timestamp, topic@, content@)),
            r is Ok ==> r->Ok_0@.valid(),
    {
        match check_text(topic.as_str(), content.as_str()) {
            Err(e) => Err(e),
            Ok(()) => Ok(Tweet { author, timestamp, topic, content }),
        }
    }

    /// The identity that created the tweet.
    pub fn author(&self) -> (author: Identity)
        ensures
            author@ == self@.author,
            self@.valid(),
    {
        proof {
            use_type_invariant(self);
        }
        self.author
    }

    /// Seconds since the epoch at which the tweet was created.
    pub fn timestamp(&self) -> (timestamp: i64)
        ensures
            timestamp == self@.timestamp,
            self@.valid(),
    {
        proof {
            use_type_invariant(self);
        }
        self.timestamp
    }

    /// The topic.
    pub fn topic(&self) -> (topic: &str)
        ensures
            topic@ == self@.topic,
            self@.valid(),
    {
        proof {
            use_type_invariant(self);
        }
        self.topic.as_str()
    }

    /// The content.
    pub fn content(&self) -> (content: &str)
        ensures
            content@ == self@.content,
            self@.valid(),
    {
        proof {
            use_type_invariant(self);
        }
        self.content.as_str()
    }

    /// Replaces both texts, unless one exceeds its limit; author and timestamp
    /// stay.
    pub fn set_text(&mut self, topic: String, content: String) -> (r: Result<(), ErrorCode>)
        ensures
            r == text_verdict(topic@, content@),
            r is Ok ==> final(self)@ == old(self)@.with_text(topic@, content@),
            r is Err ==> *final(self) == *old(self),
            final(self)@.valid(),
    {
        proof {
            use_type_invariant(&*self);
        }
        match check_text(topic.as_str(), content.as_str()) {
            Err(e) => Err(e),
            Ok(()) => {
                self.topic = topic;
                self.content = content;
                Ok(())
            },
        }
    }
}

} // verus!
