use solana_twitter::{
    delete_tweet, send_tweet, send_tweet_at, update_tweet, DeleteTweet, ErrorCode, Identity,
    SendTweet, Signer, Slot, Tweet, TweetError, UpdateTweet,
};

fn alice() -> Signer {
    Signer { key: Identity::new([0xa1u8; 32]), lamports: 500 }
}

fn bob() -> Signer {
    Signer { key: Identity::new([0xb0u8; 32]), lamports: 70 }
}

fn sent(author: Signer, now: i64, topic: &str, content: &str) -> Slot {
    let mut ctx: SendTweet = SendTweet { tweet: Slot::allocate(9_000), author };
    assert_eq!(send_tweet_at(&mut ctx, Some(now), topic.to_string(), content.to_string()), Ok(()));
    ctx.tweet
}

fn expect_tweet(slot: &Slot, author: Identity, timestamp: i64, topic: &str, content: &str) {
    let tweet: Tweet = slot.load().expect("the slot holds a tweet");
    assert_eq!(tweet.author(), author);
    assert_eq!(tweet.timestamp(), timestamp);
    assert_eq!(tweet.topic(), topic);
    assert_eq!(tweet.content(), content);
}

#[test]
fn send_stores_author_clock_and_texts() {
    let mut ctx: SendTweet = SendTweet { tweet: Slot::allocate(9_000), author: alice() };
    let r = send_tweet_at(&mut ctx, Some(1_650_000_000), "hi".to_string(), "world".to_string());
    assert_eq!(r, Ok(()));
    expect_tweet(&ctx.tweet, alice().key, 1_650_000_000, "hi", "world");
    assert_eq!(ctx.tweet.lamports(), 9_000);
    assert_eq!(ctx.author, alice());
}

#[test]
fn send_accepts_a_topic_of_fifty_characters() {
    let slot: Slot = sent(alice(), 1, &"t".repeat(50), "c");
    expect_tweet(&slot, alice().key, 1, &"t".repeat(50), "c");
}

#[test]
fn send_rejects_a_topic_of_fifty_one_characters() {
    let mut ctx: SendTweet = SendTweet { tweet: Slot::allocate(9_000), author: alice() };
    let before: SendTweet = ctx.clone();
    let r = send_tweet_at(&mut ctx, Some(1), "t".repeat(51), "c".to_string());
    assert_eq!(r, Err(TweetError::Invalid(ErrorCode::TopicTooLong)));
    assert_eq!(ctx, before);
}

#[test]
fn send_accepts_a_content_of_two_hundred_eighty_characters() {
    let slot: Slot = sent(alice(), 1, "t", &"c".repeat(280));
    expect_tweet(&slot, alice().key, 1, "t", &"c".repeat(280));
}

#[test]
fn send_rejects_a_content_of_two_hundred_eighty_one_characters() {
    let mut ctx: SendTweet = SendTweet { tweet: Slot::allocate(9_000), author: alice() };
    let before: SendTweet = ctx.clone();
    let r = send_tweet_at(&mut ctx, Some(1), "t".to_string(), "c".repeat(281));
    assert_eq!(r, Err(TweetError::Invalid(ErrorCode::ContentTooLong)));
    assert_eq!(ctx, before);
}

#[test]
fn send_measures_characters_not_bytes() {
    let topic: String = "😀".repeat(50);
    assert_eq!(topic.len(), 200);
    let slot: Slot = sent(alice(), 1, &topic, &"😀".repeat(280));
    expect_tweet(&slot, alice().key, 1, &topic, &"😀".repeat(280));

    let mut ctx: SendTweet = SendTweet { tweet: Slot::allocate(9_000), author: alice() };
    let topic: String = "a".repeat(51);
    assert_eq!(topic.len(), 51);
    let r = send_tweet_at(&mut ctx, Some(1), topic, String::new());
    assert_eq!(r, Err(TweetError::Invalid(ErrorCode::TopicTooLong)));
}

#[test]
fn send_refuses_a_slot_that_is_in_use() {
    let slot: Slot = sent(alice(), 1, "hi", "world");
    let mut ctx: SendTweet = SendTweet { tweet: slot, author: bob() };
    let before: SendTweet = ctx.clone();
    let r = send_tweet_at(&mut ctx, Some(2), "mine".to_string(), "now".to_string());
    assert_eq!(r, Err(TweetError::SlotInUse));
    assert_eq!(ctx, before);
    expect_tweet(&ctx.tweet, alice().key, 1, "hi", "world");
}

#[test]
fn send_names_the_slot_before_the_clock_and_the_clock_before_the_texts() {
    let slot: Slot = sent(alice(), 1, "hi", "world");
    let mut ctx: SendTweet = SendTweet { tweet: slot, author: alice() };
    assert_eq!(
        send_tweet_at(&mut ctx, None, "t".repeat(51), String::new()),
        Err(TweetError::SlotInUse)
    );
    let mut ctx: SendTweet = SendTweet { tweet: Slot::allocate(1), author: alice() };
    assert_eq!(
        send_tweet_at(&mut ctx, None, "t".repeat(51), String::new()),
        Err(TweetError::ClockUnavailable)
    );
    assert_eq!(ctx.tweet, Slot::allocate(1));
}

#[test]
fn send_without_a_host_finds_no_clock() {
    let mut ctx: SendTweet = SendTweet { tweet: Slot::allocate(9_000), author: alice() };
    let before: SendTweet = ctx.clone();
    let r = send_tweet(&mut ctx, "hi".to_string(), "world".to_string());
    assert_eq!(r, Err(TweetError::ClockUnavailable));
    assert_eq!(ctx, before);
}

#[test]
fn send_without_a_host_still_refuses_a_slot_in_use() {
    let slot: Slot = sent(alice(), 1, "hi", "world");
    let mut ctx: SendTweet = SendTweet { tweet: slot, author: alice() };
    let before: SendTweet = ctx.clone();
    assert_eq!(
        send_tweet(&mut ctx, "again".to_string(), "please".to_string()),
        Err(TweetError::SlotInUse)
    );
    assert_eq!(ctx, before);
}

#[test]
fn update_by_the_author_replaces_the_texts() {
    let slot: Slot = sent(alice(), 1_650_000_000, "hi", "world");
    let mut ctx: UpdateTweet = UpdateTweet { tweet: slot, author: alice() };
    assert_eq!(update_tweet(&mut ctx, "bye".to_string(), "later".to_string()), Ok(()));
    expect_tweet(&ctx.tweet, alice().key, 1_650_000_000, "bye", "later");
    assert_eq!(ctx.tweet.lamports(), 9_000);
    assert_eq!(ctx.author, alice());
}

#[test]
fn update_to_shorter_texts_reads_back_as_the_shorter_texts() {
    let slot: Slot = sent(alice(), 3, "a long topic", "a rather long content");
    let mut ctx: UpdateTweet = UpdateTweet { tweet: slot, author: alice() };
    assert_eq!(update_tweet(&mut ctx, "a".to_string(), String::new()), Ok(()));
    expect_tweet(&ctx.tweet, alice().key, 3, "a", "");
}

#[test]
fn update_by_a_stranger_is_refused_and_changes_nothing() {
    let slot: Slot = sent(alice(), 1_650_000_000, "hi", "world");
    let mut ctx: UpdateTweet = UpdateTweet { tweet: slot, author: bob() };
    let before: UpdateTweet = ctx.clone();
    let r = update_tweet(&mut ctx, "bye".to_string(), "later".to_string());
    assert_eq!(r, Err(TweetError::NotAuthor));
    assert_eq!(ctx, before);
    expect_tweet(&ctx.tweet, alice().key, 1_650_000_000, "hi", "world");
}

#[test]
fn update_names_the_stranger_before_the_texts() {
    let slot: Slot = sent(alice(), 1, "hi", "world");
    let mut ctx: UpdateTweet = UpdateTweet { tweet: slot, author: bob() };
    let r = update_tweet(&mut ctx, "t".repeat(51), "c".repeat(281));
    assert_eq!(r, Err(TweetError::NotAuthor));
}

#[test]
fn update_judges_the_texts_as_send_does() {
    let slot: Slot = sent(alice(), 1, "hi", "world");
    let mut ctx: UpdateTweet = UpdateTweet { tweet: slot, author: alice() };
    let before: UpdateTweet = ctx.clone();
    assert_eq!(
        update_tweet(&mut ctx, "t".repeat(51), "later".to_string()),
        Err(TweetError::Invalid(ErrorCode::TopicTooLong))
    );
    assert_eq!(ctx, before);
    assert_eq!(
        update_tweet(&mut ctx, "bye".to_string(), "c".repeat(281)),
        Err(TweetError::Invalid(ErrorCode::ContentTooLong))
    );
    assert_eq!(ctx, before);
    assert_eq!(update_tweet(&mut ctx, "t".repeat(50), "c".repeat(280)), Ok(()));
    expect_tweet(&ctx.tweet, alice().key, 1, &"t".repeat(50), &"c".repeat(280));
    assert_eq!(update_tweet(&mut ctx, "😀".repeat(50), "😀".repeat(280)), Ok(()));
    expect_tweet(&ctx.tweet, alice().key, 1, &"😀".repeat(50), &"😀".repeat(280));
}

#[test]
fn update_of_an_empty_slot_is_refused() {
    let mut ctx: UpdateTweet = UpdateTweet { tweet: Slot::allocate(9_000), author: alice() };
    let before: UpdateTweet = ctx.clone();
    let r = update_tweet(&mut ctx, "bye".to_string(), "later".to_string());
    assert_eq!(r, Err(TweetError::NoRecord));
    assert_eq!(ctx, before);
}

#[test]
fn delete_by_the_author_closes_the_slot_and_returns_its_balance() {
    let slot: Slot = sent(alice(), 1, "hi", "world");
    let mut ctx: DeleteTweet = DeleteTweet { tweet: slot, author: alice() };
    assert_eq!(delete_tweet(&mut ctx), Ok(()));
    assert_eq!(ctx.tweet.load(), None);
    assert_eq!(ctx.tweet.lamports(), 0);
    assert_eq!(ctx.author.lamports, 9_500);
    assert_eq!(ctx.author.key, alice().key);
}

#[test]
fn delete_by_a_stranger_is_refused_and_leaves_the_tweet() {
    let slot: Slot = sent(alice(), 1, "hi", "world");
    let mut ctx: DeleteTweet = DeleteTweet { tweet: slot, author: bob() };
    let before: DeleteTweet = ctx.clone();
    assert_eq!(delete_tweet(&mut ctx), Err(TweetError::NotAuthor));
    assert_eq!(ctx, before);
    expect_tweet(&ctx.tweet, alice().key, 1, "hi", "world");
    assert_eq!(ctx.tweet.lamports(), 9_000);
    assert_eq!(ctx.author.lamports, 70);
}

#[test]
fn delete_of_an_empty_slot_is_refused() {
    let mut ctx: DeleteTweet = DeleteTweet { tweet: Slot::allocate(9_000), author: alice() };
    let before: DeleteTweet = ctx.clone();
    assert_eq!(delete_tweet(&mut ctx), Err(TweetError::NoRecord));
    assert_eq!(ctx, before);
}

#[test]
fn delete_is_refused_where_the_balance_has_no_room() {
    let slot: Slot = sent(alice(), 1, "hi", "world");
    let rich: Signer = Signer { key: alice().key, lamports: u64::MAX - 8_999 };
    let mut ctx: DeleteTweet = DeleteTweet { tweet: slot, author: rich };
    let before: DeleteTweet = ctx.clone();
    assert_eq!(delete_tweet(&mut ctx), Err(TweetError::BalanceOverflow));
    assert_eq!(ctx, before);
    ctx.author.lamports = u64::MAX - 9_000;
    assert_eq!(delete_tweet(&mut ctx), Ok(()));
    assert_eq!(ctx.author.lamports, u64::MAX);
}

#[test]
fn nothing_succeeds_on_a_closed_slot() {
    let slot: Slot = sent(alice(), 1, "hi", "world");
    let mut del: DeleteTweet = DeleteTweet { tweet: slot, author: alice() };
    assert_eq!(delete_tweet(&mut del), Ok(()));
    let closed: Slot = del.tweet.clone();

    assert_eq!(delete_tweet(&mut del), Err(TweetError::NoRecord));
    assert_eq!(del.tweet, closed);
    assert_eq!(del.author.lamports, 9_500);

    let mut up: UpdateTweet = UpdateTweet { tweet: closed.clone(), author: alice() };
    assert_eq!(
        update_tweet(&mut up, "bye".to_string(), "later".to_string()),
        Err(TweetError::NoRecord)
    );
    assert_eq!(up.tweet, closed);

    let mut send: SendTweet = SendTweet { tweet: closed.clone(), author: alice() };
    assert_eq!(
        send_tweet_at(&mut send, Some(2), "hi".to_string(), "again".to_string()),
        Err(TweetError::SlotInUse)
    );
    assert_eq!(send.tweet, closed);
}

#[test]
fn a_tweet_lives_from_send_through_update_to_delete() {
    let a: Signer = alice();
    let t: i64 = 1_650_000_000;

    let mut send: SendTweet = SendTweet { tweet: Slot::allocate(9_000), author: a };
    assert_eq!(send_tweet_at(&mut send, Some(t), "hi".to_string(), "world".to_string()), Ok(()));
    expect_tweet(&send.tweet, a.key, t, "hi", "world");

    let mut update: UpdateTweet = UpdateTweet { tweet: send.tweet, author: send.author };
    assert_eq!(update_tweet(&mut update, "bye".to_string(), "later".to_string()), Ok(()));
    expect_tweet(&update.tweet, a.key, t, "bye", "later");

    let mut delete: DeleteTweet = DeleteTweet { tweet: update.tweet, author: update.author };
    assert_eq!(delete_tweet(&mut delete), Ok(()));
    assert_eq!(delete.tweet.load(), None);
    assert_eq!(delete.tweet.lamports(), 0);
    assert_eq!(delete.author.lamports, a.lamports + 9_000);
}
