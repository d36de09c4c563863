use solana_twitter::{check_text, count_chars, ErrorCode, MAX_CONTENT_CHARS, MAX_TOPIC_CHARS};

#[test]
fn limits_are_fifty_and_two_hundred_eighty() {
    assert_eq!(MAX_TOPIC_CHARS, 50);
    assert_eq!(MAX_CONTENT_CHARS, 280);
}

#[test]
fn counts_characters_not_bytes() {
    assert_eq!(count_chars(""), 0);
    assert_eq!(count_chars("hello"), 5);
    assert_eq!(count_chars("héllo"), 5);
    assert_eq!("héllo".len(), 6);
    assert_eq!(count_chars("日本語"), 3);
    assert_eq!(count_chars("😀😀"), 2);
    assert_eq!("😀😀".len(), 8);
}

#[test]
fn topic_of_exactly_fifty_characters_is_accepted() {
    let topic: String = "t".repeat(50);
    assert_eq!(check_text(&topic, "fine"), Ok(()));
}

#[test]
fn topic_of_fifty_one_characters_is_rejected() {
    let topic: String = "t".repeat(51);
    assert_eq!(check_text(&topic, "fine"), Err(ErrorCode::TopicTooLong));
}

#[test]
fn content_of_exactly_two_hundred_eighty_characters_is_accepted() {
    let content: String = "c".repeat(280);
    assert_eq!(check_text("fine", &content), Ok(()));
}

#[test]
fn content_of_two_hundred_eighty_one_characters_is_rejected() {
    let content: String = "c".repeat(281);
    assert_eq!(check_text("fine", &content), Err(ErrorCode::ContentTooLong));
}

#[test]
fn topic_is_judged_before_content() {
    let topic: String = "t".repeat(51);
    let content: String = "c".repeat(281);
    assert_eq!(check_text(&topic, &content), Err(ErrorCode::TopicTooLong));
}

#[test]
fn fifty_four_byte_characters_are_an_acceptable_topic() {
    let topic: String = "😀".repeat(50);
    assert_eq!(topic.len(), 200);
    assert_eq!(check_text(&topic, ""), Ok(()));
}

#[test]
fn fifty_one_single_byte_characters_are_too_long_a_topic() {
    let topic: String = "a".repeat(51);
    assert_eq!(topic.len(), 51);
    assert_eq!(check_text(&topic, ""), Err(ErrorCode::TopicTooLong));
}

#[test]
fn two_hundred_eighty_four_byte_characters_are_an_acceptable_content() {
    let content: String = "😀".repeat(280);
    assert_eq!(content.len(), 1120);
    assert_eq!(check_text("", &content), Ok(()));
}

#[test]
fn empty_texts_are_accepted() {
    assert_eq!(check_text("", ""), Ok(()));
}

#[test]
fn messages_name_the_limit() {
    assert_eq!(
        ErrorCode::TopicTooLong.message(),
        "The provided topic should be 50 characters long maximum."
    );
    assert_eq!(
        ErrorCode::ContentTooLong.message(),
        "The provided content should be 280 characters long maximum."
    );
}
