use baibot::controller::message_aggregator::{ConfigChatCompletionAggregator, MessageAggregator};

fn config() -> ConfigChatCompletionAggregator {
    ConfigChatCompletionAggregator { message_expiration_seconds: 10, message_polling_interval_seconds: 1 }
}

#[test]
fn new_aggregator_has_nothing_pending() {
    let mut aggregator: MessageAggregator<u32> = MessageAggregator::new(config());
    assert_eq!(aggregator.config(), config());
    assert!(aggregator.take_expired(u64::MAX).is_empty());
}

#[test]
fn messages_of_a_room_are_merged() {
    let mut aggregator = MessageAggregator::new(config());
    aggregator.handle("!room:x".to_owned(), Some("Hello".to_owned()), 1_000, 1u32);
    aggregator.handle("!room:x".to_owned(), Some("How are you?".to_owned()), 5_000, 2u32);
    // Waiting starts over with the second message: 5 s + 10 s is not over at 15 s.
    assert!(aggregator.take_expired(15_000).is_empty());
    let taken = aggregator.take_expired(15_001);
    assert_eq!(taken.len(), 1);
    assert_eq!(taken[0].room_key, "!room:x");
    assert_eq!(taken[0].text, Some("Hello\nHow are you?".to_owned()));
    assert_eq!(taken[0].received_at, 5_000);
    assert_eq!(taken[0].context, 1);
    assert!(aggregator.take_expired(u64::MAX).is_empty());
}

#[test]
fn rooms_wait_separately() {
    let mut aggregator = MessageAggregator::new(config());
    aggregator.handle("!a:x".to_owned(), Some("first".to_owned()), 0, ());
    aggregator.handle("!b:x".to_owned(), Some("second".to_owned()), 8_000, ());
    let taken = aggregator.take_expired(12_000);
    assert_eq!(taken.len(), 1);
    assert_eq!(taken[0].room_key, "!a:x");
    let taken = aggregator.take_expired(20_000);
    assert_eq!(taken.len(), 1);
    assert_eq!(taken[0].room_key, "!b:x");
}

#[test]
fn a_pending_voice_message_takes_in_nothing_more() {
    let mut aggregator = MessageAggregator::new(config());
    aggregator.handle("!a:x".to_owned(), None, 0, "voice");
    aggregator.handle("!a:x".to_owned(), Some("text".to_owned()), 9_000, "text");
    let taken = aggregator.take_expired(10_001);
    assert_eq!(taken.len(), 1);
    assert_eq!(taken[0].text, None);
    assert_eq!(taken[0].received_at, 0);
    assert_eq!(taken[0].context, "voice");
}

#[test]
fn a_voice_message_is_added_to_pending_text_as_nothing() {
    let mut aggregator = MessageAggregator::new(config());
    aggregator.handle("!a:x".to_owned(), Some("text".to_owned()), 0, 0u8);
    aggregator.handle("!a:x".to_owned(), None, 3_000, 1u8);
    let taken = aggregator.take_expired(13_001);
    assert_eq!(taken.len(), 1);
    assert_eq!(taken[0].text, Some("text".to_owned()));
    assert_eq!(taken[0].received_at, 3_000);
}

#[test]
fn huge_expiration_never_expires() {
    let mut aggregator = MessageAggregator::new(ConfigChatCompletionAggregator {
        message_expiration_seconds: u64::MAX,
        message_polling_interval_seconds: 1,
    });
    aggregator.handle("!a:x".to_owned(), Some("text".to_owned()), 0, ());
    assert!(aggregator.take_expired(u64::MAX).is_empty());
}
