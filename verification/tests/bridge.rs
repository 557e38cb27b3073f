use friz::FeedError;
use friz::IOEvent;
use friz::StreamConfig;
use friz::StreamState;
use friz::Tweet;
use friz::TweetFeedContext;
use friz::Twitter;

#[test]
fn twitter_returns_nonempty_vector() {
    let mut twitter = Twitter::new();
    assert!(!twitter.get().is_empty());
}

#[test]
fn stub_feed_contents() {
    let mut twitter = Twitter::new();
    let tweets = twitter.get();
    assert_eq!(tweets.len(), 1);
    assert_eq!(tweets[0].username(), "Ryan Levick");
    assert_eq!(tweets[0].text(), "Some Text");
}

#[test]
fn tweet_accessors() {
    let t = Tweet::new("alice".to_string(), "hi".to_string());
    assert_eq!(t.username(), "alice");
    assert_eq!(t.text(), "hi");
}

#[test]
fn handles_are_unique_and_monotonic() {
    let mut ctx = TweetFeedContext::create_context();
    let h1 = ctx.stream_create(StreamConfig::new("a".to_string())).unwrap();
    let h2 = ctx.stream_create(StreamConfig::new("b".to_string())).unwrap();
    let h3 = ctx.stream_create(StreamConfig::new("c".to_string())).unwrap();
    assert_eq!(h1, 1);
    assert_eq!(h2, 2);
    assert_eq!(h3, 3);
    assert!(h1 != h2 && h2 != h3 && h1 != h3);
}

#[test]
fn control_messages_processed_in_issue_order() {
    let mut ctx = TweetFeedContext::create_context();
    let h1 = ctx.stream_create(StreamConfig::new("a".to_string())).unwrap();
    let h2 = ctx.stream_create(StreamConfig::new("b".to_string())).unwrap();
    ctx.stream_start(h1, 7).unwrap();
    // nothing processed yet: registration is eventually consistent
    assert_eq!(ctx.stream_state(h1), None);
    let (did, _) = ctx.domain_step();
    assert!(did);
    assert_eq!(ctx.stream_state(h1), Some(StreamState::Created));
    assert_eq!(ctx.stream_state(h2), None);
    let (did, _) = ctx.domain_step();
    assert!(did);
    assert_eq!(ctx.stream_state(h2), Some(StreamState::Created));
    assert_eq!(ctx.stream_state(h1), Some(StreamState::Created));
    let (did, io) = ctx.domain_step();
    assert!(did);
    assert!(matches!(io, Some(IOEvent::OpenConnection(1))));
    assert_eq!(ctx.stream_state(h1), Some(StreamState::Connecting));
    let (did, io) = ctx.domain_step();
    assert!(!did);
    assert!(io.is_none());
}

#[test]
fn tweet_delivered_exactly_once_with_contents() {
    let mut ctx = TweetFeedContext::create_context();
    let h = ctx.stream_create(StreamConfig::new("cats".to_string())).unwrap();
    assert_eq!(h, 1);
    ctx.stream_start(1, 7).unwrap();
    ctx.domain_step();
    ctx.domain_step();
    ctx.connection_established(1);
    assert_eq!(ctx.stream_state(1), Some(StreamState::Streaming));
    ctx.inject_tweet(1, Tweet::new("alice".to_string(), "hi".to_string()));
    // the signal fired once for the queued event
    assert!(ctx.is_wakeup_pending());
    let delivered = ctx.host_dispatch().expect("a wakeup was pending");
    assert_eq!(delivered.len(), 1);
    assert_eq!(delivered[0].0, 1);
    assert_eq!(delivered[0].1.username(), "alice");
    assert_eq!(delivered[0].1.text(), "hi");
    // exactly once: no second wakeup is pending
    assert!(ctx.host_dispatch().is_none());
}

#[test]
fn wakeup_coalescing_one_dispatch_drains_all() {
    let mut ctx = TweetFeedContext::create_context();
    ctx.stream_create(StreamConfig::new("cats".to_string())).unwrap();
    ctx.stream_start(1, 7).unwrap();
    ctx.domain_step();
    ctx.domain_step();
    ctx.connection_established(1);
    // fire the emitter three times before the host loop runs
    ctx.inject_tweet(1, Tweet::new("a".to_string(), "1".to_string()));
    ctx.inject_tweet(1, Tweet::new("b".to_string(), "2".to_string()));
    ctx.inject_tweet(1, Tweet::new("c".to_string(), "3".to_string()));
    assert_eq!(ctx.pending_events_len(), 3);
    let delivered = ctx.host_dispatch().expect("a wakeup was pending");
    // one invocation drained everything queued, in arrival order
    assert_eq!(delivered.len(), 3);
    assert_eq!(delivered[0].1.username(), "a");
    assert_eq!(delivered[1].1.username(), "b");
    assert_eq!(delivered[2].1.username(), "c");
    assert_eq!(ctx.pending_events_len(), 0);
    assert!(ctx.host_dispatch().is_none());
}

#[test]
fn destroyed_stream_discards_later_tweet() {
    let mut ctx = TweetFeedContext::create_context();
    ctx.stream_create(StreamConfig::new("cats".to_string())).unwrap();
    ctx.stream_start(1, 7).unwrap();
    ctx.domain_step();
    ctx.domain_step();
    ctx.connection_established(1);
    ctx.stream_destroy(1).unwrap();
    ctx.domain_step();
    assert_eq!(ctx.stream_state(1), Some(StreamState::Closed));
    // a tweet for a closed handle is ignored, not erred
    ctx.inject_tweet(1, Tweet::new("alice".to_string(), "hi".to_string()));
    match ctx.host_dispatch() {
        Some(delivered) => assert!(delivered.is_empty()),
        None => {}
    }
}

#[test]
fn destroy_wins_over_already_queued_tweet() {
    let mut ctx = TweetFeedContext::create_context();
    ctx.stream_create(StreamConfig::new("cats".to_string())).unwrap();
    ctx.stream_start(1, 7).unwrap();
    ctx.domain_step();
    ctx.domain_step();
    ctx.connection_established(1);
    // the tweet event is already queued when the destroy is processed
    ctx.inject_tweet(1, Tweet::new("alice".to_string(), "hi".to_string()));
    ctx.stream_destroy(1).unwrap();
    ctx.domain_step();
    let delivered = ctx.host_dispatch().expect("a wakeup was pending");
    assert!(delivered.is_empty());
}

#[test]
fn tweets_without_callback_are_discarded() {
    let mut ctx = TweetFeedContext::create_context();
    ctx.stream_create(StreamConfig::new("cats".to_string())).unwrap();
    // no stream_start: no callback registered, and the stream never leaves
    // Created, so an injected tweet produces nothing
    ctx.domain_step();
    ctx.inject_tweet(1, Tweet::new("alice".to_string(), "hi".to_string()));
    assert_eq!(ctx.pending_events_len(), 0);
    assert!(!ctx.is_wakeup_pending());
}

#[test]
fn start_unknown_handle_is_reported() {
    let mut ctx = TweetFeedContext::create_context();
    assert_eq!(ctx.stream_start(1, 7), Err(FeedError::UnknownHandle));
    ctx.stream_create(StreamConfig::new("cats".to_string())).unwrap();
    assert_eq!(ctx.stream_start(2, 7), Err(FeedError::UnknownHandle));
    assert!(ctx.stream_start(1, 7).is_ok());
}

#[test]
fn start_after_destroy_is_reported() {
    let mut ctx = TweetFeedContext::create_context();
    ctx.stream_create(StreamConfig::new("cats".to_string())).unwrap();
    ctx.stream_destroy(1).unwrap();
    assert_eq!(ctx.stream_start(1, 7), Err(FeedError::UnknownHandle));
}

#[test]
fn destroy_of_unknown_handle_is_ignored() {
    let mut ctx = TweetFeedContext::create_context();
    // accepted and enqueued; the domain ignores it without recording a stream
    ctx.stream_destroy(42).unwrap();
    let (did, io) = ctx.domain_step();
    assert!(did);
    assert!(io.is_none());
    assert_eq!(ctx.stream_state(42), None);
    assert_eq!(ctx.pending_events_len(), 0);
}

#[test]
fn teardown_processes_everything_and_closes() {
    let mut ctx = TweetFeedContext::create_context();
    for i in 0..5u32 {
        let h = ctx.stream_create(StreamConfig::new(format!("s{}", i))).unwrap();
        ctx.stream_start(h, 7).unwrap();
    }
    // no domain steps ran yet; teardown must still drain and stop
    ctx.teardown();
    assert_eq!(ctx.pending_control_len(), 0);
    for i in 1..=5u32 {
        assert_eq!(ctx.stream_state(i), Some(StreamState::Connecting));
    }
    // operations after teardown report the closed channel
    assert_eq!(
        ctx.stream_create(StreamConfig::new("late".to_string())),
        Err(FeedError::ChannelClosed)
    );
    assert_eq!(ctx.stream_destroy(1), Err(FeedError::ChannelClosed));
    assert_eq!(ctx.stream_start(1, 7), Err(FeedError::ChannelClosed));
    // disposing the wakeup registration again is idempotent and safe
    ctx.dispose_wakeup();
    ctx.dispose_wakeup();
}

#[test]
fn transport_failure_records_terminal_state() {
    let mut ctx = TweetFeedContext::create_context();
    ctx.stream_create(StreamConfig::new("cats".to_string())).unwrap();
    ctx.stream_start(1, 7).unwrap();
    ctx.domain_step();
    ctx.domain_step();
    ctx.connection_established(1);
    ctx.transport_failure(1);
    assert_eq!(ctx.stream_state(1), Some(StreamState::Closed));
    // the domain stays alive: later control messages are still processed
    let h2 = ctx.stream_create(StreamConfig::new("dogs".to_string())).unwrap();
    let (did, _) = ctx.domain_step();
    assert!(did);
    assert_eq!(ctx.stream_state(h2), Some(StreamState::Created));
    // and a tweet for the failed stream is never delivered
    ctx.inject_tweet(1, Tweet::new("alice".to_string(), "hi".to_string()));
    match ctx.host_dispatch() {
        Some(delivered) => assert!(delivered.is_empty()),
        None => {}
    }
}
