use friz::Channel;
use friz::DomainEvent;
use friz::DomainRoot;
use friz::FeedError;
use friz::HandleCreator;
use friz::IOEvent;
use friz::StreamConfig;
use friz::StreamState;
use friz::Tweet;
use friz::UIEvent;
use friz::UISignalHandler;
use friz::WakeupEmitter;

#[test]
fn allocator_counts_from_one_without_repeats() {
    let mut alloc = HandleCreator::new();
    assert!(!alloc.has_issued(1));
    let a = alloc.create();
    let b = alloc.create();
    let c = alloc.create();
    assert_eq!((a, b, c), (1, 2, 3));
    assert!(alloc.has_issued(1) && alloc.has_issued(3));
    assert!(!alloc.has_issued(4));
    assert!(!alloc.has_issued(0));
}

#[test]
fn channel_is_fifo() {
    let mut ch: Channel<u32> = Channel::new();
    ch.send(10).unwrap();
    ch.send(20).unwrap();
    ch.send(30).unwrap();
    assert_eq!(ch.try_recv(), Some(10));
    assert_eq!(ch.try_recv(), Some(20));
    assert_eq!(ch.try_recv(), Some(30));
    assert_eq!(ch.try_recv(), None);
}

#[test]
fn channel_reports_terminated_peer() {
    let mut ch: Channel<u32> = Channel::new();
    ch.send(1).unwrap();
    ch.close_receiver();
    assert_eq!(ch.send(2), Err(FeedError::ChannelClosed));
}

#[test]
fn channel_drains_in_arrival_order_after_sender_drop() {
    let mut ch: Channel<u32> = Channel::new();
    ch.send(1).unwrap();
    ch.send(2).unwrap();
    ch.close_sender();
    assert!(!ch.sender_is_open());
    let all = ch.drain();
    assert_eq!(all, vec![1, 2]);
    assert_eq!(ch.len(), 0);
}

#[test]
fn emitter_coalesces_firings() {
    let mut e = WakeupEmitter::new();
    assert!(!e.take());
    e.fire();
    e.fire();
    e.fire();
    assert!(e.take());
    assert!(!e.take());
}

#[test]
fn handler_withholds_tweets_for_closed_handles() {
    let mut handler = UISignalHandler::new();
    handler.set_tweet_callback(9);
    let batch = vec![
        UIEvent::TweetArrived(1, Tweet::new("a".to_string(), "1".to_string())),
        UIEvent::StreamClosed(1),
        UIEvent::TweetArrived(2, Tweet::new("b".to_string(), "2".to_string())),
    ];
    let delivered = handler.wakeup(batch);
    assert_eq!(delivered.len(), 1);
    assert_eq!(delivered[0].0, 2);
    assert_eq!(delivered[0].1.username(), "b");
    assert!(handler.is_closed(1));
    assert!(!handler.is_closed(2));
    // the destruction stays on record for later batches
    let late = handler.wakeup(vec![UIEvent::TweetArrived(
        1,
        Tweet::new("c".to_string(), "3".to_string()),
    )]);
    assert!(late.is_empty());
}

#[test]
fn handler_without_callback_discards_batch() {
    let mut handler = UISignalHandler::new();
    let batch = vec![UIEvent::TweetArrived(
        1,
        Tweet::new("a".to_string(), "1".to_string()),
    )];
    let delivered = handler.wakeup(batch);
    assert!(delivered.is_empty());
}

#[test]
fn machine_keeps_config_and_walks_the_states() {
    let mut root = DomainRoot::new();
    let cfg = StreamConfig::new("dogs".to_string());
    let (ui, io) = root.incoming_domain_event(DomainEvent::StreamCreate(5, cfg));
    assert!(ui.is_none() && io.is_none());
    assert_eq!(root.state(5), Some(StreamState::Created));
    assert_eq!(root.config(5).map(|c| c.filter()), Some("dogs"));
    let (ui, io) = root.incoming_domain_event(DomainEvent::StreamStart(5));
    assert!(ui.is_none());
    assert!(matches!(io, Some(IOEvent::OpenConnection(5))));
    assert_eq!(root.state(5), Some(StreamState::Connecting));
    root.connection_established(5);
    assert_eq!(root.state(5), Some(StreamState::Streaming));
    let ui = root.incoming_tweet(5, Tweet::new("a".to_string(), "1".to_string()));
    assert!(matches!(ui, Some(UIEvent::TweetArrived(5, _))));
    let (ui, io) = root.incoming_domain_event(DomainEvent::StreamDestroy(5));
    assert!(matches!(ui, Some(UIEvent::StreamClosed(5))));
    assert!(matches!(io, Some(IOEvent::CloseConnection(5))));
    assert_eq!(root.state(5), Some(StreamState::Closed));
    // terminal: every later event is ignored
    let ui = root.incoming_tweet(5, Tweet::new("b".to_string(), "2".to_string()));
    assert!(ui.is_none());
    let (ui, io) = root.incoming_domain_event(DomainEvent::StreamDestroy(5));
    assert!(ui.is_none() && io.is_none());
    root.connection_established(5);
    assert_eq!(root.state(5), Some(StreamState::Closed));
}

#[test]
fn machine_ignores_start_for_unknown_handle() {
    let mut root = DomainRoot::new();
    let (ui, io) = root.incoming_domain_event(DomainEvent::StreamStart(3));
    assert!(ui.is_none() && io.is_none());
    assert_eq!(root.state(3), None);
}

#[test]
fn config_is_forwarded_verbatim() {
    let cfg = StreamConfig::new("track=verification".to_string());
    assert_eq!(cfg.filter(), "track=verification");
}
