use cobase::event::{Domain, FeedAction, FeedEvent, next_feed_action, retry_plan, RETRY_DELAY_SECS, QUERY_SUBSCRIPTION_GROUP};
use cobase::group::event::Event;

fn is_safe(c: char) -> bool {
    c == '_' || c == '-' || c.is_ascii_digit() || c.is_ascii_lowercase() || c.is_ascii_uppercase()
}

#[test]
fn domain_names() {
    assert_eq!(Domain::Group.as_str(), "group");
    assert_eq!(Domain::Group.document_type(), "cobase:group");
    assert_eq!(Domain::Group.category_stream(), "$ce-cobase:group");
    assert_eq!(QUERY_SUBSCRIPTION_GROUP, "cobase-api-query");
}

#[test]
fn domain_from_name() {
    assert_eq!(Domain::from_name("group"), Some(Domain::Group));
    assert_eq!(Domain::from_name("Group"), None);
    assert_eq!(Domain::from_name("groups"), None);
    assert_eq!(Domain::from_name(""), None);
}

#[test]
fn stream_id_shape() {
    let id = Domain::Group.to_stream_id();
    assert!(id.starts_with("cobase:group-"));
    let suffix = &id["cobase:group-".len()..];
    assert_eq!(suffix.chars().count(), 21);
    assert!(suffix.chars().all(is_safe));
}

#[test]
fn stream_ids_differ() {
    let a = Domain::Group.to_stream_id();
    let b = Domain::Group.to_stream_id();
    assert_ne!(a, b);
}

#[test]
fn stream_id_round_trip() {
    for _ in 0..50 {
        let id = Domain::Group.to_stream_id();
        let suffix = id["cobase:group-".len()..].to_string();
        assert_eq!(Domain::Group.from_stream_id(&id), suffix);
    }
}

#[test]
fn from_stream_id_removes_every_prefix() {
    assert_eq!(Domain::Group.from_stream_id("cobase:group-abc"), "abc");
    assert_eq!(Domain::Group.from_stream_id("x-cobase:group-y-cobase:group-"), "x-y-");
    assert_eq!(Domain::Group.from_stream_id("cobase:group"), "cobase:group");
    assert_eq!(Domain::Group.from_stream_id(""), "");
    assert_eq!(Domain::Group.from_stream_id("cobase:group-cobase:group-z"), "z");
    assert_eq!(Domain::Group.from_stream_id("日本cobase:group-語"), "日本語");
}

#[test]
fn event_names() {
    assert_eq!(Event::Created.as_str(), "created");
    assert_eq!(Event::from_name("created"), Some(Event::Created));
    assert_eq!(Event::from_name("Created"), None);
    assert_eq!(Event::from_name("deleted"), None);
}

#[test]
fn feed_actions() {
    assert_eq!(
        next_feed_action(FeedEvent::ConnectFailed("down".to_string())),
        FeedAction::Stop(Err("down".to_string()))
    );
    assert_eq!(
        next_feed_action(FeedEvent::ReadFailed("lost".to_string())),
        FeedAction::Stop(Err("lost".to_string()))
    );
    assert_eq!(next_feed_action(FeedEvent::Ended), FeedAction::Stop(Ok(())));
    assert_eq!(next_feed_action(FeedEvent::Appeared { recorded: true }), FeedAction::Handle);
    assert_eq!(
        next_feed_action(FeedEvent::Appeared { recorded: false }),
        FeedAction::Stop(Err("RecordedEvent is None".to_string()))
    );
    assert_eq!(next_feed_action(FeedEvent::Other), FeedAction::Read);
    assert_eq!(next_feed_action(FeedEvent::Handled), FeedAction::AckThenRead);
    assert_eq!(
        next_feed_action(FeedEvent::HandleFailed("bad".to_string())),
        FeedAction::Stop(Err("bad".to_string()))
    );
}

#[test]
fn retry_after_subscription() {
    let plan = retry_plan(Err("boom".to_string()), "cobase-api-query", "$ce-cobase:group");
    assert_eq!(plan.error, Some("boom".to_string()));
    assert_eq!(plan.delay_secs, 2);
    assert_eq!(RETRY_DELAY_SECS, 2);
    assert_eq!(plan.notice, "try to subscribe cobase-api-query::$ce-cobase:group");
    let plan = retry_plan(Ok(()), "g", "s");
    assert_eq!(plan.error, None);
    assert_eq!(plan.notice, "try to subscribe g::s");
}

#[test]
fn stream_name_with_suffix() {
    assert_eq!(Domain::Group.with_suffix("abc"), "cobase:group-abc");
    assert_eq!(Domain::Group.with_suffix(""), "cobase:group-");
    assert_eq!(Domain::Group.from_stream_id(&Domain::Group.with_suffix("V1StGXR8_Z5jdHi6B-myT")), "V1StGXR8_Z5jdHi6B-myT");
}

#[test]
fn event_parse() {
    assert_eq!(Event::parse("created"), Ok(Event::Created));
    assert_eq!(Event::parse("removed"), Err("Matching variant not found".to_string()));
}
