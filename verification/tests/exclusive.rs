use std::sync::Arc;

use mqtt_broker::exclusive::{
    build_group_name, build_pub_message, build_pub_qos, build_sub_ids, get_retain_flag_by_retain_as_published,
    is_message_expire, is_send_msg_by_bo_local, min_qos, next_push_step, plan_record_push, push_start_step, RecordAction, publish_flow, pushed_offset,
    threads_to_gc, threads_to_start, ExclusivePush, MqttMessage, PublishFlow, PushThreadAction,
    PushThreadEvent, Subscriber, PUSH_RETRY_PAUSE_MILLIS,
};
use mqtt_broker::protocol::QoS;

fn subscriber() -> Subscriber {
    Subscriber {
        client_id: "c1".to_string(),
        sub_path: "/a/#".to_string(),
        topic_id: "t9".to_string(),
        topic_name: "/a/b".to_string(),
        qos: QoS::AtLeastOnce,
        nolocal: false,
        preserve_retain: true,
        subscription_identifier: Some(7),
    }
}

fn message(client_id: &str, expiry: u64) -> MqttMessage {
    MqttMessage {
        client_id: client_id.to_string(),
        retain: true,
        payload: vec![1, 2, 3],
        format_indicator: Some(1),
        expiry_interval: expiry,
        response_topic: Some("/r".to_string()),
        correlation_data: Some(vec![9]),
        user_properties: vec![("k".to_string(), "v".to_string())],
        content_type: Some("text/plain".to_string()),
    }
}

#[test]
fn group_name() {
    assert_eq!(build_group_name(&subscriber()), "system_sub_c1_/a/#_t9");
}

#[test]
fn sub_ids() {
    assert_eq!(build_sub_ids(&subscriber()), vec![7]);
    let s = Subscriber { subscription_identifier: None, ..subscriber() };
    assert!(build_sub_ids(&s).is_empty());
}

#[test]
fn pub_qos_is_the_lower() {
    assert_eq!(min_qos(QoS::ExactlyOnce, QoS::AtMostOnce), QoS::AtMostOnce);
    assert_eq!(min_qos(QoS::AtLeastOnce, QoS::ExactlyOnce), QoS::AtLeastOnce);
    assert_eq!(build_pub_qos(QoS::ExactlyOnce, &subscriber()), QoS::AtLeastOnce);
    assert_eq!(build_pub_qos(QoS::AtMostOnce, &subscriber()), QoS::AtMostOnce);
}

#[test]
fn message_filters() {
    assert!(is_message_expire(&message("x", 10), 11));
    assert!(!is_message_expire(&message("x", 10), 10));
    assert!(!is_send_msg_by_bo_local(true, &"c1".to_string(), &"c1".to_string()));
    assert!(is_send_msg_by_bo_local(true, &"c1".to_string(), &"c2".to_string()));
    assert!(is_send_msg_by_bo_local(false, &"c1".to_string(), &"c1".to_string()));
    assert!(get_retain_flag_by_retain_as_published(true, true));
    assert!(!get_retain_flag_by_retain_as_published(false, true));
    assert!(!get_retain_flag_by_retain_as_published(true, false));
}

#[test]
fn pub_message_built() {
    let sub = subscriber();
    let ids = build_sub_ids(&sub);
    let group = build_group_name(&sub);
    let p = build_pub_message(message("other", 100), 55, &group, QoS::AtLeastOnce, &sub, &ids, 12, 50).unwrap();
    assert_eq!(p.pkid, 12);
    assert_eq!(p.publish.pkid, 12);
    assert!(!p.publish.dup);
    assert!(p.publish.retain);
    assert_eq!(p.publish.qos, QoS::AtLeastOnce);
    assert_eq!(p.publish.topic, "/a/b");
    assert_eq!(p.publish.payload, vec![1, 2, 3]);
    assert_eq!(p.create_time, 55);
    assert_eq!(p.group_id, "system_sub_c1_/a/#_t9");
    assert_eq!(p.subscribe.client_id, "c1");
    let props = p.properties.unwrap();
    assert_eq!(props.payload_format_indicator, Some(1));
    assert_eq!(props.message_expiry_interval, Some(100));
    assert_eq!(props.topic_alias, None);
    assert_eq!(props.response_topic, Some("/r".to_string()));
    assert_eq!(props.correlation_data, Some(vec![9]));
    assert_eq!(props.user_properties, vec![("k".to_string(), "v".to_string())]);
    assert_eq!(props.subscription_identifiers, vec![7]);
    assert_eq!(props.content_type, Some("text/plain".to_string()));
}

#[test]
fn pub_message_expiry_truncated_to_u32() {
    let sub = subscriber();
    let p = build_pub_message(message("other", (1u64 << 32) + 5), 1, &"g".to_string(), QoS::AtMostOnce, &sub, &vec![], 1, 0).unwrap();
    assert_eq!(p.properties.unwrap().message_expiry_interval, Some(5));
}

#[test]
fn pub_message_not_retained_without_retain_as_published() {
    let sub = Subscriber { preserve_retain: false, ..subscriber() };
    let p = build_pub_message(message("other", 100), 1, &"g".to_string(), QoS::AtMostOnce, &sub, &vec![], 1, 0).unwrap();
    assert!(!p.publish.retain);
}

#[test]
fn pub_message_dropped() {
    let sub = subscriber();
    assert!(build_pub_message(message("other", 10), 1, &"g".to_string(), QoS::AtMostOnce, &sub, &vec![], 1, 11).is_none());
    let local = Subscriber { nolocal: true, ..subscriber() };
    assert!(build_pub_message(message("c1", 100), 1, &"g".to_string(), QoS::AtMostOnce, &local, &vec![], 1, 0).is_none());
    assert!(build_pub_message(message("c1", 100), 1, &"g".to_string(), QoS::AtMostOnce, &sub, &vec![], 1, 0).is_some());
}

fn keys(v: &[&str]) -> Vec<String> {
    v.iter().map(|s| s.to_string()).collect()
}

#[test]
fn thread_bookkeeping() {
    let subs = keys(&["a", "b", "c"]);
    let running = keys(&["b", "d"]);
    assert_eq!(threads_to_start(&subs, &running), keys(&["a", "c"]));
    assert_eq!(threads_to_gc(&running, &subs), keys(&["d"]));
    assert!(threads_to_start(&subs, &subs).is_empty());
    assert!(threads_to_gc(&subs, &subs).is_empty());
    assert_eq!(threads_to_gc(&running, &vec![]), running);
}

#[test]
fn push_steps() {
    assert_eq!(next_push_step(3, PushThreadEvent::StopSignal(true)), PushThreadAction::Exit);
    assert_eq!(next_push_step(3, PushThreadEvent::StopSignal(false)), PushThreadAction::Continue { offset: 3, pause_millis: 0 });
    assert_eq!(next_push_step(3, PushThreadEvent::StopChannelError), PushThreadAction::Continue { offset: 3, pause_millis: 0 });
    assert_eq!(next_push_step(3, PushThreadEvent::Pushed(Some(7))), PushThreadAction::Continue { offset: 8, pause_millis: 0 });
    assert_eq!(next_push_step(3, PushThreadEvent::Pushed(None)), PushThreadAction::Continue { offset: 3, pause_millis: PUSH_RETRY_PAUSE_MILLIS });
    assert_eq!(next_push_step(3, PushThreadEvent::PushFailed), PushThreadAction::Continue { offset: 3, pause_millis: 100 });
}

#[test]
fn pushed_offsets_and_flows() {
    assert_eq!(pushed_offset(&vec![]), None);
    assert_eq!(pushed_offset(&vec![4, 5, 6]), Some(6));
    assert_eq!(publish_flow(QoS::AtMostOnce), PublishFlow::FireAndForget);
    assert_eq!(publish_flow(QoS::AtLeastOnce), PublishFlow::AwaitPubAck);
    assert_eq!(publish_flow(QoS::ExactlyOnce), PublishFlow::AwaitPubComp);
}

#[test]
fn exclusive_push_new() {
    let storage = Arc::new(1u8);
    let cache = Arc::new("cache");
    let push = ExclusivePush::new(storage.clone(), cache.clone(), Arc::new(2u32), Arc::new(3u64));
    assert!(Arc::ptr_eq(push.message_storage(), &storage));
    assert!(Arc::ptr_eq(push.cache_manager(), &cache));
    assert_eq!(**push.subscribe_manager(), 2u32);
    assert_eq!(**push.connection_manager(), 3u64);
}

#[test]
fn push_start() {
    assert_eq!(push_start_step(Some(12)), PushThreadAction::Continue { offset: 12, pause_millis: 0 });
    assert_eq!(push_start_step(None), PushThreadAction::Exit);
}

#[test]
fn record_push_plans() {
    let sub = subscriber();
    assert_eq!(
        plan_record_push(&message("other", 100), &sub, QoS::AtMostOnce, 0),
        vec![RecordAction::BuildPublish, RecordAction::Publish(PublishFlow::FireAndForget), RecordAction::CommitOffset]
    );
    assert_eq!(
        plan_record_push(&message("other", 100), &sub, QoS::AtLeastOnce, 0),
        vec![
            RecordAction::BuildPublish,
            RecordAction::RegisterAck,
            RecordAction::Publish(PublishFlow::AwaitPubAck),
            RecordAction::ReleaseAck,
            RecordAction::CommitOffset
        ]
    );
    assert_eq!(
        plan_record_push(&message("other", 100), &sub, QoS::ExactlyOnce, 0)[2],
        RecordAction::Publish(PublishFlow::AwaitPubComp)
    );
    assert!(plan_record_push(&message("other", 10), &sub, QoS::ExactlyOnce, 11).is_empty());
    let local = Subscriber { nolocal: true, ..subscriber() };
    assert!(plan_record_push(&message("c1", 100), &local, QoS::AtMostOnce, 0).is_empty());
}
