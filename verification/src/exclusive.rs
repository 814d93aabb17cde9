//! Exclusive subscriptions: messages of a topic are pushed straight to the
//! one subscribing client, by one push task per subscription.

use std::sync::Arc;
use vstd::prelude::*;

use crate::protocol::{qos_level, QoS};

verus! {

/// What the push of an exclusive subscription reads of its subscriber.
#[derive(Debug)]
pub struct Subscriber {
    pub client_id: String,
    pub sub_path: String,
    pub topic_id: String,
    pub topic_name: String,
    pub qos: QoS,
    pub nolocal: bool,
    pub preserve_retain: bool,
    pub subscription_identifier: Option<usize>,
}

impl Clone for Subscriber {
    fn clone(&self) -> (copy: Self)
        ensures
            copy == *self,
    {
        Subscriber {
            client_id: self.client_id.clone(),
            sub_path: self.sub_path.clone(),
            topic_id: self.topic_id.clone(),
            topic_name: self.topic_name.clone(),
            qos: self.qos,
            nolocal: self.nolocal,
            preserve_retain: self.preserve_retain,
            subscription_identifier: self.subscription_identifier,
        }
    }
}

/// The consumer group under which a subscriber's push commits its offsets.
pub open spec fn group_name_of(client_id: Seq<char>, sub_path: Seq<char>, topic_id: Seq<char>) -> Seq<char> {
    "system_sub_"@ + client_id + "_"@ + sub_path + "_"@ + topic_id
}

/// The group name is `system_sub_` followed by the client id, the
/// subscription path and the topic id, each after the one before and an
/// underscore.
pub proof fn law_group_name_layout(client_id: Seq<char>, sub_path: Seq<char>, topic_id: Seq<char>)
    ensures
        group_name_of(client_id, sub_path, topic_id).len() as int == 13 + (client_id.len() as int) + (sub_path.len() as int) + (topic_id.len() as int),
        group_name_of(client_id, sub_path, topic_id).subrange(0, 11) == "system_sub_"@,
        group_name_of(client_id, sub_path, topic_id).subrange(11, 11 + (client_id.len() as int)) == client_id,
        group_name_of(client_id, sub_path, topic_id)[11 + (client_id.len() as int)] == '_',
        group_name_of(client_id, sub_path, topic_id).subrange(12 + (client_id.len() as int), 12 + (client_id.len() as int) + (sub_path.len() as int))
            == sub_path,
        group_name_of(client_id, sub_path, topic_id)[12 + (client_id.len() as int) + (sub_path.len() as int)] == '_',
        group_name_of(client_id, sub_path, topic_id).subrange(
            13 + (client_id.len() as int) + (sub_path.len() as int),
            13 + (client_id.len() as int) + (sub_path.len() as int) + (topic_id.len() as int),
        ) == topic_id,
{
    reveal_strlit("system_sub_");
    reveal_strlit("_");
    let n = group_name_of(client_id, sub_path, topic_id);
    let a = 11 + (client_id.len() as int);
    let b = 12 + (client_id.len() as int) + (sub_path.len() as int);
    assert(n.subrange(0, 11) =~= "system_sub_"@);
    assert(n.subrange(11, a) =~= client_id);
    assert(n.subrange(a + 1, b) =~= sub_path);
    assert(n.subrange(b + 1, b + 1 + (topic_id.len() as int)) =~= topic_id);
}

/// The consumer group name of a subscriber:
/// `system_sub_{client_id}_{sub_path}_{topic_id}`.
pub fn build_group_name(subscriber: &Subscriber) -> (name: String)
    ensures
        name@ == group_name_of(subscriber.client_id@, subscriber.sub_path@, subscriber.topic_id@),
{
    let mut name = "system_sub_".to_owned();
    name.append(subscriber.client_id.as_str());
    name.append("_");
    name.append(subscriber.sub_path.as_str());
    name.append("_");
    name.append(subscriber.topic_id.as_str());
    name
}

/// The subscription identifiers sent with a pushed message: the
/// subscriber's identifier, where it has one.
pub fn build_sub_ids(subscriber: &Subscriber) -> (ids: Vec<usize>)
    ensures
        ids@ == match subscriber.subscription_identifier {
            Some(id) => seq![id],
            None => Seq::<usize>::empty(),
        },
{
    let mut sub_ids: Vec<usize> = Vec::new();
    if let Some(id) = subscriber.subscription_identifier {
        sub_ids.push(id);
    }
    sub_ids
}

/// The lower of two qualities of service.
pub open spec fn lower_qos(a: QoS, b: QoS) -> QoS {
    if qos_level(a) <= qos_level(b) {
        a
    } else {
        b
    }
}

/// The quality of service of a push is one of the two it is chosen from and
/// exceeds neither.
pub proof fn law_lower_qos_exceeds_neither(a: QoS, b: QoS)
    ensures
        lower_qos(a, b) == a || lower_qos(a, b) == b,
        qos_level(lower_qos(a, b)) <= qos_level(a),
        qos_level(lower_qos(a, b)) <= qos_level(b),
        lower_qos(a, b) == lower_qos(b, a),
{
}

/// The lower of two qualities of service.
pub fn min_qos(qos: QoS, sub_qos: QoS) -> (lower: QoS)
    ensures
        lower == lower_qos(qos, sub_qos),
{
    if qos.level() <= sub_qos.level() {
        qos
    } else {
        sub_qos
    }
}

/// The quality of service of pushes to a subscriber: the lower of the
/// cluster's highest allowed level and the subscriber's.
pub fn build_pub_qos(cluster_max_qos: QoS, subscriber: &Subscriber) -> (qos: QoS)
    ensures
        qos == lower_qos(cluster_max_qos, subscriber.qos),
{
    min_qos(cluster_max_qos, subscriber.qos)
}

/// A stored message, as the push reads it.
#[derive(Debug)]
pub struct MqttMessage {
    pub client_id: String,
    pub retain: bool,
    pub payload: Vec<u8>,
    pub format_indicator: Option<u8>,
    /// The time, in seconds, until which the message may be delivered.
    pub expiry_interval: u64,
    pub response_topic: Option<String>,
    pub correlation_data: Option<Vec<u8>>,
    pub user_properties: Vec<(String, String)>,
    pub content_type: Option<String>,
}

/// A PUBLISH packet to send.
#[derive(Debug)]
pub struct Publish {
    pub dup: bool,
    pub qos: QoS,
    pub pkid: u16,
    pub retain: bool,
    pub topic: String,
    pub payload: Vec<u8>,
}

/// The properties of a PUBLISH packet to send.
#[derive(Debug)]
pub struct PublishProperties {
    pub payload_format_indicator: Option<u8>,
    pub message_expiry_interval: Option<u32>,
    pub topic_alias: Option<u16>,
    pub response_topic: Option<String>,
    pub correlation_data: Option<Vec<u8>>,
    pub user_properties: Vec<(String, String)>,
    pub subscription_identifiers: Vec<usize>,
    pub content_type: Option<String>,
}

/// Everything needed to push one message to a subscriber.
#[derive(Debug)]
pub struct SubPublishParam {
    pub subscribe: Subscriber,
    pub publish: Publish,
    pub properties: Option<PublishProperties>,
    pub create_time: u128,
    pub group_id: String,
    pub pkid: u16,
}

/// A message has expired once its expiry time lies before `now`.
pub open spec fn message_expired(expiry_interval: u64, now: u64) -> bool {
    expiry_interval < now
}

/// A message may be delivered up to and including its expiry time, and once
/// expired it stays expired.
pub proof fn law_expiry_is_final(expiry_interval: u64, now: u64, later: u64)
    ensures
        !message_expired(expiry_interval, expiry_interval),
        now <= expiry_interval ==> !message_expired(expiry_interval, now),
        message_expired(expiry_interval, now) && now <= later ==> message_expired(expiry_interval, later),
        now > expiry_interval ==> message_expired(expiry_interval, now),
{
}

/// Whether a message has expired at time `now` (in seconds).
pub fn is_message_expire(message: &MqttMessage, now: u64) -> (expired: bool)
    ensures
        expired == message_expired(message.expiry_interval, now),
{
    message.expiry_interval < now
}

/// Whether a message may go to a subscriber under the no-local option: not
/// where the subscriber asked for no-local and sent the message itself.
pub fn is_send_msg_by_bo_local(nolocal: bool, client_id: &String, msg_client_id: &String) -> (send: bool)
    ensures
        send == !(nolocal && client_id@ == msg_client_id@),
{
    !(nolocal && *client_id == *msg_client_id)
}

/// The retain flag of a pushed message: the stored flag where the
/// subscriber asked for retain-as-published, unset otherwise.
pub fn get_retain_flag_by_retain_as_published(preserve_retain: bool, retain: bool) -> (flag: bool)
    ensures
        flag == (preserve_retain && retain),
{
    if preserve_retain {
        retain
    } else {
        false
    }
}

/// A message is pushed to a subscriber at time `now` where it has not
/// expired and the no-local option does not hold it back.
pub open spec fn is_pushed(message: MqttMessage, subscriber: Subscriber, now: u64) -> bool {
    &&& !message_expired(message.expiry_interval, now)
    &&& !(subscriber.nolocal && subscriber.client_id@ == message.client_id@)
}

/// Which messages go to a subscriber: none that expired, none the
/// subscriber sent itself when it asked for no-local; every other one does.
pub proof fn law_which_messages_are_pushed(message: MqttMessage, subscriber: Subscriber, now: u64)
    ensures
        message.expiry_interval < now ==> !is_pushed(message, subscriber, now),
        subscriber.nolocal && subscriber.client_id@ == message.client_id@ ==> !is_pushed(message, subscriber, now),
        (now <= message.expiry_interval && !subscriber.nolocal) ==> is_pushed(message, subscriber, now),
        (now <= message.expiry_interval && subscriber.client_id@ != message.client_id@) ==> is_pushed(
            message,
            subscriber,
            now,
        ),
{
}

/// `param` pushes `message`, stored at `record_timestamp`, to `subscriber`
/// in group `group_id` with quality of service `qos`, identifiers
/// `sub_ids` and packet id `pkid`.
pub open spec fn pushes_message(
    param: SubPublishParam,
    message: MqttMessage,
    record_timestamp: u64,
    group_id: Seq<char>,
    qos: QoS,
    subscriber: Subscriber,
    sub_ids: Seq<usize>,
    pkid: u16,
) -> bool {
    &&& param.subscribe == subscriber
    &&& param.publish.dup == false
    &&& param.publish.qos == qos
    &&& param.publish.pkid == pkid
    &&& param.publish.retain == (subscriber.preserve_retain && message.retain)
    &&& param.publish.topic@ == subscriber.topic_name@
    &&& param.publish.payload == message.payload
    &&& param.properties matches Some(props) && {
        &&& props.payload_format_indicator == message.format_indicator
        &&& props.message_expiry_interval == Some(message.expiry_interval as u32)
        &&& props.topic_alias is None
        &&& props.response_topic == message.response_topic
        &&& props.correlation_data == message.correlation_data
        &&& props.user_properties == message.user_properties
        &&& props.subscription_identifiers@ == sub_ids
        &&& props.content_type == message.content_type
    }
    &&& param.create_time == record_timestamp as u128
    &&& param.group_id@ == group_id
    &&& param.pkid == pkid
}

/// The PUBLISH pushed for a message goes to the subscriber's topic, is
/// never a duplicate, carries the packet id of the push and the message's
/// payload unchanged, and is retained only where both the message is
/// retained and the subscriber asked for retain-as-published.
pub proof fn law_pushed_publish(
    param: SubPublishParam,
    message: MqttMessage,
    record_timestamp: u64,
    group_id: Seq<char>,
    qos: QoS,
    subscriber: Subscriber,
    sub_ids: Seq<usize>,
    pkid: u16,
)
    requires
        pushes_message(param, message, record_timestamp, group_id, qos, subscriber, sub_ids, pkid),
    ensures
        param.publish.topic@ == subscriber.topic_name@,
        !param.publish.dup,
        param.publish.pkid == param.pkid && param.pkid == pkid,
        param.publish.qos == qos,
        param.publish.payload == message.payload,
        param.publish.retain ==> message.retain,
        param.publish.retain ==> subscriber.preserve_retain,
        message.retain && subscriber.preserve_retain ==> param.publish.retain,
        param.group_id@ == group_id,
        param.create_time == record_timestamp,
        param.properties is Some,
        param.properties.unwrap().subscription_identifiers@ == sub_ids,
        param.properties.unwrap().topic_alias is None,
        param.properties.unwrap().message_expiry_interval == Some((message.expiry_interval % 0x1_0000_0000) as u32),
{
    let e = message.expiry_interval;
    assert(e as u32 == (e % 0x1_0000_0000) as u32) by (bit_vector);
}

fn copy_ids(ids: &Vec<usize>) -> (copy: Vec<usize>)
    ensures
        copy@ == ids@,
{
    let mut copy: Vec<usize> = Vec::new();
    let mut i: usize = 0;
    while i < ids.len()
        invariant
            i <= ids.len(),
            copy@ == ids@.subrange(0, i as int),
        decreases ids.len() - i,
    {
        copy.push(ids[i]);
        i = i + 1;
        assert(copy@ =~= ids@.subrange(0, i as int));
    }
    assert(ids@.subrange(0, ids.len() as int) =~= ids@);
    copy
}

/// What to push for one stored message at time `now` (in seconds): nothing
/// where the message has expired or the no-local option holds it back;
/// otherwise a PUBLISH with quality of service `qos` and packet id `pkid`
/// on the subscriber's topic, carrying the message's payload and
/// properties.
pub fn build_pub_message(
    message: MqttMessage,
    record_timestamp: u64,
    group_id: &String,
    qos: QoS,
    subscriber: &Subscriber,
    sub_ids: &Vec<usize>,
    pkid: u16,
    now: u64,
) -> (param: Option<SubPublishParam>)
    ensures
        match param {
            None => !is_pushed(message, *subscriber, now),
            Some(p) => is_pushed(message, *subscriber, now) && pushes_message(
                p,
                message,
                record_timestamp,
                group_id@,
                qos,
                *subscriber,
                sub_ids@,
                pkid,
            ),
        },
{
    let msg = message;
    if is_message_expire(&msg, now) {
        return None;
    }
    if !is_send_msg_by_bo_local(subscriber.nolocal, &subscriber.client_id, &msg.client_id) {
        return None;
    }
    let retain = get_retain_flag_by_retain_as_published(subscriber.preserve_retain, msg.retain);
    let publish = Publish {
        dup: false,
        qos,
        pkid,
        retain,
        topic: subscriber.topic_name.clone(),
        payload: msg.payload,
    };
    let properties = PublishProperties {
        payload_format_indicator: msg.format_indicator,
        message_expiry_interval: Some(msg.expiry_interval as u32),
        topic_alias: None,
        response_topic: msg.response_topic,
        correlation_data: msg.correlation_data,
        user_properties: msg.user_properties,
        subscription_identifiers: copy_ids(sub_ids),
        content_type: msg.content_type,
    };
    Some(SubPublishParam {
        subscribe: subscriber.clone(),
        publish,
        properties: Some(properties),
        create_time: record_timestamp as u128,
        group_id: group_id.clone(),
        pkid,
    })
}

/// The text of each key.
pub open spec fn key_texts(keys: Seq<String>) -> Seq<Seq<char>> {
    keys.map_values(|k: String| k@)
}

/// The keys of `keys`, in order, that `present` does not hold.
pub open spec fn keys_missing_from(keys: Seq<Seq<char>>, present: Seq<Seq<char>>) -> Seq<Seq<char>>
    decreases keys.len(),
{
    if keys.len() == 0 {
        Seq::empty()
    } else {
        let rest = keys_missing_from(keys.drop_last(), present);
        if present.contains(keys.last()) {
            rest
        } else {
            rest.push(keys.last())
        }
    }
}

/// A key is among those missing exactly where `keys` holds it and
/// `present` does not.
pub proof fn lemma_keys_missing_from(keys: Seq<Seq<char>>, present: Seq<Seq<char>>, key: Seq<char>)
    ensures
        keys_missing_from(keys, present).contains(key) <==> (keys.contains(key) && !present.contains(key)),
    decreases keys.len(),
{
    if keys.len() > 0 {
        lemma_keys_missing_from(keys.drop_last(), present, key);
        assert(keys =~= keys.drop_last().push(keys.last()));
        if keys.contains(key) && key != keys.last() {
            let i = choose|i: int| 0 <= i < keys.len() && keys[i] == key;
            assert(keys.drop_last()[i] == key);
        }
        if keys.drop_last().contains(key) {
            let i = choose|i: int| 0 <= i < keys.drop_last().len() && keys.drop_last()[i] == key;
            assert(keys[i] == key);
        }
        let rest = keys_missing_from(keys.drop_last(), present);
        if !present.contains(keys.last()) {
            if rest.push(keys.last()).contains(key) && key != keys.last() {
                let i = choose|i: int| 0 <= i < rest.push(keys.last()).len() && rest.push(keys.last())[i] == key;
                assert(rest[i] == key);
            }
            if rest.contains(key) {
                let i = choose|i: int| 0 <= i < rest.len() && rest[i] == key;
                assert(rest.push(keys.last())[i] == key);
            }
            assert(rest.push(keys.last())[rest.len() as int] == keys.last());
        }
    }
}

fn holds_key(keys: &Vec<String>, key: &String) -> (found: bool)
    ensures
        found == key_texts(keys@).contains(key@),
{
    let mut i: usize = 0;
    while i < keys.len()
        invariant
            i <= keys.len(),
            forall|j: int| 0 <= j < i ==> keys@[j]@ != key@,
        decreases keys.len() - i,
    {
        if keys[i] == *key {
            assert(key_texts(keys@)[i as int] == key@);
            return true;
        }
        i = i + 1;
    }
    assert forall|j: int| 0 <= j < key_texts(keys@).len() implies key_texts(keys@)[j] != key@ by {
        assert(key_texts(keys@)[j] == keys@[j]@);
    }
    false
}

fn keys_missing(keys: &Vec<String>, present: &Vec<String>) -> (missing: Vec<String>)
    ensures
        key_texts(missing@) == keys_missing_from(key_texts(keys@), key_texts(present@)),
{
    let mut missing: Vec<String> = Vec::new();
    let mut i: usize = 0;
    while i < keys.len()
        invariant
            i <= keys.len(),
            key_texts(missing@) == keys_missing_from(key_texts(keys@).take(i as int), key_texts(present@)),
        decreases keys.len() - i,
    {
        let ghost before = missing@;
        let ghost taken = key_texts(keys@).take(i as int + 1);
        assert(taken.drop_last() =~= key_texts(keys@).take(i as int));
        assert(taken.last() == keys@[i as int]@);
        if !holds_key(present, &keys[i]) {
            missing.push(keys[i].clone());
            assert(key_texts(missing@) =~= key_texts(before).push(keys@[i as int]@));
        }
        i = i + 1;
    }
    assert(key_texts(keys@).take(keys.len() as int) =~= key_texts(keys@));
    missing
}

/// The push tasks to stop: those running for a subscription key that no
/// exclusive subscription holds any more, in the order of `running`.
pub fn threads_to_gc(running: &Vec<String>, subscriptions: &Vec<String>) -> (stop: Vec<String>)
    ensures
        key_texts(stop@) == keys_missing_from(key_texts(running@), key_texts(subscriptions@)),
{
    keys_missing(running, subscriptions)
}

/// The push tasks to start: one for each exclusive subscription key that no
/// running task serves, in the order of `subscriptions`.
pub fn threads_to_start(subscriptions: &Vec<String>, running: &Vec<String>) -> (start: Vec<String>)
    ensures
        key_texts(start@) == keys_missing_from(key_texts(subscriptions@), key_texts(running@)),
{
    keys_missing(subscriptions, running)
}

/// After the tasks to start are started and the tasks to stop are stopped,
/// a push task runs for a key exactly where an exclusive subscription holds
/// that key.
pub proof fn law_push_tasks_follow_subscriptions(
    subscriptions: Seq<Seq<char>>,
    running: Seq<Seq<char>>,
    key: Seq<char>,
)
    ensures
        ((running.contains(key) || keys_missing_from(subscriptions, running).contains(key))
            && !keys_missing_from(running, subscriptions).contains(key)) <==> subscriptions.contains(key),
{
    lemma_keys_missing_from(subscriptions, running, key);
    lemma_keys_missing_from(running, subscriptions, key);
}

/// How often, in seconds, the push service starts tasks for new exclusive
/// subscriptions and stops those of subscriptions that are gone.
pub const PUSH_SCHEDULE_INTERVAL_SECS: u64 = 1;

/// How many stored messages one push round reads.
pub const PUSH_BATCH_SIZE: u64 = 5;

/// How long, in milliseconds, a push task pauses after a round that pushed
/// nothing or failed.
pub const PUSH_RETRY_PAUSE_MILLIS: u64 = 100;

/// What a running push task learns in one turn of its loop.
#[derive(Clone, Copy, Debug, PartialEq, Eq, Structural)]
pub enum PushThreadEvent {
    /// A value arrived on the task's stop channel.
    StopSignal(bool),
    /// Reading the stop channel failed.
    StopChannelError,
    /// A push round ended: the offset of the last message it handled, or
    /// none where there was nothing to read.
    Pushed(Option<u64>),
    /// A push round failed.
    PushFailed,
}

/// What a running push task does next.
#[derive(Clone, Copy, Debug, PartialEq, Eq, Structural)]
pub enum PushThreadAction {
    /// Stop: the task forgets its subscription key and ends.
    Exit,
    /// Go on reading from `offset`, after pausing `pause_millis` milliseconds.
    Continue { offset: u64, pause_millis: u64 },
}

/// The next action of a push task that reads from `offset`.
pub open spec fn push_step(offset: u64, event: PushThreadEvent) -> PushThreadAction {
    match event {
        PushThreadEvent::StopSignal(true) => PushThreadAction::Exit,
        PushThreadEvent::StopSignal(false) | PushThreadEvent::StopChannelError =>
            PushThreadAction::Continue { offset, pause_millis: 0 },
        PushThreadEvent::Pushed(Some(last)) => PushThreadAction::Continue { offset: (last + 1) as u64, pause_millis: 0 },
        PushThreadEvent::Pushed(None) | PushThreadEvent::PushFailed =>
            PushThreadAction::Continue { offset, pause_millis: PUSH_RETRY_PAUSE_MILLIS },
    }
}

/// One turn of a push task: a stop signal that is set ends the task; after
/// a round that handled messages up to offset `last` the task reads from
/// `last + 1`; after a round that read nothing or failed it pauses and reads
/// from the same offset again; anything else leaves it as it was.
pub fn next_push_step(offset: u64, event: PushThreadEvent) -> (action: PushThreadAction)
    requires
        event matches PushThreadEvent::Pushed(Some(last)) ==> last < u64::MAX,
    ensures
        action == push_step(offset, event),
{
    match event {
        PushThreadEvent::StopSignal(flag) => {
            if flag {
                PushThreadAction::Exit
            } else {
                PushThreadAction::Continue { offset, pause_millis: 0 }
            }
        },
        PushThreadEvent::StopChannelError => PushThreadAction::Continue { offset, pause_millis: 0 },
        PushThreadEvent::Pushed(Some(last)) => PushThreadAction::Continue { offset: last + 1, pause_millis: 0 },
        PushThreadEvent::Pushed(None) => PushThreadAction::Continue { offset, pause_millis: PUSH_RETRY_PAUSE_MILLIS },
        PushThreadEvent::PushFailed => PushThreadAction::Continue { offset, pause_millis: PUSH_RETRY_PAUSE_MILLIS },
    }
}

/// How a push task starts, given the result of reading its consumer group's
/// committed offset: from that offset, or, where the read failed, not at
/// all (the task forgets its subscription key and ends).
pub open spec fn push_start(group_offset: Option<u64>) -> PushThreadAction {
    match group_offset {
        Some(offset) => PushThreadAction::Continue { offset, pause_millis: 0 },
        None => PushThreadAction::Exit,
    }
}

/// How a push task starts, given the result of reading its consumer group's
/// committed offset (none where the read failed).
pub fn push_start_step(group_offset: Option<u64>) -> (action: PushThreadAction)
    ensures
        action == push_start(group_offset),
{
    match group_offset {
        Some(offset) => PushThreadAction::Continue { offset, pause_millis: 0 },
        None => PushThreadAction::Exit,
    }
}

/// A push task whose committed offset was read starts from exactly that
/// offset, without pausing; it ends at once only where the read failed.
pub proof fn law_push_starts_at_committed_offset(group_offset: Option<u64>)
    ensures
        (push_start(group_offset) is Exit) <==> (group_offset is None),
        (group_offset matches Some(o) ==> (push_start(group_offset) matches PushThreadAction::Continue {
            offset,
            pause_millis,
        } && offset == o && pause_millis == 0)),
{
}

/// A push task keeps going until told to stop: it ends only on a set stop
/// signal; it reads on from the offset after the last message handled, and
/// otherwise from where it was; it pauses only after a round that read
/// nothing or failed.
pub proof fn law_push_step_advances_or_waits(offset: u64, event: PushThreadEvent)
    requires
        event matches PushThreadEvent::Pushed(Some(last)) ==> last < u64::MAX,
    ensures
        (push_step(offset, event) is Exit) <==> (event == PushThreadEvent::StopSignal(true)),
        (event matches PushThreadEvent::Pushed(Some(last)) ==> push_step(offset, event)
            == (PushThreadAction::Continue { offset: (last + 1) as u64, pause_millis: 0 })),
        (event == PushThreadEvent::Pushed(None) || event == PushThreadEvent::PushFailed) ==> push_step(offset, event)
            == (PushThreadAction::Continue { offset, pause_millis: PUSH_RETRY_PAUSE_MILLIS }),
        (event == PushThreadEvent::StopSignal(false) || event == PushThreadEvent::StopChannelError) ==> push_step(offset, event)
            == (PushThreadAction::Continue { offset, pause_millis: 0 }),
        PUSH_RETRY_PAUSE_MILLIS > 0,
{
}

/// After a round that handled messages, a push task never reads a handled
/// message again: it goes on past the last offset of the round.
pub proof fn law_push_moves_past_handled(offset: u64, last: u64)
    requires
        last < u64::MAX,
    ensures
        push_step(offset, PushThreadEvent::Pushed(Some(last))) matches PushThreadAction::Continue { offset: next, .. }
            && next > last,
{
}

/// What a push round reports for the messages it read, given their offsets
/// in order: none where it read nothing, the offset of the last otherwise.
pub fn pushed_offset(record_offsets: &Vec<u64>) -> (last: Option<u64>)
    ensures
        record_offsets@.len() == 0 ==> last is None,
        record_offsets@.len() > 0 ==> last == Some(record_offsets@.last()),
{
    if record_offsets.len() == 0 {
        None
    } else {
        Some(record_offsets[record_offsets.len() - 1])
    }
}

/// How one message is delivered at a quality of service.
#[derive(Clone, Copy, Debug, PartialEq, Eq, Structural)]
pub enum PublishFlow {
    /// Send the PUBLISH and go on.
    FireAndForget,
    /// Register the packet id, send, wait for PUBACK, then release the id.
    AwaitPubAck,
    /// Register the packet id, send, wait for PUBREC and PUBCOMP, then
    /// release the id.
    AwaitPubComp,
}

/// The delivery flow of each quality of service.
pub open spec fn flow_of(qos: QoS) -> PublishFlow {
    match qos {
        QoS::AtMostOnce => PublishFlow::FireAndForget,
        QoS::AtLeastOnce => PublishFlow::AwaitPubAck,
        QoS::ExactlyOnce => PublishFlow::AwaitPubComp,
    }
}

/// The delivery flow of a quality of service.
pub fn publish_flow(qos: QoS) -> (flow: PublishFlow)
    ensures
        flow == flow_of(qos),
{
    match qos {
        QoS::AtMostOnce => PublishFlow::FireAndForget,
        QoS::AtLeastOnce => PublishFlow::AwaitPubAck,
        QoS::ExactlyOnce => PublishFlow::AwaitPubComp,
    }
}

/// One step of pushing a stored message.
#[derive(Clone, Copy, Debug, PartialEq, Eq, Structural)]
pub enum RecordAction {
    /// Take a packet id and build the PUBLISH (see `build_pub_message`).
    BuildPublish,
    /// Register the packet id as awaiting acknowledgement.
    RegisterAck,
    /// Send the PUBLISH along the given flow.
    Publish(PublishFlow),
    /// Release the packet id.
    ReleaseAck,
    /// Commit the message's offset for the consumer group.
    CommitOffset,
}

/// The steps of pushing one stored message at time `now` with quality of
/// service `qos`: none for a message that is not pushed (neither published
/// nor committed); otherwise build, publish and commit, with the packet id
/// registered before and released after a publish that awaits an
/// acknowledgement.
pub open spec fn record_actions(pushed: bool, qos: QoS) -> Seq<RecordAction> {
    if !pushed {
        Seq::empty()
    } else {
        match flow_of(qos) {
            PublishFlow::FireAndForget => seq![
                RecordAction::BuildPublish,
                RecordAction::Publish(PublishFlow::FireAndForget),
                RecordAction::CommitOffset,
            ],
            flow => seq![
                RecordAction::BuildPublish,
                RecordAction::RegisterAck,
                RecordAction::Publish(flow),
                RecordAction::ReleaseAck,
                RecordAction::CommitOffset,
            ],
        }
    }
}

/// The steps of pushing `message` to `subscriber` at time `now` with
/// quality of service `qos`. A round runs the steps of each message it read
/// in order and ends at the first step that fails.
pub fn plan_record_push(message: &MqttMessage, subscriber: &Subscriber, qos: QoS, now: u64) -> (actions: Vec<RecordAction>)
    ensures
        actions@ == record_actions(is_pushed(*message, *subscriber, now), qos),
{
    let mut actions: Vec<RecordAction> = Vec::new();
    if is_message_expire(message, now)
        || !is_send_msg_by_bo_local(subscriber.nolocal, &subscriber.client_id, &message.client_id) {
        assert(actions@ =~= record_actions(is_pushed(*message, *subscriber, now), qos));
        return actions;
    }
    let flow = publish_flow(qos);
    actions.push(RecordAction::BuildPublish);
    match flow {
        PublishFlow::FireAndForget => {
            actions.push(RecordAction::Publish(flow));
        },
        _ => {
            actions.push(RecordAction::RegisterAck);
            actions.push(RecordAction::Publish(flow));
            actions.push(RecordAction::ReleaseAck);
        },
    }
    actions.push(RecordAction::CommitOffset);
    assert(actions@ =~= record_actions(is_pushed(*message, *subscriber, now), qos));
    actions
}

/// A pushed message is published exactly once, along the flow of its
/// quality of service (no acknowledgement for at-most-once, PUBACK for
/// at-least-once, PUBREC/PUBCOMP for exactly-once), and its offset is
/// committed exactly once, as the last step; a message that is not pushed
/// gets no step at all.
pub proof fn law_message_published_once(pushed: bool, qos: QoS, i: int, j: int)
    ensures
        !pushed ==> record_actions(pushed, qos).len() == 0,
        pushed ==> exists|k: int| 0 <= k < record_actions(pushed, qos).len()
            && record_actions(pushed, qos)[k] is Publish,
        (0 <= i < record_actions(pushed, qos).len() && 0 <= j < record_actions(pushed, qos).len()
            && record_actions(pushed, qos)[i] is Publish && record_actions(pushed, qos)[j] is Publish) ==> i == j,
        (0 <= i < record_actions(pushed, qos).len() && record_actions(pushed, qos)[i] is Publish) ==>
            record_actions(pushed, qos)[i] == RecordAction::Publish(match qos {
                QoS::AtMostOnce => PublishFlow::FireAndForget,
                QoS::AtLeastOnce => PublishFlow::AwaitPubAck,
                QoS::ExactlyOnce => PublishFlow::AwaitPubComp,
            }),
        (0 <= i < record_actions(pushed, qos).len() && record_actions(pushed, qos)[i] == RecordAction::CommitOffset)
            ==> i == record_actions(pushed, qos).len() - 1,
        pushed ==> record_actions(pushed, qos).last() == RecordAction::CommitOffset,
        (0 <= i < record_actions(pushed, qos).len() && record_actions(pushed, qos)[i] == RecordAction::BuildPublish)
            ==> i == 0,
{
    let a = record_actions(pushed, qos);
    if pushed {
        if qos == QoS::AtMostOnce {
            assert(a.len() == 3);
            assert(a[1] is Publish);
        } else {
            assert(a.len() == 5);
            assert(a[2] is Publish);
        }
    }
}

/// A message's offset is committed exactly where the message is published,
/// and a packet id registered for an acknowledgement is always released
/// after the publish.
pub proof fn law_commit_follows_publish(pushed: bool, qos: QoS)
    ensures
        record_actions(pushed, qos).contains(RecordAction::CommitOffset) <==> pushed,
        pushed ==> record_actions(pushed, qos).last() == RecordAction::CommitOffset,
        pushed ==> record_actions(pushed, qos)[0] == RecordAction::BuildPublish,
        record_actions(pushed, qos).contains(RecordAction::RegisterAck) <==> (pushed && qos != QoS::AtMostOnce),
        record_actions(pushed, qos).contains(RecordAction::RegisterAck)
            ==> record_actions(pushed, qos)[1] == RecordAction::RegisterAck
                && record_actions(pushed, qos)[3] == RecordAction::ReleaseAck,
{
    let a = record_actions(pushed, qos);
    if pushed {
        if qos == QoS::AtMostOnce {
            assert(a[2] == RecordAction::CommitOffset);
            assert(!a.contains(RecordAction::RegisterAck)) by {
                if a.contains(RecordAction::RegisterAck) {
                    let i = choose|i: int| 0 <= i < a.len() && a[i] == RecordAction::RegisterAck;
                    assert(false);
                }
            }
        } else {
            assert(a[4] == RecordAction::CommitOffset);
            assert(a[1] == RecordAction::RegisterAck);
        }
    } else {
        assert(a.len() == 0);
    }
}

/// The exclusive-push service: the message store it reads from and the
/// cache, subscription and connection managers it works with.
pub struct ExclusivePush<S, C, M, N> {
    cache_manager: Arc<C>,
    subscribe_manager: Arc<M>,
    connection_manager: Arc<N>,
    message_storage: Arc<S>,
}

impl<S, C, M, N> ExclusivePush<S, C, M, N> {
    pub closed spec fn spec_message_storage(&self) -> Arc<S> {
        self.message_storage
    }

    pub closed spec fn spec_cache_manager(&self) -> Arc<C> {
        self.cache_manager
    }

    pub closed spec fn spec_subscribe_manager(&self) -> Arc<M> {
        self.subscribe_manager
    }

    pub closed spec fn spec_connection_manager(&self) -> Arc<N> {
        self.connection_manager
    }

    pub fn new(
        message_storage: Arc<S>,
        cache_manager: Arc<C>,
        subscribe_manager: Arc<M>,
        connection_manager: Arc<N>,
    ) -> (push: Self)
        ensures
            push.spec_message_storage() == message_storage,
            push.spec_cache_manager() == cache_manager,
            push.spec_subscribe_manager() == subscribe_manager,
            push.spec_connection_manager() == connection_manager,
    {
        ExclusivePush { message_storage, cache_manager, subscribe_manager, connection_manager }
    }

    pub fn message_storage(&self) -> (storage: &Arc<S>)
        ensures
            *storage == self.spec_message_storage(),
    {
        &self.message_storage
    }

    pub fn cache_manager(&self) -> (manager: &Arc<C>)
        ensures
            *manager == self.spec_cache_manager(),
    {
        &self.cache_manager
    }

    pub fn subscribe_manager(&self) -> (manager: &Arc<M>)
        ensures
            *manager == self.spec_subscribe_manager(),
    {
        &self.subscribe_manager
    }

    pub fn connection_manager(&self) -> (manager: &Arc<N>)
        ensures
            *manager == self.spec_connection_manager(),
    {
        &self.connection_manager
    }
}

} // verus!
