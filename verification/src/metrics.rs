//! Packet metrics: which gauges a received or sent packet moves, with which
//! label values and by how much.

use vstd::prelude::*;

use crate::protocol::{
    MQTTProtocol,
    network_type_text, qos_level, ConnectReturnCode, NetworkConnectionType, PacketKind, QoS,
};

verus! {

/// The packet gauges the broker keeps.
#[derive(Clone, Copy, Debug, PartialEq, Eq, Structural)]
pub enum PacketMetric {
    PacketsReceived,
    PacketsConnectReceived,
    PacketsPublishReceived,
    PacketsConnackReceived,
    PacketsPubackReceived,
    PacketsPubrecReceived,
    PacketsPubrelReceived,
    PacketsPubcompReceived,
    PacketsSubscribeReceived,
    PacketsUnsubscribeReceived,
    PacketsPingreqReceived,
    PacketsDisconnectReceived,
    PacketsAuthReceived,
    PacketsReceivedError,
    PacketsConnackAuthError,
    PacketsConnackError,
    PacketsSent,
    PacketsConnackSent,
    PacketsPublishSent,
    PacketsPubackSent,
    PacketsPubrecSent,
    PacketsPubrelSent,
    PacketsPubcompSent,
    PacketsSubackSent,
    PacketsUnsubackSent,
    PacketsPingrespSent,
    PacketsDisconnectSent,
    PacketsAuthSent,
    BytesReceived,
    BytesSent,
    RetainPacketsReceived,
    RetainPacketsSent,
}

/// A change to one gauge: the gauge, its label values, and what is added.
pub struct GaugeUpdate {
    pub metric: PacketMetric,
    pub labels: Vec<String>,
    pub delta: i64,
}

/// The text of each label value of an update.
pub open spec fn label_texts(labels: Seq<String>) -> Seq<Seq<char>> {
    labels.map_values(|s: String| s@)
}

/// `u` adds `delta` to `metric` under the label values `labels`.
pub open spec fn update_is(u: GaugeUpdate, metric: PacketMetric, labels: Seq<Seq<char>>, delta: i64) -> bool {
    &&& u.metric == metric
    &&& label_texts(u.labels@) == labels
    &&& u.delta == delta
}

/// The text of a quality of service level as a label value.
pub open spec fn qos_text(q: QoS) -> Seq<char> {
    match q {
        QoS::AtMostOnce => "0"@,
        QoS::AtLeastOnce => "1"@,
        QoS::ExactlyOnce => "2"@,
    }
}

/// The qos label of a sent packet: the level of a PUBLISH, `-1` for any other.
pub open spec fn sent_qos_text(packet: PacketKind) -> Seq<char> {
    match packet {
        PacketKind::Publish(q) => qos_text(q),
        _ => "-1"@,
    }
}

/// The packets a broker can receive from a client.
pub open spec fn is_receivable(packet: PacketKind) -> bool {
    match packet {
        PacketKind::SubAck | PacketKind::UnsubAck | PacketKind::PingResp => false,
        _ => true,
    }
}

/// The packets a broker can send to a client.
pub open spec fn is_sendable(packet: PacketKind) -> bool {
    match packet {
        PacketKind::Connect | PacketKind::Subscribe | PacketKind::Unsubscribe | PacketKind::PingReq => false,
        _ => true,
    }
}

/// What each sent-packet gauge counts: `metric` is the gauge of sent packets
/// of `packet`'s kind.
pub open spec fn counts_sent(metric: PacketMetric, packet: PacketKind) -> bool {
    match metric {
        PacketMetric::PacketsConnackSent => packet is ConnAck,
        PacketMetric::PacketsPublishSent => packet is Publish,
        PacketMetric::PacketsPubackSent => packet is PubAck,
        PacketMetric::PacketsPubrecSent => packet is PubRec,
        PacketMetric::PacketsPubrelSent => packet is PubRel,
        PacketMetric::PacketsPubcompSent => packet is PubComp,
        PacketMetric::PacketsSubackSent => packet is SubAck,
        PacketMetric::PacketsUnsubackSent => packet is UnsubAck,
        PacketMetric::PacketsPingrespSent => packet is PingResp,
        PacketMetric::PacketsDisconnectSent => packet is Disconnect,
        PacketMetric::PacketsAuthSent => packet is Auth,
        _ => false,
    }
}

/// What each received-packet gauge counts: `metric` is the gauge of received
/// packets of `packet`'s kind.
pub open spec fn counts_received(metric: PacketMetric, packet: PacketKind) -> bool {
    match metric {
        PacketMetric::PacketsConnectReceived => packet is Connect,
        PacketMetric::PacketsConnackReceived => packet is ConnAck,
        PacketMetric::PacketsPublishReceived => packet is Publish,
        PacketMetric::PacketsPubackReceived => packet is PubAck,
        PacketMetric::PacketsPubrecReceived => packet is PubRec,
        PacketMetric::PacketsPubrelReceived => packet is PubRel,
        PacketMetric::PacketsPubcompReceived => packet is PubComp,
        PacketMetric::PacketsSubscribeReceived => packet is Subscribe,
        PacketMetric::PacketsUnsubscribeReceived => packet is Unsubscribe,
        PacketMetric::PacketsPingreqReceived => packet is PingReq,
        PacketMetric::PacketsDisconnectReceived => packet is Disconnect,
        PacketMetric::PacketsAuthReceived => packet is Auth,
        _ => false,
    }
}

/// The gauge that counts received packets of one kind.
pub open spec fn received_kind_metric(packet: PacketKind) -> PacketMetric
    recommends
        is_receivable(packet),
{
    match packet {
        PacketKind::Connect => PacketMetric::PacketsConnectReceived,
        PacketKind::ConnAck(_) => PacketMetric::PacketsConnackReceived,
        PacketKind::Publish(_) => PacketMetric::PacketsPublishReceived,
        PacketKind::PubAck => PacketMetric::PacketsPubackReceived,
        PacketKind::PubRec => PacketMetric::PacketsPubrecReceived,
        PacketKind::PubRel => PacketMetric::PacketsPubrelReceived,
        PacketKind::PubComp => PacketMetric::PacketsPubcompReceived,
        PacketKind::PingReq => PacketMetric::PacketsPingreqReceived,
        PacketKind::Disconnect => PacketMetric::PacketsDisconnectReceived,
        PacketKind::Auth => PacketMetric::PacketsAuthReceived,
        PacketKind::Subscribe => PacketMetric::PacketsSubscribeReceived,
        _ => PacketMetric::PacketsUnsubscribeReceived,
    }
}

/// The gauge that counts sent packets of one kind.
pub open spec fn sent_kind_metric(packet: PacketKind) -> PacketMetric
    recommends
        is_sendable(packet),
{
    match packet {
        PacketKind::ConnAck(_) => PacketMetric::PacketsConnackSent,
        PacketKind::Publish(_) => PacketMetric::PacketsPublishSent,
        PacketKind::PubAck => PacketMetric::PacketsPubackSent,
        PacketKind::PubRec => PacketMetric::PacketsPubrecSent,
        PacketKind::PubRel => PacketMetric::PacketsPubrelSent,
        PacketKind::PubComp => PacketMetric::PacketsPubcompSent,
        PacketKind::SubAck => PacketMetric::PacketsSubackSent,
        PacketKind::UnsubAck => PacketMetric::PacketsUnsubackSent,
        PacketKind::PingResp => PacketMetric::PacketsPingrespSent,
        PacketKind::Disconnect => PacketMetric::PacketsDisconnectSent,
        _ => PacketMetric::PacketsAuthSent,
    }
}

fn one_label(metric: PacketMetric, label: String, delta: i64) -> (u: GaugeUpdate)
    ensures
        update_is(u, metric, seq![label@], delta),
{
    let mut labels: Vec<String> = Vec::new();
    labels.push(label);
    let u = GaugeUpdate { metric, labels, delta };
    assert(label_texts(u.labels@) =~= seq![label@]);
    u
}

fn two_labels(metric: PacketMetric, first: String, second: String, delta: i64) -> (u: GaugeUpdate)
    ensures
        update_is(u, metric, seq![first@, second@], delta),
{
    let mut labels: Vec<String> = Vec::new();
    labels.push(first);
    labels.push(second);
    let u = GaugeUpdate { metric, labels, delta };
    assert(label_texts(u.labels@) =~= seq![first@, second@]);
    u
}

fn qos_label(qos: QoS) -> (text: String)
    ensures
        text@ == qos_text(qos),
{
    match qos {
        QoS::AtMostOnce => "0".to_owned(),
        QoS::AtLeastOnce => "1".to_owned(),
        QoS::ExactlyOnce => "2".to_owned(),
    }
}

/// The updates for a packet that could not be parsed: the received-error
/// gauge of the connection type goes up by one.
pub fn record_received_error_metrics(network_type: NetworkConnectionType) -> (updates: Vec<GaugeUpdate>)
    ensures
        updates@.len() == 1,
        update_is(updates@[0], PacketMetric::PacketsReceivedError, seq![network_type_text(network_type)], 1),
{
    let mut updates: Vec<GaugeUpdate> = Vec::new();
    updates.push(one_label(PacketMetric::PacketsReceivedError, network_type.to_string(), 1));
    updates
}

/// What a received packet adds to the received-bytes gauge: its encoded size
/// where the connection's protocol is known, nothing otherwise.
pub open spec fn received_payload(protocol: Option<MQTTProtocol>, packet_size: usize) -> i64 {
    match protocol {
        Some(_) => packet_size as i64,
        None => 0,
    }
}

/// The updates for a packet received from a client over a connection of type
/// `network_type`, whose protocol is `protocol` and whose encoded size under
/// that protocol is `packet_size`: received bytes and received packets, then,
/// for a packet a client can send, the gauge of the packet's kind, all
/// labelled with the connection type. A packet only a broker sends moves the
/// first two gauges alone.
pub fn record_received_metrics(
    protocol: Option<MQTTProtocol>,
    packet: PacketKind,
    network_type: NetworkConnectionType,
    packet_size: usize,
) -> (updates: Vec<GaugeUpdate>)
    ensures
        updates@.len() == if is_receivable(packet) { 3int } else { 2int },
        update_is(updates@[0], PacketMetric::BytesReceived, seq![network_type_text(network_type)],
            received_payload(protocol, packet_size)),
        update_is(updates@[1], PacketMetric::PacketsReceived, seq![network_type_text(network_type)], 1),
        is_receivable(packet) ==> update_is(updates@[2], received_kind_metric(packet),
            seq![network_type_text(network_type)], 1),
        is_receivable(packet) ==> counts_received(updates@[2].metric, packet),
        protocol is Some ==> updates@[0].delta == packet_size as i64,
        protocol is None ==> updates@[0].delta == 0,
{
    let payload_size: i64 = match protocol {
        Some(_) => packet_size as i64,
        None => 0,
    };
    let mut updates: Vec<GaugeUpdate> = Vec::new();
    updates.push(one_label(PacketMetric::BytesReceived, network_type.to_string(), payload_size));
    updates.push(one_label(PacketMetric::PacketsReceived, network_type.to_string(), 1));
    let kind_metric = match packet {
        PacketKind::Connect => Some(PacketMetric::PacketsConnectReceived),
        PacketKind::ConnAck(_) => Some(PacketMetric::PacketsConnackReceived),
        PacketKind::Publish(_) => Some(PacketMetric::PacketsPublishReceived),
        PacketKind::PubAck => Some(PacketMetric::PacketsPubackReceived),
        PacketKind::PubRec => Some(PacketMetric::PacketsPubrecReceived),
        PacketKind::PubRel => Some(PacketMetric::PacketsPubrelReceived),
        PacketKind::PubComp => Some(PacketMetric::PacketsPubcompReceived),
        PacketKind::PingReq => Some(PacketMetric::PacketsPingreqReceived),
        PacketKind::Disconnect => Some(PacketMetric::PacketsDisconnectReceived),
        PacketKind::Auth => Some(PacketMetric::PacketsAuthReceived),
        PacketKind::Subscribe => Some(PacketMetric::PacketsSubscribeReceived),
        PacketKind::Unsubscribe => Some(PacketMetric::PacketsUnsubscribeReceived),
        PacketKind::SubAck | PacketKind::UnsubAck | PacketKind::PingResp => None,
    };
    if let Some(metric) = kind_metric {
        updates.push(one_label(metric, network_type.to_string(), 1));
    }
    updates
}

/// A sent CONNACK refused the client as not authorized.
pub open spec fn is_auth_refusal(packet: PacketKind) -> bool {
    packet matches PacketKind::ConnAck(code) && code == ConnectReturnCode::NotAuthorized
}

/// A sent CONNACK carries an error code.
pub open spec fn is_connack_error(packet: PacketKind) -> bool {
    packet matches PacketKind::ConnAck(code) && code != ConnectReturnCode::Success
}

/// The kind gauge of a sent packet is the gauge of sent packets of that
/// kind; so packets of different kinds move different gauges.
pub proof fn law_sent_kind_gauge_counts_its_kind(packet: PacketKind, other: PacketKind)
    ensures
        is_sendable(packet) ==> counts_sent(sent_kind_metric(packet), packet),
        is_sendable(packet) && is_sendable(other) && sent_kind_metric(packet) == sent_kind_metric(other)
            ==> counts_sent(sent_kind_metric(packet), other),
{
}

/// The kind gauge of a received packet is the gauge of received packets of
/// that kind; so packets of different kinds move different gauges.
pub proof fn law_received_kind_gauge_counts_its_kind(packet: PacketKind, other: PacketKind)
    ensures
        is_receivable(packet) ==> counts_received(received_kind_metric(packet), packet),
        is_receivable(packet) && is_receivable(other) && received_kind_metric(packet) == received_kind_metric(other)
            ==> counts_received(received_kind_metric(packet), other),
{
}

/// Bytes received are counted in full for every known protocol, whichever
/// it is, and not at all where the protocol is unknown.
pub proof fn law_received_bytes_counted_for_every_protocol(
    protocol: MQTTProtocol,
    other: MQTTProtocol,
    packet_size: usize,
)
    ensures
        received_payload(Some(protocol), packet_size) == packet_size as i64,
        received_payload(Some(protocol), packet_size) == received_payload(Some(other), packet_size),
        received_payload(None, packet_size) == 0,
{
}

/// The qos label of a quality of service is its level written as one digit.
pub proof fn law_qos_label_is_level_digit(qos: QoS)
    ensures
        qos_text(qos).len() == 1,
        qos_text(qos)[0] as int == '0' as int + qos_level(qos),
{
    reveal_strlit("0");
    reveal_strlit("1");
    reveal_strlit("2");
}

/// A sent PUBLISH is labelled with its level as one digit; any other sent
/// packet with `-1`.
pub proof fn law_sent_qos_label(packet: PacketKind)
    ensures
        packet matches PacketKind::Publish(q) ==> sent_qos_text(packet).len() == 1
            && sent_qos_text(packet)[0] as int == '0' as int + qos_level(q),
        !(packet is Publish) ==> sent_qos_text(packet) == "-1"@,
{
    reveal_strlit("0");
    reveal_strlit("1");
    reveal_strlit("2");
}

/// Every packet is one a client sends, one a broker sends, or both: SUBACK,
/// UNSUBACK and PINGRESP only go from broker to client, CONNECT, SUBSCRIBE,
/// UNSUBSCRIBE and PINGREQ only from client to broker, the others both ways.
pub proof fn law_packet_directions(packet: PacketKind)
    ensures
        is_receivable(packet) || is_sendable(packet),
        !is_receivable(packet) <==> (packet is SubAck || packet is UnsubAck || packet is PingResp),
        !is_sendable(packet) <==> (packet is Connect || packet is Subscribe || packet is Unsubscribe || packet is PingReq),
{
}

/// Different connection types are labelled differently.
pub proof fn law_network_type_labels_differ(a: NetworkConnectionType, b: NetworkConnectionType)
    ensures
        a != b ==> network_type_text(a) != network_type_text(b),
{
    reveal_strlit("tcp");
    reveal_strlit("tcps");
    reveal_strlit("websocket");
    reveal_strlit("websockets");
    reveal_strlit("quic");
    if a != b {
        let ta = network_type_text(a);
        let tb = network_type_text(b);
        if ta.len() == tb.len() {
            assert(ta[0] != tb[0] || ta[1] != tb[1] || ta[2] != tb[2]);
        }
    }
}

/// A CONNACK that refuses a client as not authorized is also counted as a
/// CONNACK error, so the authorization-error gauge never runs ahead of the
/// CONNACK-error gauge.
pub proof fn law_auth_refusal_is_connack_error(packet: PacketKind)
    ensures
        is_auth_refusal(packet) ==> is_connack_error(packet),
{
}

/// The updates for a packet sent to a client over a connection whose type
/// reads `network_type` and whose encoded size is `packet_size`: sent packets
/// and sent bytes, labelled with the connection type and the packet's qos
/// label. Then, for a packet a broker can send: the gauge of the packet's
/// kind with the same labels; and, for a CONNACK, the authorization-error
/// gauge where it refused the client as not authorized and the CONNACK-error
/// gauge where its code is not success, both labelled with the connection
/// type alone. A packet only a client sends moves the first two gauges alone.
pub fn record_sent_metrics(packet: PacketKind, network_type: String, packet_size: usize) -> (updates: Vec<GaugeUpdate>)
    ensures
        updates@.len() == if is_sendable(packet) {
            3 + (if is_auth_refusal(packet) { 1int } else { 0int }) + (if is_connack_error(packet) { 1int } else { 0int })
        } else {
            2int
        },
        update_is(updates@[0], PacketMetric::PacketsSent, seq![network_type@, sent_qos_text(packet)], 1),
        update_is(updates@[1], PacketMetric::BytesSent, seq![network_type@, sent_qos_text(packet)], packet_size as i64),
        is_sendable(packet) ==> update_is(updates@[2], sent_kind_metric(packet), seq![network_type@, sent_qos_text(packet)], 1),
        is_sendable(packet) ==> counts_sent(updates@[2].metric, packet),
        is_auth_refusal(packet) ==> update_is(updates@[3], PacketMetric::PacketsConnackAuthError, seq![network_type@], 1),
        is_connack_error(packet) ==> update_is(updates@[updates@.len() - 1], PacketMetric::PacketsConnackError, seq![network_type@], 1),
{
    let qos_str = match packet {
        PacketKind::Publish(q) => qos_label(q),
        _ => "-1".to_owned(),
    };
    let payload_size = packet_size as i64;
    let mut updates: Vec<GaugeUpdate> = Vec::new();
    updates.push(two_labels(PacketMetric::PacketsSent, network_type.clone(), qos_str.clone(), 1));
    updates.push(two_labels(PacketMetric::BytesSent, network_type.clone(), qos_str.clone(), payload_size));
    match packet {
        PacketKind::ConnAck(code) => {
            updates.push(two_labels(PacketMetric::PacketsConnackSent, network_type.clone(), qos_str, 1));
            if code == ConnectReturnCode::NotAuthorized {
                updates.push(one_label(PacketMetric::PacketsConnackAuthError, network_type.clone(), 1));
            }
            if code != ConnectReturnCode::Success {
                updates.push(one_label(PacketMetric::PacketsConnackError, network_type, 1));
            }
        },
        _ => {
            let kind_metric = match packet {
                PacketKind::Publish(_) => Some(PacketMetric::PacketsPublishSent),
                PacketKind::PubAck => Some(PacketMetric::PacketsPubackSent),
                PacketKind::PubRec => Some(PacketMetric::PacketsPubrecSent),
                PacketKind::PubRel => Some(PacketMetric::PacketsPubrelSent),
                PacketKind::PubComp => Some(PacketMetric::PacketsPubcompSent),
                PacketKind::SubAck => Some(PacketMetric::PacketsSubackSent),
                PacketKind::UnsubAck => Some(PacketMetric::PacketsUnsubackSent),
                PacketKind::PingResp => Some(PacketMetric::PacketsPingrespSent),
                PacketKind::Disconnect => Some(PacketMetric::PacketsDisconnectSent),
                PacketKind::Auth => Some(PacketMetric::PacketsAuthSent),
                _ => None,
            };
            if let Some(metric) = kind_metric {
                updates.push(two_labels(metric, network_type, qos_str, 1));
            }
        },
    }
    updates
}

/// The updates for a retained message received with quality of service
/// `qos`: the retained-received gauge of that level goes up by one.
pub fn record_retain_recv_metrics(qos: QoS) -> (updates: Vec<GaugeUpdate>)
    ensures
        updates@.len() == 1,
        update_is(updates@[0], PacketMetric::RetainPacketsReceived, seq![qos_text(qos)], 1),
{
    let mut updates: Vec<GaugeUpdate> = Vec::new();
    updates.push(one_label(PacketMetric::RetainPacketsReceived, qos_label(qos), 1));
    updates
}

/// The updates for a retained message sent with quality of service `qos`:
/// the retained-sent gauge of that level goes up by one.
pub fn record_retain_sent_metrics(qos: QoS) -> (updates: Vec<GaugeUpdate>)
    ensures
        updates@.len() == 1,
        update_is(updates@[0], PacketMetric::RetainPacketsSent, seq![qos_text(qos)], 1),
{
    let mut updates: Vec<GaugeUpdate> = Vec::new();
    updates.push(one_label(PacketMetric::RetainPacketsSent, qos_label(qos), 1));
    updates
}

} // verus!
