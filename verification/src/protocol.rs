//! MQTT protocol values that the broker's bookkeeping reads.

use vstd::prelude::*;

verus! {

/// The MQTT protocol version a client connected with.
#[derive(Clone, Copy, Debug, PartialEq, Eq, Structural)]
pub enum MQTTProtocol {
    MQTT3,
    MQTT4,
    MQTT5,
}

/// The protocol level byte of each protocol version.
pub open spec fn protocol_level(p: MQTTProtocol) -> u8 {
    match p {
        MQTTProtocol::MQTT3 => 3,
        MQTTProtocol::MQTT4 => 4,
        MQTTProtocol::MQTT5 => 5,
    }
}

impl MQTTProtocol {
    /// The protocol level byte carried in a CONNECT packet.
    pub fn level(&self) -> (level: u8)
        ensures
            level == protocol_level(*self),
    {
        match self {
            MQTTProtocol::MQTT3 => 3,
            MQTTProtocol::MQTT4 => 4,
            MQTTProtocol::MQTT5 => 5,
        }
    }
}

/// MQTT quality of service levels.
#[derive(Clone, Copy, Debug, PartialEq, Eq, Structural)]
pub enum QoS {
    AtMostOnce,
    AtLeastOnce,
    ExactlyOnce,
}

/// The numeric level of a quality of service.
pub open spec fn qos_level(q: QoS) -> u8 {
    match q {
        QoS::AtMostOnce => 0,
        QoS::AtLeastOnce => 1,
        QoS::ExactlyOnce => 2,
    }
}

impl QoS {
    /// The numeric level of this quality of service.
    pub fn level(&self) -> (level: u8)
        ensures
            level == qos_level(*self),
    {
        match self {
            QoS::AtMostOnce => 0,
            QoS::AtLeastOnce => 1,
            QoS::ExactlyOnce => 2,
        }
    }
}

/// The return code carried by a CONNACK packet.
#[derive(Clone, Copy, Debug, PartialEq, Eq, Structural)]
pub enum ConnectReturnCode {
    Success,
    RefusedProtocolVersion,
    BadClientId,
    ServiceUnavailable,
    UnspecifiedError,
    MalformedPacket,
    ProtocolError,
    ImplementationSpecificError,
    UnsupportedProtocolVersion,
    ClientIdentifierNotValid,
    BadUserNamePassword,
    NotAuthorized,
    ServerUnavailable,
    ServerBusy,
    Banned,
    BadAuthenticationMethod,
    TopicNameInvalid,
    PacketTooLarge,
    QuotaExceeded,
    PayloadFormatInvalid,
    RetainNotSupported,
    QoSNotSupported,
    UseAnotherServer,
    ServerMoved,
    ConnectionRateExceeded,
}

/// The kind of an MQTT control packet, with what the broker's bookkeeping
/// reads of it: the return code of a CONNACK and the quality of service of a
/// PUBLISH.
#[derive(Clone, Copy, Debug, PartialEq, Eq, Structural)]
pub enum PacketKind {
    Connect,
    ConnAck(ConnectReturnCode),
    Publish(QoS),
    PubAck,
    PubRec,
    PubRel,
    PubComp,
    Subscribe,
    SubAck,
    Unsubscribe,
    UnsubAck,
    PingReq,
    PingResp,
    Disconnect,
    Auth,
}

/// The transport a network connection runs over.
#[derive(Clone, Copy, Debug, PartialEq, Eq, Structural)]
pub enum NetworkConnectionType {
    Tcp,
    Tcps,
    WebSocket,
    WebSockets,
    QUIC,
}

/// The text form of a connection type.
pub open spec fn network_type_text(t: NetworkConnectionType) -> Seq<char> {
    match t {
        NetworkConnectionType::Tcp => "tcp"@,
        NetworkConnectionType::Tcps => "tcps"@,
        NetworkConnectionType::WebSocket => "websocket"@,
        NetworkConnectionType::WebSockets => "websockets"@,
        NetworkConnectionType::QUIC => "quic"@,
    }
}

impl NetworkConnectionType {
    /// The text form of this connection type.
    pub fn to_string(&self) -> (text: String)
        ensures
            text@ == network_type_text(*self),
    {
        match self {
            NetworkConnectionType::Tcp => "tcp".to_owned(),
            NetworkConnectionType::Tcps => "tcps".to_owned(),
            NetworkConnectionType::WebSocket => "websocket".to_owned(),
            NetworkConnectionType::WebSockets => "websockets".to_owned(),
            NetworkConnectionType::QUIC => "quic".to_owned(),
        }
    }
}

} // verus!
