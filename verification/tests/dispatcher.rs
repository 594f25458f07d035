use futures::FutureExt;
use ntex::framed::State;
use ntex::util::Bytes;
use ntex_mqtt::control::{
    Closed, ControlMessage, ControlResult, Disconnect, Ping, Subscribe, Unsubscribe,
};
use ntex_mqtt::default::{DefaultControlService, DefaultPublishService};
use ntex_mqtt::dispatcher::{control_reply, keepalive_timeout, Dispatch, Dispatcher, Reply};
use ntex_mqtt::error::{MqttError, ProtocolError};
use ntex_mqtt::shared::{Ack, MqttShared, MqttSinkPool};
use ntex_mqtt::sink::{MqttSink, Sending};
use ntex_mqtt::types::{Connect, ConnectAck, Packet, Publish, QoS, SubscribeReturnCode};

fn sink_with(cap: u16) -> MqttSink {
    MqttSink::new(MqttShared::new(State::new(), MqttSinkPool::new(), cap))
}

fn inbound(qos: QoS, packet_id: Option<u16>) -> Publish {
    Publish {
        dup: false,
        retain: false,
        qos,
        topic: "in".to_string(),
        packet_id,
        payload: Bytes::from_static(b"data"),
    }
}

fn control(todo: Dispatch) -> ControlMessage {
    match todo {
        Dispatch::Control(msg) => msg,
        _ => panic!("not a control message"),
    }
}

#[test]
fn keepalive_timeout_is_one_and_a_half_intervals() {
    assert_eq!(keepalive_timeout(0), None);
    assert_eq!(keepalive_timeout(1), Some(1500));
    assert_eq!(keepalive_timeout(10), Some(15_000));
    assert_eq!(keepalive_timeout(65535), Some(98_302_500));
}

#[test]
fn publish_goes_to_the_publish_handler() {
    let mut sink = sink_with(4);
    let mut dispatcher = Dispatcher::new(2);
    match dispatcher.dispatch(&mut sink, Packet::Publish(inbound(QoS::AtMostOnce, None))) {
        Dispatch::Publish(p) => assert_eq!(p, inbound(QoS::AtMostOnce, None)),
        _ => panic!("not a publish"),
    }
    assert_eq!(dispatcher.completed(QoS::AtMostOnce, None), None);
    assert!(dispatcher.can_read());
    DefaultPublishService::default().call(inbound(QoS::AtMostOnce, None));
}

#[test]
fn publish_above_qos0_is_answered_when_the_handler_is_done() {
    let mut sink = sink_with(4);
    let mut dispatcher = Dispatcher::new(0);
    let _ = dispatcher.dispatch(&mut sink, Packet::Publish(inbound(QoS::AtLeastOnce, Some(11))));
    assert_eq!(
        dispatcher.completed(QoS::AtLeastOnce, Some(11)),
        Some(Packet::PublishAck { packet_id: 11 })
    );
    let _ = dispatcher.dispatch(&mut sink, Packet::Publish(inbound(QoS::ExactlyOnce, Some(12))));
    assert_eq!(
        dispatcher.completed(QoS::ExactlyOnce, Some(12)),
        Some(Packet::PublishReceived { packet_id: 12 })
    );
}

#[test]
fn reading_stops_at_the_receive_maximum() {
    let mut sink = sink_with(4);
    let mut dispatcher = Dispatcher::new(2);
    assert!(dispatcher.can_read());
    let _ = dispatcher.dispatch(&mut sink, Packet::Publish(inbound(QoS::AtLeastOnce, Some(1))));
    assert!(dispatcher.can_read());
    let _ = dispatcher.dispatch(&mut sink, Packet::Publish(inbound(QoS::AtLeastOnce, Some(2))));
    assert!(!dispatcher.can_read());
    let _ = dispatcher.completed(QoS::AtLeastOnce, Some(1));
    assert!(dispatcher.can_read());
    let _ = dispatcher.completed(QoS::AtLeastOnce, Some(2));
    let _ = dispatcher.completed(QoS::AtLeastOnce, Some(2));
    assert!(dispatcher.can_read());
}

#[test]
fn no_receive_maximum_never_stops_reading() {
    let mut sink = sink_with(4);
    let mut dispatcher = Dispatcher::new(0);
    for id in 1..=100u16 {
        assert!(dispatcher.can_read());
        let _ =
            dispatcher.dispatch(&mut sink, Packet::Publish(inbound(QoS::AtLeastOnce, Some(id))));
    }
    assert!(dispatcher.can_read());
}

#[test]
fn acks_go_to_the_sink() {
    let mut sink = sink_with(4);
    let mut dispatcher = Dispatcher::new(2);
    let reply = match sink.publish("t".to_string(), Bytes::from_static(b"p")).send_at_least_once(&mut sink) {
        Sending::Write(_, pending) => pending.written(&mut sink, Ok(())).unwrap(),
        _ => panic!("not recorded"),
    };
    assert!(matches!(
        dispatcher.dispatch(&mut sink, Packet::PublishAck { packet_id: 1 }),
        Dispatch::Acked
    ));
    assert_eq!(reply.now_or_never().expect("resolved").ok(), Some(Ack::Publish(1)));
    assert_eq!(sink.credit(), 4);

    let reply = match sink.subscribe().topic_filter("a".to_string(), QoS::AtMostOnce).send(&mut sink) {
        Sending::Write(_, pending) => pending.written(&mut sink, Ok(())).unwrap(),
        _ => panic!("not recorded"),
    };
    let status = vec![SubscribeReturnCode::Success(QoS::AtMostOnce)];
    assert!(matches!(
        dispatcher.dispatch(&mut sink, Packet::SubscribeAck { packet_id: 2, status: status.clone() }),
        Dispatch::Acked
    ));
    assert_eq!(
        reply.now_or_never().expect("resolved").ok(),
        Some(Ack::Subscribe { packet_id: 2, status })
    );
}

#[test]
fn refused_ack_becomes_the_closed_notice() {
    let mut sink = sink_with(4);
    let mut dispatcher = Dispatcher::new(2);
    let msg = control(dispatcher.dispatch(&mut sink, Packet::UnsubscribeAck { packet_id: 3 }));
    assert_eq!(msg, ControlMessage::Closed(Closed::new(Some(ProtocolError::PacketIdMismatch))));
    assert!(!sink.is_open());
    let result = DefaultControlService::default().call(msg);
    assert_eq!(result, ControlResult::Closed);
    assert_eq!(control_reply(result), Reply::Stop);
}

#[test]
fn each_ack_class_is_told_apart() {
    for (packet, found) in [
        (Packet::PublishAck { packet_id: 1 }, 0x40u8),
        (Packet::PublishReceived { packet_id: 1 }, 0x50),
        (Packet::PublishComplete { packet_id: 1 }, 0x70),
        (Packet::UnsubscribeAck { packet_id: 1 }, 0xB0),
    ] {
        let mut sink = sink_with(4);
        let mut dispatcher = Dispatcher::new(2);
        let _ = sink.subscribe().topic_filter("a".to_string(), QoS::AtMostOnce).send(&mut sink);
        let msg = control(dispatcher.dispatch(&mut sink, packet));
        assert_eq!(
            msg,
            ControlMessage::Closed(Closed::new(Some(ProtocolError::Unexpected(
                found,
                "SubscribeAck"
            ))))
        );
    }
}

#[test]
fn ping_is_answered_with_a_ping_response() {
    let mut sink = sink_with(4);
    let mut dispatcher = Dispatcher::new(2);
    let msg = control(dispatcher.dispatch(&mut sink, Packet::PingRequest));
    assert_eq!(msg, ControlMessage::Ping(Ping));
    let result = DefaultControlService::default().call(msg);
    assert_eq!(control_reply(result), Reply::Write(Packet::PingResponse));
}

#[test]
fn disconnect_closes_gracefully() {
    let mut sink = sink_with(4);
    let mut dispatcher = Dispatcher::new(2);
    let msg = control(dispatcher.dispatch(&mut sink, Packet::Disconnect));
    assert_eq!(msg, ControlMessage::Disconnect(Disconnect));
    let result = DefaultControlService::default().call(msg);
    assert_eq!(result, ControlResult::Disconnect);
    assert_eq!(control_reply(result), Reply::Close);
}

#[test]
fn subscribe_is_refused_by_default() {
    let mut sink = sink_with(4);
    let mut dispatcher = Dispatcher::new(2);
    let filters = vec![("a".to_string(), QoS::AtLeastOnce), ("b".to_string(), QoS::AtMostOnce)];
    let msg = control(dispatcher.dispatch(
        &mut sink,
        Packet::Subscribe { packet_id: 21, topic_filters: filters.clone() },
    ));
    assert_eq!(msg, ControlMessage::Subscribe(Subscribe::new(21, filters)));
    let result = DefaultControlService::default().call(msg);
    assert_eq!(
        control_reply(result),
        Reply::Write(Packet::SubscribeAck {
            packet_id: 21,
            status: vec![SubscribeReturnCode::Failure, SubscribeReturnCode::Failure],
        })
    );
}

#[test]
fn confirmed_filters_are_acknowledged_with_their_qos() {
    let filters = vec![
        ("a".to_string(), QoS::AtLeastOnce),
        ("b".to_string(), QoS::AtMostOnce),
        ("c".to_string(), QoS::ExactlyOnce),
    ];
    let mut request = Subscribe::new(5, filters);
    assert_eq!(request.packet_id(), 5);
    assert_eq!(request.len(), 3);
    request.confirm(0, QoS::AtLeastOnce);
    request.confirm(2, QoS::AtMostOnce);
    request.fail(2);
    request.confirm(1, QoS::AtMostOnce);
    assert_eq!(
        request.ack(),
        ControlResult::Subscribe {
            packet_id: 5,
            codes: vec![
                SubscribeReturnCode::Success(QoS::AtLeastOnce),
                SubscribeReturnCode::Success(QoS::AtMostOnce),
                SubscribeReturnCode::Failure,
            ],
        }
    );
}

#[test]
fn unsubscribe_is_acknowledged() {
    let mut sink = sink_with(4);
    let mut dispatcher = Dispatcher::new(2);
    let msg = control(dispatcher.dispatch(
        &mut sink,
        Packet::Unsubscribe { packet_id: 22, topic_filters: vec!["a".to_string()] },
    ));
    assert_eq!(msg, ControlMessage::Unsubscribe(Unsubscribe::new(22, vec!["a".to_string()])));
    let result = DefaultControlService::default().call(msg);
    assert_eq!(result, ControlResult::Unsubscribe { packet_id: 22 });
    assert_eq!(control_reply(result), Reply::Write(Packet::UnsubscribeAck { packet_id: 22 }));
}

#[test]
fn packets_without_a_place_are_passed_over() {
    let connect = Connect {
        clean_start: true,
        keep_alive: 0,
        client_id: String::new(),
        receive_max: None,
        max_packet_size: None,
        topic_alias_max: 0,
    };
    let connack = ConnectAck {
        session_present: false,
        reason_code: 0,
        server_keepalive_sec: None,
        receive_max: None,
        max_qos: None,
        max_packet_size: None,
        topic_alias_max: 0,
    };
    for packet in [
        Packet::Connect(connect),
        Packet::ConnectAck(connack),
        Packet::PingResponse,
        Packet::PublishRelease { packet_id: 1 },
    ] {
        let mut sink = sink_with(4);
        let mut dispatcher = Dispatcher::new(2);
        assert!(matches!(dispatcher.dispatch(&mut sink, packet), Dispatch::Ignored));
        assert!(sink.is_open());
    }
}

#[test]
fn keepalive_timeout_closes_with_its_error() {
    let mut sink = sink_with(4);
    let dispatcher = Dispatcher::new(2);
    let msg = dispatcher.on_keepalive_timeout(&mut sink);
    assert_eq!(msg, ControlMessage::Closed(Closed::new(Some(ProtocolError::KeepAliveTimeout))));
    assert!(!sink.is_open());
    match msg {
        ControlMessage::Closed(notice) => {
            assert!(notice.is_error());
            assert_eq!(notice.reason(), Some(ProtocolError::KeepAliveTimeout));
        }
        _ => panic!("not a closed notice"),
    }
    assert!(!Closed::new(None).is_error());
}

#[test]
fn handler_error_closes_the_connection() {
    let mut sink = sink_with(4);
    let dispatcher = Dispatcher::new(2);
    assert_eq!(dispatcher.on_service_error(&mut sink, "boom"), MqttError::Service("boom"));
    assert!(!sink.is_open());
}

#[test]
fn packet_types_are_the_first_header_byte() {
    assert_eq!(Packet::PingRequest.packet_type(), 0xC0);
    assert_eq!(Packet::PingResponse.packet_type(), 0xD0);
    assert_eq!(Packet::Disconnect.packet_type(), 0xE0);
    assert_eq!(Packet::PublishAck { packet_id: 1 }.packet_type(), 0x40);
    assert_eq!(Packet::PublishReceived { packet_id: 1 }.packet_type(), 0x50);
    assert_eq!(Packet::PublishRelease { packet_id: 1 }.packet_type(), 0x62);
    assert_eq!(Packet::PublishComplete { packet_id: 1 }.packet_type(), 0x70);
    assert_eq!(Packet::Subscribe { packet_id: 1, topic_filters: vec![] }.packet_type(), 0x82);
    assert_eq!(Packet::SubscribeAck { packet_id: 1, status: vec![] }.packet_type(), 0x90);
    assert_eq!(Packet::Unsubscribe { packet_id: 1, topic_filters: vec![] }.packet_type(), 0xA2);
    assert_eq!(Packet::UnsubscribeAck { packet_id: 1 }.packet_type(), 0xB0);
    assert_eq!(Packet::Publish(inbound(QoS::AtMostOnce, None)).packet_type(), 0x30);
}
