use ntex_mqtt::control::{ControlMessage, ControlResult, Ping};
use ntex_mqtt::default::{DefaultControlService, DefaultPublishService};
use ntex_mqtt::server::Limits;
use ntex_mqtt::types::QoS;
use ntex_mqtt::{MqttServer, SSL_PORT, TCP_PORT};

#[test]
fn standard_ports() {
    assert_eq!(TCP_PORT, 1883);
    assert_eq!(SSL_PORT, 8883);
}

#[test]
fn new_server_has_the_initial_knobs() {
    let parts = MqttServer::new("auth").finish();
    assert_eq!(parts.handshake, "auth");
    assert_eq!(
        parts.limits,
        Limits {
            max_size: 0,
            max_receive: 15,
            max_qos: None,
            handshake_timeout: 0,
            disconnect_timeout: 3000,
            max_topic_alias: 32,
        }
    );
    assert_eq!(parts.limits.handshake_deadline(), None);
    assert_eq!(parts.limits.disconnect_grace(), Some(3000));
    assert_eq!(parts.control.call(ControlMessage::Ping(Ping)), ControlResult::Ping);
    assert!(parts.publish.poll_ready());
}

#[test]
fn each_knob_is_set_alone() {
    let parts = MqttServer::new(())
        .handshake_timeout(50)
        .disconnect_timeout(0)
        .max_size(65536)
        .receive_max(3)
        .max_topic_alias(8)
        .max_qos(QoS::AtLeastOnce)
        .finish();
    assert_eq!(
        parts.limits,
        Limits {
            max_size: 65536,
            max_receive: 3,
            max_qos: Some(QoS::AtLeastOnce),
            handshake_timeout: 50,
            disconnect_timeout: 0,
            max_topic_alias: 8,
        }
    );
    assert_eq!(parts.limits.handshake_deadline(), Some(50));
    assert_eq!(parts.limits.disconnect_grace(), None);

    let parts = MqttServer::new(()).receive_max(0).finish();
    assert_eq!(parts.limits.max_receive, 0);
    assert_eq!(parts.limits.max_topic_alias, 32);
    assert_eq!(parts.limits.disconnect_timeout, 3000);
}

#[test]
fn handlers_are_replaced_and_knobs_kept() {
    let parts = MqttServer::new(1u8)
        .max_size(10)
        .control("control")
        .receive_max(2)
        .publish("publish")
        .finish();
    assert_eq!(parts.handshake, 1u8);
    assert_eq!(parts.control, "control");
    assert_eq!(parts.publish, "publish");
    assert_eq!(parts.limits.max_size, 10);
    assert_eq!(parts.limits.max_receive, 2);
}

#[test]
fn default_handlers_are_always_ready() {
    assert!(DefaultPublishService::default().poll_ready());
    assert!(DefaultControlService::default().poll_ready());
}
