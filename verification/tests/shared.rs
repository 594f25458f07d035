use futures::FutureExt;
use ntex::framed::State;
use ntex_mqtt::shared::{Ack, AckType, MqttShared, MqttSinkPool, Reservation};
use ntex_mqtt::types::SubscribeReturnCode;

fn shared_with(cap: u16) -> MqttShared {
    MqttShared::new(State::new(), MqttSinkPool::new(), cap)
}

fn granted(answer: Reservation) -> u16 {
    match answer {
        Reservation::Granted(id, _) => id,
        Reservation::Closed => panic!("closed"),
        Reservation::Wait(_) => panic!("made to wait"),
        Reservation::InUse => panic!("in use"),
    }
}

#[test]
fn fresh_state_has_the_whole_credit() {
    let shared = shared_with(3);
    assert!(shared.has_credit());
    assert_eq!(shared.credit(), 3);
    assert!(shared.is_open());
    let none = shared_with(0);
    assert!(!none.has_credit());
    assert_eq!(none.credit(), 0);
}

#[test]
fn next_id_counts_from_one() {
    let mut shared = shared_with(10);
    assert_eq!(shared.next_id(), Some(1));
    assert_eq!(shared.next_id(), Some(2));
    assert_eq!(shared.next_id(), Some(3));
}

#[test]
fn next_id_wraps_past_65535_to_one() {
    let mut shared = shared_with(10);
    let mut last = 0;
    for _ in 0..65535u32 {
        last = shared.next_id().unwrap();
    }
    assert_eq!(last, 65535);
    assert_eq!(shared.next_id(), Some(1));
    assert_eq!(shared.next_id(), Some(2));
}

#[test]
fn next_id_is_never_zero_nor_in_flight() {
    let mut shared = shared_with(10);
    let mut replies = Vec::new();
    for wanted in [1u16, 2, 3, 65535, 40000] {
        match shared.reserve_when(true, wanted, AckType::Publish) {
            Reservation::Granted(id, reply) => {
                assert_eq!(id, wanted);
                replies.push(reply);
            }
            _ => panic!("not granted"),
        }
    }
    let mut seen_four = 0;
    for _ in 0..65536u32 {
        let id = shared.next_id().unwrap();
        assert_ne!(id, 0);
        assert!(![1u16, 2, 3, 65535, 40000].contains(&id));
        if id == 4 {
            seen_four += 1;
        }
    }
    assert_eq!(seen_four, 2);
}

#[test]
fn next_id_skips_what_is_in_flight() {
    let mut shared = shared_with(10);
    let _a = granted(shared.reserve_when(true, 1, AckType::Publish));
    let _b = granted(shared.reserve_when(true, 2, AckType::Publish));
    assert_eq!(shared.next_id(), Some(3));
    assert_eq!(granted(shared.reserve_when(true, 0, AckType::Publish)), 4);
    assert_eq!(shared.next_id(), Some(5));
}

#[test]
fn reserve_answers_closed_wait_in_use_and_granted() {
    let mut shared = shared_with(1);
    assert!(matches!(shared.reserve_when(false, 0, AckType::Publish), Reservation::Closed));
    assert_eq!(shared.credit(), 1);
    assert_eq!(granted(shared.reserve_when(true, 7, AckType::Subscribe)), 7);
    assert_eq!(shared.credit(), 0);
    assert!(matches!(shared.reserve_when(true, 7, AckType::Publish), Reservation::Wait(_)));

    let mut shared = shared_with(2);
    assert_eq!(granted(shared.reserve(7, AckType::Subscribe)), 7);
    assert!(matches!(shared.reserve(7, AckType::Publish), Reservation::InUse));
    assert_eq!(shared.credit(), 1);
    shared.force_close();
    assert!(matches!(shared.reserve(0, AckType::Publish), Reservation::Closed));
}

#[test]
fn unregister_takes_one_request_out_of_the_middle() {
    let mut shared = shared_with(5);
    let _a = granted(shared.reserve_when(true, 0, AckType::Publish));
    let _b = granted(shared.reserve_when(true, 0, AckType::Publish));
    let _c = granted(shared.reserve_when(true, 0, AckType::Publish));
    shared.unregister(2);
    assert_eq!(shared.credit(), 3);
    shared.unregister(2);
    assert_eq!(shared.credit(), 3);
    assert_eq!(shared.pkt_ack(Ack::Publish(1)), Ok(()));
    assert_eq!(shared.pkt_ack(Ack::Publish(3)), Ok(()));
    assert_eq!(shared.credit(), 5);
}

#[test]
fn wait_for_credit_is_answered_by_the_next_ack() {
    let mut shared = shared_with(1);
    let _a = granted(shared.reserve_when(true, 0, AckType::Publish));
    let mut waiter = shared.wait_for_credit();
    assert!((&mut waiter).now_or_never().is_none());
    assert_eq!(shared.pkt_ack(Ack::Publish(1)), Ok(()));
    assert_eq!(waiter.now_or_never().map(|r| r.is_ok()), Some(true));
}

#[test]
fn register_delivers_the_ack_to_its_caller() {
    let mut shared = shared_with(2);
    let first = shared.register(10, AckType::Publish);
    let mut second = shared.register(11, AckType::Subscribe);
    assert_eq!(shared.pkt_ack(Ack::Publish(10)), Ok(()));
    assert_eq!(first.now_or_never().expect("resolved").ok(), Some(Ack::Publish(10)));
    assert!((&mut second).now_or_never().is_none());
    let codes = vec![SubscribeReturnCode::Failure];
    assert_eq!(shared.pkt_ack(Ack::Subscribe { packet_id: 11, status: codes.clone() }), Ok(()));
    assert_eq!(
        second.now_or_never().expect("resolved").ok(),
        Some(Ack::Subscribe { packet_id: 11, status: codes })
    );
}

#[test]
fn ack_reports_its_identifier_type_and_shape() {
    let acks = [
        (Ack::Publish(5), 0x40u8, AckType::Publish, "PublishAck"),
        (Ack::Receive(5), 0x50, AckType::Receive, "ReceiveAck"),
        (Ack::Complete(5), 0x70, AckType::Complete, "CompleteAck"),
        (Ack::Subscribe { packet_id: 5, status: vec![] }, 0x90, AckType::Subscribe, "SubscribeAck"),
        (Ack::Unsubscribe(5), 0xB0, AckType::Unsubscribe, "UnsubscribeAck"),
    ];
    let all = [
        AckType::Publish,
        AckType::Receive,
        AckType::Complete,
        AckType::Subscribe,
        AckType::Unsubscribe,
    ];
    for (ack, packet_type, shape, name) in acks {
        assert_eq!(ack.packet_id(), 5);
        assert_eq!(ack.packet_type(), packet_type);
        assert_eq!(shape.name(), name);
        for other in all {
            assert_eq!(ack.is_match(other), other == shape);
        }
    }
}

#[test]
fn suback_hands_out_its_return_codes() {
    let codes = vec![SubscribeReturnCode::Failure, SubscribeReturnCode::Failure];
    let ack = Ack::Subscribe { packet_id: 1, status: codes.clone() };
    assert_eq!(ack.subscribe(), codes);
}

#[test]
fn pools_can_be_shared_between_connections() {
    let pool = MqttSinkPool::new();
    let mut one = MqttShared::new(State::new(), pool.clone(), 1);
    let mut two = MqttShared::new(State::new(), pool, 1);
    let a = one.register(1, AckType::Publish);
    let b = two.register(1, AckType::Publish);
    assert_eq!(two.pkt_ack(Ack::Publish(1)), Ok(()));
    assert_eq!(b.now_or_never().expect("resolved").ok(), Some(Ack::Publish(1)));
    one.close();
    assert_eq!(a.now_or_never().expect("resolved").ok(), None);
}

#[test]
fn open_needs_both_this_side_and_the_transport() {
    let state = State::new();
    let mut shared = MqttShared::new(state.clone(), MqttSinkPool::new(), 1);
    assert!(shared.is_open_when(true));
    assert!(!shared.is_open_when(false));
    assert!(shared.is_open());
    state.close();
    assert!(!shared.is_open());
    assert!(shared.is_open_when(true));
    shared.close();
    assert!(!shared.is_open_when(true));
    assert!(!shared.is_open_when(false));
    assert!(!shared.is_open());
}
