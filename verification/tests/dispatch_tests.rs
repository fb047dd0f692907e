use ranging_beacon::bootstrap::{BleContext, CharHandles};
use ranging_beacon::dispatch::{
    handle_event, serve_read, DispatchAction, MeasureOutcome, Session, SessionState,
    MEASUREMENT_PREFIX_LEN,
};
use ranging_beacon::protocol::{AttributeHandle, HostEvent};

fn context() -> BleContext {
    BleContext {
        service_handle: AttributeHandle(0x0010),
        chars: CharHandles {
            read: AttributeHandle(0x0012),
            write: AttributeHandle(0x0014),
            notify: AttributeHandle(0x0016),
        },
        is_subscribed: false,
    }
}

fn connected_session() -> Session {
    let mut s = Session::new(context());
    handle_event(&mut s, &HostEvent::ConnectionComplete { conn_handle: 1 });
    s
}

#[test]
fn connection_enters_connected_unsubscribed() {
    let mut s = Session::new(context());
    let action = handle_event(&mut s, &HostEvent::ConnectionComplete { conn_handle: 1 });
    assert_eq!(action, DispatchAction::Ignore);
    assert_eq!(s.state, SessionState::Connected);
    assert!(!s.context.is_subscribed);
}

#[test]
fn descriptor_write_01_subscribes() {
    let mut s = connected_session();
    let action = handle_event(&mut s, &HostEvent::AttributeModified {
        attribute_handle: AttributeHandle(0x0018),
        data: vec![0x01],
    });
    assert_eq!(action, DispatchAction::Ignore);
    assert!(s.context.is_subscribed);
}

#[test]
fn descriptor_write_00_unsubscribes() {
    let mut s = connected_session();
    s.context.is_subscribed = true;
    handle_event(&mut s, &HostEvent::AttributeModified {
        attribute_handle: AttributeHandle(0x0018),
        data: vec![0x00],
    });
    assert!(!s.context.is_subscribed);
}

#[test]
fn descriptor_write_other_value_unsubscribes() {
    let mut s = connected_session();
    s.context.is_subscribed = true;
    handle_event(&mut s, &HostEvent::AttributeModified {
        attribute_handle: AttributeHandle(0x0018),
        data: vec![0x02],
    });
    assert!(!s.context.is_subscribed);
}

#[test]
fn write_to_another_handle_leaves_subscription_unchanged() {
    let mut s = connected_session();
    s.context.is_subscribed = true;
    handle_event(&mut s, &HostEvent::AttributeModified {
        attribute_handle: AttributeHandle(0x0014),
        data: vec![0x00],
    });
    assert!(s.context.is_subscribed);

    s.context.is_subscribed = false;
    handle_event(&mut s, &HostEvent::AttributeModified {
        attribute_handle: AttributeHandle(0x0014),
        data: vec![0x01],
    });
    assert!(!s.context.is_subscribed);
}

#[test]
fn disconnect_clears_subscription_and_readvertises_once() {
    let mut s = connected_session();
    s.context.is_subscribed = true;
    let action = handle_event(&mut s, &HostEvent::DisconnectionComplete);
    assert_eq!(s.state, SessionState::Advertising);
    assert!(!s.context.is_subscribed);
    match action {
        DispatchAction::Readvertise { parameters } => {
            assert_eq!(parameters.advertising_interval_min_ms, 100);
            assert_eq!(parameters.advertising_interval_max_ms, 100);
            assert_eq!(parameters.local_name, b"TXTX".to_vec());
            assert!(parameters.advertising_data.is_empty());
            assert!(parameters.use_public_address);
            assert_eq!(parameters.conn_interval_min, None);
            assert_eq!(parameters.conn_interval_max, None);
        }
        other => panic!("disconnect must re-advertise, got {:?}", other),
    }
}

#[test]
fn read_permit_demands_one_measurement() {
    let mut s = connected_session();
    let before = s;
    let action = handle_event(&mut s, &HostEvent::ReadPermitRequest {
        conn_handle: 42,
        attribute_handle: AttributeHandle(0x0012),
    });
    assert_eq!(action, DispatchAction::MeasureThenServe { conn_handle: 42 });
    assert_eq!(s, before);
}

#[test]
fn write_permit_is_accepted_with_the_host_value() {
    let mut s = connected_session();
    let action = handle_event(&mut s, &HostEvent::WritePermitRequest {
        conn_handle: 42,
        attribute_handle: AttributeHandle(0x0014),
        value: vec![9, 8, 7],
    });
    assert_eq!(
        action,
        DispatchAction::AcceptWrite {
            conn_handle: 42,
            attribute_handle: AttributeHandle(0x0014),
            value: vec![9, 8, 7],
        }
    );
}

#[test]
fn other_events_are_ignored() {
    let mut s = connected_session();
    let before = s;
    assert_eq!(handle_event(&mut s, &HostEvent::Other), DispatchAction::Ignore);
    assert_eq!(s, before);
}

#[test]
fn successful_measurement_updates_read_characteristic_then_grants() {
    let ctx = context();
    let mut bytes = vec![0u8; 768];
    bytes[0] = 0x01;
    bytes[1] = 0x02;
    bytes[2] = 0x03;
    bytes[3] = 0x04;
    bytes[4] = 0x55;
    let serve = serve_read(&ctx, 42, &MeasureOutcome::Measured { bytes });
    let update = serve.update.expect("a fresh measurement must update the characteristic");
    assert_eq!(update.service_handle, AttributeHandle(0x0010));
    assert_eq!(update.characteristic_handle, AttributeHandle(0x0012));
    assert_eq!(update.offset, 0);
    assert_eq!(update.value, vec![0x01, 0x02, 0x03, 0x04]);
    assert_eq!(update.value.len(), MEASUREMENT_PREFIX_LEN);
    assert_eq!(serve.grant_conn_handle, 42);
}

#[test]
fn failed_measurement_still_grants_but_leaves_value_stale() {
    let ctx = context();
    let serve = serve_read(&ctx, 42, &MeasureOutcome::MeasureFailed);
    assert!(serve.update.is_none());
    assert_eq!(serve.grant_conn_handle, 42);
}

#[test]
fn short_measurement_is_copied_whole() {
    let ctx = context();
    let serve = serve_read(&ctx, 5, &MeasureOutcome::Measured { bytes: vec![0xaa, 0xbb] });
    assert_eq!(serve.update.expect("update expected").value, vec![0xaa, 0xbb]);
}
