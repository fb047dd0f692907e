use ranging_beacon::address::HardwareSeed;
use ranging_beacon::bootstrap::init_gatt_services;
use ranging_beacon::bringup::{bring_up_commands, discoverable_parameters, DEVICE_NAME_LENGTH};
use ranging_beacon::calibration::{run_calibration, CalibrationAttempt};
use ranging_beacon::dispatch::{
    handle_event, serve_read, DispatchAction, MeasureOutcome, Session, SessionState,
};
use ranging_beacon::protocol::{
    AdvertisingFilterPolicy, AdvertisingType, AttributeHandle, GattResponse, HostEvent,
    IoCapability, SecureConnectionSupport, SetupCommand,
};

#[test]
fn bring_up_issues_the_full_sequence_in_order() {
    let seed = HardwareSeed { uid64: 0x112233, device_type_id: 0x26, st_company_id: 0x0080 };
    let cmds = bring_up_commands(&seed);
    assert_eq!(cmds.len(), 12);
    assert_eq!(cmds[0], SetupCommand::Reset);
    match &cmds[1] {
        SetupCommand::ConfigurePublicAddress { address } => {
            assert_eq!(address.bytes, [0x33, 0x22, 0x11, 0x26, 0x80, 0x00]);
        }
        other => panic!("expected the public address step, got {:?}", other),
    }
    match &cmds[2] {
        SetupCommand::ConfigureRandomAddress { address } => {
            assert_eq!(address.bytes, [0x33, 0x22, 0x11, 0x00, 0x6e, 0xed]);
        }
        other => panic!("expected the random address step, got {:?}", other),
    }
    assert!(matches!(cmds[3], SetupCommand::ConfigureIdentityRoot { .. }));
    assert!(matches!(cmds[4], SetupCommand::ConfigureEncryptionRoot { .. }));
    assert_eq!(cmds[5], SetupCommand::SetTxPowerZeroDbm);
    assert_eq!(cmds[6], SetupCommand::InitGatt);
    assert_eq!(
        cmds[7],
        SetupCommand::InitGap {
            peripheral_only: true,
            privacy_enabled: false,
            device_name_length: DEVICE_NAME_LENGTH,
        }
    );
    assert_eq!(cmds[8], SetupCommand::SetIoCapability { capability: IoCapability::DisplayConfirm });
    match &cmds[9] {
        SetupCommand::SetAuthenticationRequirements { requirements } => {
            assert!(!requirements.bonding_required);
            assert!(!requirements.mitm_protection_required);
            assert_eq!(requirements.encryption_key_size_min, 8);
            assert_eq!(requirements.encryption_key_size_max, 16);
            assert!(requirements.fixed_pin_requested);
            assert!(requirements.identity_address_public);
            assert_eq!(requirements.secure_connection_support, SecureConnectionSupport::Optional);
        }
        other => panic!("expected the authentication step, got {:?}", other),
    }
    match &cmds[10] {
        SetupCommand::SetScanResponseData { data } => assert_eq!(data, &b"TXTX".to_vec()),
        other => panic!("expected the scan-response step, got {:?}", other),
    }
    match &cmds[11] {
        SetupCommand::SetDiscoverable { parameters } => {
            assert_eq!(parameters, &discoverable_parameters());
        }
        other => panic!("expected the discoverable step, got {:?}", other),
    }
}

#[test]
fn discoverable_parameters_are_the_fixed_ones() {
    let p = discoverable_parameters();
    assert_eq!(p.advertising_type, AdvertisingType::ConnectableUndirected);
    assert_eq!(p.advertising_interval_min_ms, 100);
    assert_eq!(p.advertising_interval_max_ms, 100);
    assert!(p.use_public_address);
    assert_eq!(p.filter_policy, AdvertisingFilterPolicy::AllowConnectionAndScan);
    assert_eq!(p.local_name, b"TXTX".to_vec());
    assert!(p.advertising_data.is_empty());
    assert_eq!(p.conn_interval_min, None);
    assert_eq!(p.conn_interval_max, None);
}

#[test]
fn end_to_end_session() {
    // Boot: bootstrap yields the handle table.
    let transcript = vec![
        GattResponse::ServiceAdded { service_handle: AttributeHandle(0x0010) },
        GattResponse::CharacteristicAdded { characteristic_handle: AttributeHandle(0x0012) },
        GattResponse::ValueUpdated,
        GattResponse::CharacteristicAdded { characteristic_handle: AttributeHandle(0x0014) },
        GattResponse::CharacteristicAdded { characteristic_handle: AttributeHandle(0x0016) },
    ];
    let ctx = init_gatt_services(&transcript).expect("bootstrap should succeed");
    assert_eq!(ctx.service_handle, AttributeHandle(0x0010));
    assert_eq!(ctx.chars.read, AttributeHandle(0x0012));
    assert_eq!(ctx.chars.write, AttributeHandle(0x0014));
    assert_eq!(ctx.chars.notify, AttributeHandle(0x0016));

    // Calibration fails twice, then succeeds.
    let attempts = vec![
        CalibrationAttempt::CalibrateFailed,
        CalibrationAttempt::ResultInvalid,
        CalibrationAttempt::ResultValid,
    ];
    assert_eq!(run_calibration(&attempts), Some(3));

    // Advertising begins; a central connects.
    let mut session = Session::new(ctx);
    assert_eq!(session.state, SessionState::Advertising);
    handle_event(&mut session, &HostEvent::ConnectionComplete { conn_handle: 1 });
    assert_eq!(session.state, SessionState::Connected);
    assert!(!session.context.is_subscribed);

    // The host writes 0x01 into the notify control descriptor at 0x0018.
    handle_event(&mut session, &HostEvent::AttributeModified {
        attribute_handle: AttributeHandle(0x0018),
        data: vec![0x01],
    });
    assert!(session.context.is_subscribed);

    // A read-permit request for the read characteristic at 0x0012 arrives.
    let action = handle_event(&mut session, &HostEvent::ReadPermitRequest {
        conn_handle: 1,
        attribute_handle: AttributeHandle(0x0012),
    });
    assert_eq!(action, DispatchAction::MeasureThenServe { conn_handle: 1 });

    // The measurement produces [0x01, 0x02, 0x03, 0x04, ...].
    let mut bytes = vec![0u8; 768];
    for (i, b) in bytes.iter_mut().enumerate() {
        *b = (i + 1) as u8;
    }
    let serve = serve_read(&session.context, 1, &MeasureOutcome::Measured { bytes });
    let update = serve.update.expect("the characteristic must be updated");
    assert_eq!(update.characteristic_handle, AttributeHandle(0x0012));
    assert_eq!(update.value, vec![0x01, 0x02, 0x03, 0x04]);
    assert_eq!(serve.grant_conn_handle, 1);

    // The central disconnects: back to advertising, unsubscribed, and the
    // discoverable command is reissued with the original parameters.
    let action = handle_event(&mut session, &HostEvent::DisconnectionComplete);
    assert_eq!(session.state, SessionState::Advertising);
    assert!(!session.context.is_subscribed);
    assert_eq!(action, DispatchAction::Readvertise { parameters: discoverable_parameters() });
}
