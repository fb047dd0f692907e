//! The advertising controller: the fixed bring-up command sequence executed
//! once per boot, and the discoverable-state parameters that are re-issued
//! after every disconnect.
//!
//! Each command is one request/response round trip on the transport; the
//! surrounding program sends them strictly in the order produced here.

use vstd::prelude::*;
use crate::address::{
    get_bd_addr, get_erk, get_irk, get_random_addr, spec_encryption_root, spec_identity_root,
    spec_public_address, spec_random_address, HardwareSeed,
};
use crate::protocol::{
    AdvertisingFilterPolicy, AdvertisingType, AuthenticationRequirements, DiscoverableParameters,
    IoCapability, SecureConnectionSupport, SetupCommand,
};

verus! {

/// Advertising interval, both bounds, in milliseconds.
pub const ADVERTISING_INTERVAL_MS: u64 = 100;

/// Length reserved for the device name in the attribute database.
pub const DEVICE_NAME_LENGTH: u8 = 7;

/// The fixed short local name, `TXTX` in ASCII.
pub open spec fn spec_local_name() -> Seq<u8> {
    seq![0x54u8, 0x58u8, 0x54u8, 0x58u8]
}

/// The fixed 4-byte scan-response payload, `TXTX` in ASCII.
pub open spec fn spec_scan_response() -> Seq<u8> {
    seq![0x54u8, 0x58u8, 0x54u8, 0x58u8]
}

/// The authentication policy used at bring-up: no mandatory bonding, no
/// MITM requirement, an 8 to 16 byte key range, an application-requested
/// pin, the public identity address, and optional secure connections.
pub open spec fn is_standard_auth_requirements(a: AuthenticationRequirements) -> bool {
    &&& !a.bonding_required
    &&& !a.keypress_notification_support
    &&& !a.mitm_protection_required
    &&& a.encryption_key_size_min == 8
    &&& a.encryption_key_size_max == 16
    &&& a.fixed_pin_requested
    &&& a.identity_address_public
    &&& a.secure_connection_support is Optional
}

/// The discoverable-state parameters used at bring-up and after every
/// disconnect: connectable-undirected advertising at a fixed 100 ms
/// interval, public address, open filter policy, the fixed local name, no
/// extra payload, and no connection-interval preference.
pub open spec fn is_standard_discoverable(p: DiscoverableParameters) -> bool {
    &&& p.advertising_type is ConnectableUndirected
    &&& p.advertising_interval_min_ms == ADVERTISING_INTERVAL_MS
    &&& p.advertising_interval_max_ms == ADVERTISING_INTERVAL_MS
    &&& p.use_public_address
    &&& p.filter_policy is AllowConnectionAndScan
    &&& p.local_name@ == spec_local_name()
    &&& p.advertising_data@ == Seq::<u8>::empty()
    &&& p.conn_interval_min is None
    &&& p.conn_interval_max is None
}

/// The full bring-up command sequence for a given seed, strictly in order:
/// reset, both addresses, both security roots, transmit power, the two
/// subsystem initializations, pairing capability and policy, the
/// scan-response payload, and finally the discoverable state.
pub open spec fn is_bring_up_sequence(seed: HardwareSeed, cmds: Seq<SetupCommand>) -> bool {
    &&& cmds.len() == 12
    &&& cmds[0] is Reset
    &&& cmds[1] matches SetupCommand::ConfigurePublicAddress { address }
        && address.bytes@ == spec_public_address(seed)
    &&& cmds[2] matches SetupCommand::ConfigureRandomAddress { address }
        && address.bytes@ == spec_random_address(seed)
    &&& cmds[3] matches SetupCommand::ConfigureIdentityRoot { key }
        && key.bytes@ == spec_identity_root()
    &&& cmds[4] matches SetupCommand::ConfigureEncryptionRoot { key }
        && key.bytes@ == spec_encryption_root()
    &&& cmds[5] is SetTxPowerZeroDbm
    &&& cmds[6] is InitGatt
    &&& cmds[7] matches SetupCommand::InitGap { peripheral_only, privacy_enabled, device_name_length }
        && peripheral_only && !privacy_enabled && device_name_length == DEVICE_NAME_LENGTH
    &&& cmds[8] matches SetupCommand::SetIoCapability { capability }
        && capability is DisplayConfirm
    &&& cmds[9] matches SetupCommand::SetAuthenticationRequirements { requirements }
        && is_standard_auth_requirements(requirements)
    &&& cmds[10] matches SetupCommand::SetScanResponseData { data }
        && data@ == spec_scan_response()
    &&& cmds[11] matches SetupCommand::SetDiscoverable { parameters }
        && is_standard_discoverable(parameters)
}

/// Builds the fixed local name, `TXTX` in ASCII.
pub fn local_name() -> (r: Vec<u8>)
    ensures
        r@ == spec_local_name(),
{
    let mut v: Vec<u8> = Vec::new();
    v.push(0x54);
    v.push(0x58);
    v.push(0x54);
    v.push(0x58);
    proof {
        assert(v@ =~= spec_local_name());
    }
    v
}

/// Builds the discoverable-state parameters; the same value serves the
/// initial bring-up and every re-advertisement after a disconnect.
pub fn discoverable_parameters() -> (r: DiscoverableParameters)
    ensures
        is_standard_discoverable(r),
{
    let r = DiscoverableParameters {
        advertising_type: AdvertisingType::ConnectableUndirected,
        advertising_interval_min_ms: ADVERTISING_INTERVAL_MS,
        advertising_interval_max_ms: ADVERTISING_INTERVAL_MS,
        use_public_address: true,
        filter_policy: AdvertisingFilterPolicy::AllowConnectionAndScan,
        local_name: local_name(),
        advertising_data: Vec::new(),
        conn_interval_min: None,
        conn_interval_max: None,
    };
    proof {
        assert(r.advertising_data@ =~= Seq::<u8>::empty());
    }
    r
}

/// Builds the bring-up authentication policy.
pub fn authentication_requirements() -> (r: AuthenticationRequirements)
    ensures
        is_standard_auth_requirements(r),
{
    AuthenticationRequirements {
        bonding_required: false,
        keypress_notification_support: false,
        mitm_protection_required: false,
        encryption_key_size_min: 8,
        encryption_key_size_max: 16,
        fixed_pin_requested: true,
        identity_address_public: true,
        secure_connection_support: SecureConnectionSupport::Optional,
    }
}

/// Builds the full bring-up command sequence for the given hardware seed.
pub fn bring_up_commands(seed: &HardwareSeed) -> (r: Vec<SetupCommand>)
    ensures
        is_bring_up_sequence(*seed, r@),
{
    let mut cmds: Vec<SetupCommand> = Vec::new();
    cmds.push(SetupCommand::Reset);
    cmds.push(SetupCommand::ConfigurePublicAddress { address: get_bd_addr(seed) });
    cmds.push(SetupCommand::ConfigureRandomAddress { address: get_random_addr(seed) });
    cmds.push(SetupCommand::ConfigureIdentityRoot { key: get_irk() });
    cmds.push(SetupCommand::ConfigureEncryptionRoot { key: get_erk() });
    cmds.push(SetupCommand::SetTxPowerZeroDbm);
    cmds.push(SetupCommand::InitGatt);
    cmds.push(SetupCommand::InitGap {
        peripheral_only: true,
        privacy_enabled: false,
        device_name_length: DEVICE_NAME_LENGTH,
    });
    cmds.push(SetupCommand::SetIoCapability { capability: IoCapability::DisplayConfirm });
    cmds.push(SetupCommand::SetAuthenticationRequirements {
        requirements: authentication_requirements(),
    });
    let mut scan_response: Vec<u8> = Vec::new();
    scan_response.push(0x54);
    scan_response.push(0x58);
    scan_response.push(0x54);
    scan_response.push(0x58);
    proof {
        assert(scan_response@ =~= spec_scan_response());
    }
    cmds.push(SetupCommand::SetScanResponseData { data: scan_response });
    cmds.push(SetupCommand::SetDiscoverable { parameters: discoverable_parameters() });
    cmds
}

} // verus!
