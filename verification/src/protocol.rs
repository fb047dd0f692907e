//! Plain-value models of the transport's command and event surface: the
//! attribute-table commands the bootstrap issues, the responses it consumes,
//! the one-time bring-up commands, and the steady-state host events.
//!
//! The transport itself encodes and carries these; this crate only decides
//! which command to send next and what each response or event means.

use vstd::prelude::*;
use crate::address::{DeviceAddress, SecurityKey};

verus! {

/// An opaque numeric reference to a created service or characteristic,
/// assigned by the transport.
#[derive(Clone, Copy, PartialEq, Eq, Structural, Debug)]
pub struct AttributeHandle(pub u16);

/// Characteristic access-mode bit: host-readable.
pub const PROP_READ: u8 = 0x02;
/// Characteristic access-mode bit: host-writable without acknowledgement.
pub const PROP_WRITE_WITHOUT_RESPONSE: u8 = 0x04;
/// Characteristic access-mode bit: host-writable with acknowledgement.
pub const PROP_WRITE: u8 = 0x08;
/// Characteristic access-mode bit: host-subscribable push channel.
pub const PROP_NOTIFY: u8 = 0x10;

/// An attribute-table command, one request/response round trip each.
#[derive(Clone, PartialEq, Eq, Debug)]
pub enum GattCommand {
    /// Create a top-level container ("service") able to hold
    /// `max_attribute_records` attribute records; `primary` marks it a
    /// primary rather than a secondary service.
    AddService { uuid: u16, primary: bool, max_attribute_records: u8 },
    /// Create a sub-resource ("characteristic") under a service.
    AddCharacteristic {
        service_handle: AttributeHandle,
        uuid: u16,
        properties: u8,
        max_value_len: u8,
        /// No special security permission is requested.
        security_permissions: u8,
        /// All attribute events are reported.
        event_mask_all: bool,
        /// Minimum key size for any future encrypted access.
        encryption_key_size: u8,
        variable_length: bool,
    },
    /// Overwrite a characteristic's current value.
    UpdateCharacteristicValue {
        service_handle: AttributeHandle,
        characteristic_handle: AttributeHandle,
        offset: u8,
        value: Vec<u8>,
    },
}

/// The response observed after an attribute-table command: either the
/// syntactically matching success response carrying the created handle, a
/// matching response with a failure status, or an unrelated event.
#[derive(Clone, Copy, PartialEq, Eq, Structural, Debug)]
pub enum GattResponse {
    /// Command-complete for a service creation, success status.
    ServiceAdded { service_handle: AttributeHandle },
    /// Command-complete for a characteristic creation, success status.
    CharacteristicAdded { characteristic_handle: AttributeHandle },
    /// Command-complete for a characteristic-value update, success status.
    ValueUpdated,
    /// A matching command-complete that reports a failure status.
    Failure,
    /// Any event that does not match the outstanding command.
    Unrelated,
}

/// How the device answers pairing-capability queries: it can display a
/// passkey for confirmation but accepts no keyboard entry.
#[derive(Clone, Copy, PartialEq, Eq, Structural, Debug)]
pub enum IoCapability {
    DisplayOnly,
    DisplayConfirm,
    KeyboardOnly,
    NoInputNoOutput,
    KeyboardDisplay,
}

/// Whether the secure-connections pairing feature is offered.
#[derive(Clone, Copy, PartialEq, Eq, Structural, Debug)]
pub enum SecureConnectionSupport {
    NotSupported,
    Optional,
    Mandatory,
}

/// Authentication policy handed to the security layer during bring-up.
#[derive(Clone, Copy, PartialEq, Eq, Structural, Debug)]
pub struct AuthenticationRequirements {
    pub bonding_required: bool,
    pub keypress_notification_support: bool,
    pub mitm_protection_required: bool,
    pub encryption_key_size_min: u8,
    pub encryption_key_size_max: u8,
    /// The pairing pin is requested from the application rather than fixed.
    pub fixed_pin_requested: bool,
    /// The identity address handed out is the public one.
    pub identity_address_public: bool,
    pub secure_connection_support: SecureConnectionSupport,
}

/// The advertising mode entered at the end of bring-up.
#[derive(Clone, Copy, PartialEq, Eq, Structural, Debug)]
pub enum AdvertisingType {
    ConnectableUndirected,
    ConnectableDirected,
    ScannableUndirected,
    NonConnectableUndirected,
}

/// Which remote devices may scan and connect while advertising.
#[derive(Clone, Copy, PartialEq, Eq, Structural, Debug)]
pub enum AdvertisingFilterPolicy {
    AllowConnectionAndScan,
    AllowConnectionWhitelistScan,
    AllowScanWhitelistConnection,
    WhitelistOnly,
}

/// Parameters of the discoverable/advertising state.
#[derive(Clone, PartialEq, Eq, Debug)]
pub struct DiscoverableParameters {
    pub advertising_type: AdvertisingType,
    /// Advertising interval bounds in milliseconds; equal bounds pin the
    /// interval exactly.
    pub advertising_interval_min_ms: u64,
    pub advertising_interval_max_ms: u64,
    /// Advertise under the public address rather than the random one.
    pub use_public_address: bool,
    pub filter_policy: AdvertisingFilterPolicy,
    /// The complete local name carried in the advertising payload.
    pub local_name: Vec<u8>,
    /// Extra advertising payload beyond the name.
    pub advertising_data: Vec<u8>,
    /// Preferred connection interval bounds, if any are declared.
    pub conn_interval_min: Option<u16>,
    pub conn_interval_max: Option<u16>,
}

/// A one-time bring-up command, issued strictly in sequence once per boot.
#[derive(Clone, PartialEq, Eq, Debug)]
pub enum SetupCommand {
    /// Reset the transport.
    Reset,
    ConfigurePublicAddress { address: DeviceAddress },
    ConfigureRandomAddress { address: DeviceAddress },
    ConfigureIdentityRoot { key: SecurityKey },
    ConfigureEncryptionRoot { key: SecurityKey },
    /// Transmit power in the default 0 dBm step.
    SetTxPowerZeroDbm,
    /// Initialize the attribute-database subsystem.
    InitGatt,
    /// Initialize the connectivity-role subsystem, peripheral-only.
    InitGap { peripheral_only: bool, privacy_enabled: bool, device_name_length: u8 },
    SetIoCapability { capability: IoCapability },
    SetAuthenticationRequirements { requirements: AuthenticationRequirements },
    /// Scan-response payload sent alongside advertising.
    SetScanResponseData { data: Vec<u8> },
    /// Enter the discoverable/advertising state.
    SetDiscoverable { parameters: DiscoverableParameters },
}

/// An inbound protocol event read by the dispatch loop, one at a time.
#[derive(Clone, PartialEq, Eq, Debug)]
pub enum HostEvent {
    /// A central connected; the session leaves the advertising state.
    ConnectionComplete { conn_handle: u16 },
    /// The central disconnected; the session returns to advertising.
    DisconnectionComplete,
    /// The host asks permission to read an attribute.
    ReadPermitRequest { conn_handle: u16, attribute_handle: AttributeHandle },
    /// The host asks permission to write an attribute with a value.
    WritePermitRequest { conn_handle: u16, attribute_handle: AttributeHandle, value: Vec<u8> },
    /// The host wrote an attribute; carries the written bytes.
    AttributeModified { attribute_handle: AttributeHandle, data: Vec<u8> },
    /// Any other event kind, observed and otherwise ignored.
    Other,
}

} // verus!
