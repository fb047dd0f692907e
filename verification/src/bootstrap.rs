//! Resource bootstrap: building the fixed attribute table — one service
//! holding a readable, a writable and a notifiable characteristic — over the
//! command/response transport.
//!
//! Every step is one round trip. The `Bootstrap` machine names the command to
//! send at each stage and consumes one response per round trip; only a
//! syntactically matching success response advances it — carrying the step's
//! handle where one is produced — and any other response fails the whole
//! bootstrap. The machine never hands out a partially populated handle table:
//! `result` is `Some` exactly when every step matched.

use vstd::prelude::*;
use crate::protocol::{
    AttributeHandle, GattCommand, GattResponse, PROP_NOTIFY, PROP_READ, PROP_WRITE,
    PROP_WRITE_WITHOUT_RESPONSE,
};

verus! {

/// 16-bit identifier of the service container.
pub const SERVICE_UUID: u16 = 0x500;
/// 16-bit identifier of the host-readable characteristic.
pub const READ_CHAR_UUID: u16 = 0x501;
/// 16-bit identifier of the host-writable characteristic.
pub const WRITE_CHAR_UUID: u16 = 0x502;
/// 16-bit identifier of the subscribable characteristic.
pub const NOTIFY_CHAR_UUID: u16 = 0x503;
/// Maximum number of attribute records reserved under the service.
pub const MAX_ATTRIBUTE_RECORDS: u8 = 8;
/// Declared maximum value size of each characteristic.
pub const CHAR_VALUE_LEN: u8 = 32;
/// Minimum key size for any future encrypted access.
pub const ENCRYPTION_KEY_SIZE: u8 = 7;

/// The default value written into the readable characteristic before its
/// handle is returned: the fixed ASCII greeting
/// `Hello aa bbsda from embassy!`.
pub open spec fn spec_read_default() -> Seq<u8> {
    seq![
        0x48u8, 0x65u8, 0x6cu8, 0x6cu8, 0x6fu8, 0x20u8, 0x61u8, 0x61u8, 0x20u8, 0x62u8,
        0x62u8, 0x73u8, 0x64u8, 0x61u8, 0x20u8, 0x66u8, 0x72u8, 0x6fu8, 0x6du8, 0x20u8,
        0x65u8, 0x6du8, 0x62u8, 0x61u8, 0x73u8, 0x73u8, 0x79u8, 0x21u8,
    ]
}

/// Builds the readable characteristic's default value, the fixed ASCII
/// greeting.
pub fn read_default_value() -> (r: Vec<u8>)
    ensures
        r@ == spec_read_default(),
{
    let bytes: [u8; 28] = [
        0x48, 0x65, 0x6c, 0x6c, 0x6f, 0x20, 0x61, 0x61, 0x20, 0x62,
        0x62, 0x73, 0x64, 0x61, 0x20, 0x66, 0x72, 0x6f, 0x6d, 0x20,
        0x65, 0x6d, 0x62, 0x61, 0x73, 0x73, 0x79, 0x21,
    ];
    let v = vstd::slice::slice_to_vec(vstd::array::array_as_slice(&bytes));
    proof {
        assert(v@ =~= spec_read_default());
    }
    v
}

/// The three characteristic handles of the attribute table, tagged by role.
#[derive(Clone, Copy, PartialEq, Eq, Structural, Debug)]
pub struct CharHandles {
    /// Host-readable; each read triggers a fresh measurement.
    pub read: AttributeHandle,
    /// Host-writable pass-through sink.
    pub write: AttributeHandle,
    /// Host-subscribable push channel.
    pub notify: AttributeHandle,
}

/// The session context: the handle table produced by bootstrap plus the one
/// field mutated during the session, the subscription flag.
#[derive(Clone, Copy, PartialEq, Eq, Structural, Debug)]
pub struct BleContext {
    pub service_handle: AttributeHandle,
    pub chars: CharHandles,
    pub is_subscribed: bool,
}

/// Extracts the service handle from the response to a service-creation
/// round trip; anything but the matching success response is a failure.
pub fn gatt_add_service(response: &GattResponse) -> (r: Result<AttributeHandle, ()>)
    ensures
        r is Ok <==> response is ServiceAdded,
        response matches GattResponse::ServiceAdded { service_handle }
            ==> r == Ok::<AttributeHandle, ()>(*service_handle),
{
    match response {
        GattResponse::ServiceAdded { service_handle } => Ok(*service_handle),
        _ => Err(()),
    }
}

/// Extracts the characteristic handle from the response to a
/// characteristic-creation round trip; anything but the matching success
/// response is a failure.
pub fn gatt_add_char(response: &GattResponse) -> (r: Result<AttributeHandle, ()>)
    ensures
        r is Ok <==> response is CharacteristicAdded,
        response matches GattResponse::CharacteristicAdded { characteristic_handle }
            ==> r == Ok::<AttributeHandle, ()>(*characteristic_handle),
{
    match response {
        GattResponse::CharacteristicAdded { characteristic_handle } => Ok(*characteristic_handle),
        _ => Err(()),
    }
}

/// The bootstrap's round trips, in the order they are performed.
#[derive(Clone, Copy, PartialEq, Eq, Structural, Debug)]
pub enum BootstrapStage {
    /// Create the service container.
    AddService,
    /// Create the readable characteristic.
    AddReadCharacteristic,
    /// Write the readable characteristic's default value.
    SetReadDefault,
    /// Create the writable characteristic.
    AddWriteCharacteristic,
    /// Create the subscribable characteristic.
    AddNotifyCharacteristic,
    /// Every step matched; the handle table is complete.
    Complete,
    /// A step received a non-matching response; nothing is handed out.
    Failed,
}

/// The bootstrap machine: tracks the current round trip and the handles
/// gathered so far. Drive it by sending `next_command`, reading one
/// response, and feeding it to `on_response`.
#[derive(Clone, Copy, PartialEq, Eq, Structural, Debug)]
pub struct Bootstrap {
    pub stage: BootstrapStage,
    pub service_handle: AttributeHandle,
    pub read_handle: AttributeHandle,
    pub write_handle: AttributeHandle,
    pub notify_handle: AttributeHandle,
}

impl Bootstrap {
    /// A fresh machine, about to create the service.
    pub fn new() -> (r: Bootstrap)
        ensures
            r.stage is AddService,
    {
        Bootstrap {
            stage: BootstrapStage::AddService,
            service_handle: AttributeHandle(0),
            read_handle: AttributeHandle(0),
            write_handle: AttributeHandle(0),
            notify_handle: AttributeHandle(0),
        }
    }

    /// Whether the machine is done, successfully or not.
    pub fn is_terminal(&self) -> (r: bool)
        ensures
            r == (self.stage is Complete || self.stage is Failed),
    {
        match self.stage {
            BootstrapStage::Complete | BootstrapStage::Failed => true,
            _ => false,
        }
    }

    /// The command to send for the current round trip, with the fixed
    /// identifiers, access modes, sizes and default value of the attribute
    /// table; `None` once the machine is done.
    pub fn next_command(&self) -> (r: Option<GattCommand>)
        ensures
            self.stage is AddService ==> (r matches Some(c)
                && c matches GattCommand::AddService { uuid, primary, max_attribute_records }
                && uuid == SERVICE_UUID && primary
                && max_attribute_records == MAX_ATTRIBUTE_RECORDS),
            self.stage is AddReadCharacteristic ==> (r matches Some(c)
                && c matches GattCommand::AddCharacteristic {
                    service_handle, uuid, properties, max_value_len,
                    security_permissions, event_mask_all, encryption_key_size, variable_length,
                }
                && service_handle == self.service_handle
                && uuid == READ_CHAR_UUID
                && properties == PROP_READ
                && max_value_len == CHAR_VALUE_LEN
                && security_permissions == 0
                && event_mask_all
                && encryption_key_size == ENCRYPTION_KEY_SIZE
                && variable_length),
            self.stage is SetReadDefault ==> (r matches Some(c)
                && c matches GattCommand::UpdateCharacteristicValue {
                    service_handle, characteristic_handle, offset, value,
                }
                && service_handle == self.service_handle
                && characteristic_handle == self.read_handle
                && offset == 0
                && value@ == spec_read_default()),
            self.stage is AddWriteCharacteristic ==> (r matches Some(c)
                && c matches GattCommand::AddCharacteristic {
                    service_handle, uuid, properties, max_value_len,
                    security_permissions, event_mask_all, encryption_key_size, variable_length,
                }
                && service_handle == self.service_handle
                && uuid == WRITE_CHAR_UUID
                && properties == (PROP_WRITE_WITHOUT_RESPONSE | PROP_WRITE | PROP_READ)
                && max_value_len == CHAR_VALUE_LEN
                && security_permissions == 0
                && event_mask_all
                && encryption_key_size == ENCRYPTION_KEY_SIZE
                && variable_length),
            self.stage is AddNotifyCharacteristic ==> (r matches Some(c)
                && c matches GattCommand::AddCharacteristic {
                    service_handle, uuid, properties, max_value_len,
                    security_permissions, event_mask_all, encryption_key_size, variable_length,
                }
                && service_handle == self.service_handle
                && uuid == NOTIFY_CHAR_UUID
                && properties == (PROP_NOTIFY | PROP_READ)
                && max_value_len == CHAR_VALUE_LEN
                && security_permissions == 0
                && event_mask_all
                && encryption_key_size == ENCRYPTION_KEY_SIZE
                && variable_length),
            self.stage is Complete ==> r is None,
            self.stage is Failed ==> r is None,
    {
        match self.stage {
            BootstrapStage::AddService => Some(GattCommand::AddService {
                uuid: SERVICE_UUID,
                primary: true,
                max_attribute_records: MAX_ATTRIBUTE_RECORDS,
            }),
            BootstrapStage::AddReadCharacteristic => Some(GattCommand::AddCharacteristic {
                service_handle: self.service_handle,
                uuid: READ_CHAR_UUID,
                properties: PROP_READ,
                max_value_len: CHAR_VALUE_LEN,
                security_permissions: 0,
                event_mask_all: true,
                encryption_key_size: ENCRYPTION_KEY_SIZE,
                variable_length: true,
            }),
            BootstrapStage::SetReadDefault => Some(GattCommand::UpdateCharacteristicValue {
                service_handle: self.service_handle,
                characteristic_handle: self.read_handle,
                offset: 0,
                value: read_default_value(),
            }),
            BootstrapStage::AddWriteCharacteristic => Some(GattCommand::AddCharacteristic {
                service_handle: self.service_handle,
                uuid: WRITE_CHAR_UUID,
                properties: PROP_WRITE_WITHOUT_RESPONSE | PROP_WRITE | PROP_READ,
                max_value_len: CHAR_VALUE_LEN,
                security_permissions: 0,
                event_mask_all: true,
                encryption_key_size: ENCRYPTION_KEY_SIZE,
                variable_length: true,
            }),
            BootstrapStage::AddNotifyCharacteristic => Some(GattCommand::AddCharacteristic {
                service_handle: self.service_handle,
                uuid: NOTIFY_CHAR_UUID,
                properties: PROP_NOTIFY | PROP_READ,
                max_value_len: CHAR_VALUE_LEN,
                security_permissions: 0,
                event_mask_all: true,
                encryption_key_size: ENCRYPTION_KEY_SIZE,
                variable_length: true,
            }),
            BootstrapStage::Complete | BootstrapStage::Failed => None,
        }
    }

    /// Consumes the one response of the current round trip. Every stage —
    /// the default-value write included — advances only on its matching
    /// success response and fails the bootstrap on anything else; a finished
    /// machine ignores further responses.
    pub fn on_response(&mut self, response: &GattResponse)
        ensures
            old(self).stage is AddService ==> {
                &&& response matches GattResponse::ServiceAdded { service_handle } ==> {
                    &&& final(self).stage is AddReadCharacteristic
                    &&& final(self).service_handle == service_handle
                }
                &&& !(response is ServiceAdded) ==> final(self).stage is Failed
            },
            old(self).stage is AddReadCharacteristic ==> {
                &&& response matches GattResponse::CharacteristicAdded { characteristic_handle } ==> {
                    &&& final(self).stage is SetReadDefault
                    &&& final(self).read_handle == characteristic_handle
                }
                &&& !(response is CharacteristicAdded) ==> final(self).stage is Failed
            },
            old(self).stage is SetReadDefault ==> {
                &&& response is ValueUpdated ==> final(self).stage is AddWriteCharacteristic
                &&& !(response is ValueUpdated) ==> final(self).stage is Failed
            },
            old(self).stage is AddWriteCharacteristic ==> {
                &&& response matches GattResponse::CharacteristicAdded { characteristic_handle } ==> {
                    &&& final(self).stage is AddNotifyCharacteristic
                    &&& final(self).write_handle == characteristic_handle
                }
                &&& !(response is CharacteristicAdded) ==> final(self).stage is Failed
            },
            old(self).stage is AddNotifyCharacteristic ==> {
                &&& response matches GattResponse::CharacteristicAdded { characteristic_handle } ==> {
                    &&& final(self).stage is Complete
                    &&& final(self).notify_handle == characteristic_handle
                }
                &&& !(response is CharacteristicAdded) ==> final(self).stage is Failed
            },
            old(self).stage is Complete ==> *final(self) == *old(self),
            old(self).stage is Failed ==> *final(self) == *old(self),
            final(self).service_handle == old(self).service_handle
                || (old(self).stage is AddService && response is ServiceAdded),
            final(self).read_handle == old(self).read_handle
                || (old(self).stage is AddReadCharacteristic && response is CharacteristicAdded),
            final(self).write_handle == old(self).write_handle
                || (old(self).stage is AddWriteCharacteristic && response is CharacteristicAdded),
            final(self).notify_handle == old(self).notify_handle
                || (old(self).stage is AddNotifyCharacteristic && response is CharacteristicAdded),
    {
        match self.stage {
            BootstrapStage::AddService => {
                match gatt_add_service(response) {
                    Ok(handle) => {
                        self.service_handle = handle;
                        self.stage = BootstrapStage::AddReadCharacteristic;
                    }
                    Err(()) => {
                        self.stage = BootstrapStage::Failed;
                    }
                }
            }
            BootstrapStage::AddReadCharacteristic => {
                match gatt_add_char(response) {
                    Ok(handle) => {
                        self.read_handle = handle;
                        self.stage = BootstrapStage::SetReadDefault;
                    }
                    Err(()) => {
                        self.stage = BootstrapStage::Failed;
                    }
                }
            }
            BootstrapStage::SetReadDefault => {
                match response {
                    GattResponse::ValueUpdated => {
                        self.stage = BootstrapStage::AddWriteCharacteristic;
                    }
                    _ => {
                        self.stage = BootstrapStage::Failed;
                    }
                }
            }
            BootstrapStage::AddWriteCharacteristic => {
                match gatt_add_char(response) {
                    Ok(handle) => {
                        self.write_handle = handle;
                        self.stage = BootstrapStage::AddNotifyCharacteristic;
                    }
                    Err(()) => {
                        self.stage = BootstrapStage::Failed;
                    }
                }
            }
            BootstrapStage::AddNotifyCharacteristic => {
                match gatt_add_char(response) {
                    Ok(handle) => {
                        self.notify_handle = handle;
                        self.stage = BootstrapStage::Complete;
                    }
                    Err(()) => {
                        self.stage = BootstrapStage::Failed;
                    }
                }
            }
            BootstrapStage::Complete | BootstrapStage::Failed => {}
        }
    }

    /// The finished handle table: `Some` exactly when every step matched,
    /// with the subscription flag cleared.
    pub fn result(&self) -> (r: Option<BleContext>)
        ensures
            r is Some <==> self.stage is Complete,
            r matches Some(ctx) ==> {
                &&& ctx.service_handle == self.service_handle
                &&& ctx.chars.read == self.read_handle
                &&& ctx.chars.write == self.write_handle
                &&& ctx.chars.notify == self.notify_handle
                &&& !ctx.is_subscribed
            },
    {
        match self.stage {
            BootstrapStage::Complete => Some(BleContext {
                service_handle: self.service_handle,
                chars: CharHandles {
                    read: self.read_handle,
                    write: self.write_handle,
                    notify: self.notify_handle,
                },
                is_subscribed: false,
            }),
            _ => None,
        }
    }
}

/// A response transcript completes the bootstrap exactly when it is long
/// enough and every round trip — the service, the readable characteristic,
/// its default-value write, then the two remaining characteristics — received
/// its matching success response.
pub open spec fn bootstrap_transcript_ok(rs: Seq<GattResponse>) -> bool {
    &&& rs.len() >= 5
    &&& rs[0] is ServiceAdded
    &&& rs[1] is CharacteristicAdded
    &&& rs[2] is ValueUpdated
    &&& rs[3] is CharacteristicAdded
    &&& rs[4] is CharacteristicAdded
}

/// Runs the whole bootstrap against an in-order response transcript, one
/// response per round trip. Returns the fully populated handle table when
/// every step matched; any non-matching response — or a transcript that ends
/// early — yields the single opaque setup failure and no table at all.
pub fn init_gatt_services(responses: &Vec<GattResponse>) -> (r: Result<BleContext, ()>)
    ensures
        r is Ok <==> bootstrap_transcript_ok(responses@),
        r matches Ok(ctx) ==> {
            &&& responses@[0] matches GattResponse::ServiceAdded { service_handle }
                && ctx.service_handle == service_handle
            &&& responses@[1] matches GattResponse::CharacteristicAdded { characteristic_handle }
                && ctx.chars.read == characteristic_handle
            &&& responses@[3] matches GattResponse::CharacteristicAdded { characteristic_handle }
                && ctx.chars.write == characteristic_handle
            &&& responses@[4] matches GattResponse::CharacteristicAdded { characteristic_handle }
                && ctx.chars.notify == characteristic_handle
            &&& !ctx.is_subscribed
        },
{
    let ghost rs = responses@;
    let mut machine = Bootstrap::new();
    let mut i: usize = 0;
    while i < responses.len() && !machine.is_terminal()
        invariant
            0 <= i <= rs.len(),
            rs == responses@,
            machine.stage is AddService ==> i == 0,
            machine.stage is AddReadCharacteristic ==> {
                &&& i == 1
                &&& rs[0] matches GattResponse::ServiceAdded { service_handle }
                    && machine.service_handle == service_handle
            },
            machine.stage is SetReadDefault ==> {
                &&& i == 2
                &&& rs[0] matches GattResponse::ServiceAdded { service_handle }
                    && machine.service_handle == service_handle
                &&& rs[1] matches GattResponse::CharacteristicAdded { characteristic_handle }
                    && machine.read_handle == characteristic_handle
            },
            machine.stage is AddWriteCharacteristic ==> {
                &&& i == 3
                &&& rs[0] matches GattResponse::ServiceAdded { service_handle }
                    && machine.service_handle == service_handle
                &&& rs[1] matches GattResponse::CharacteristicAdded { characteristic_handle }
                    && machine.read_handle == characteristic_handle
                &&& rs[2] is ValueUpdated
            },
            machine.stage is AddNotifyCharacteristic ==> {
                &&& i == 4
                &&& rs[0] matches GattResponse::ServiceAdded { service_handle }
                    && machine.service_handle == service_handle
                &&& rs[1] matches GattResponse::CharacteristicAdded { characteristic_handle }
                    && machine.read_handle == characteristic_handle
                &&& rs[2] is ValueUpdated
                &&& rs[3] matches GattResponse::CharacteristicAdded { characteristic_handle }
                    && machine.write_handle == characteristic_handle
            },
            machine.stage is Complete ==> {
                &&& i == 5
                &&& bootstrap_transcript_ok(rs)
                &&& rs[0] matches GattResponse::ServiceAdded { service_handle }
                    && machine.service_handle == service_handle
                &&& rs[1] matches GattResponse::CharacteristicAdded { characteristic_handle }
                    && machine.read_handle == characteristic_handle
                &&& rs[3] matches GattResponse::CharacteristicAdded { characteristic_handle }
                    && machine.write_handle == characteristic_handle
                &&& rs[4] matches GattResponse::CharacteristicAdded { characteristic_handle }
                    && machine.notify_handle == characteristic_handle
            },
            machine.stage is Failed ==> !bootstrap_transcript_ok(rs),
        decreases rs.len() - i,
    {
        machine.on_response(&responses[i]);
        i += 1;
    }
    match machine.result() {
        Some(ctx) => Ok(ctx),
        None => {
            proof {
                if machine.stage is Failed {
                } else {
                    assert(i == rs.len());
                    assert(rs.len() < 5);
                }
            }
            Err(())
        }
    }
}

} // verus!
