//! The steady-state event dispatch loop's decision logic: one inbound event
//! at a time is routed by kind, the session state and subscription flag are
//! updated in place, and the action the transport or sensor must perform is
//! handed back as a value.
//!
//! A read-permit request is the one cross-subsystem path: it demands a fresh
//! measurement before the pending read is granted. `handle_event` names that
//! demand and `serve_read` turns the measurement's outcome into the follow-up
//! round trips — the characteristic update on success, and in either case the
//! grant, issued after the measurement and never before.

use vstd::prelude::*;
use crate::bootstrap::BleContext;
use crate::bringup::{discoverable_parameters, is_standard_discoverable};
use crate::protocol::{AttributeHandle, DiscoverableParameters, HostEvent};

verus! {

/// Handle distance from a characteristic's own handle to its subscription
/// control descriptor.
pub const SUBSCRIPTION_DESCRIPTOR_OFFSET: u16 = 2;

/// Size of the buffer handed to the sensor for one measurement.
pub const MEASUREMENT_BUFFER_LEN: usize = 768;

/// How many leading bytes of a fresh measurement overwrite the readable
/// characteristic's value.
pub const MEASUREMENT_PREFIX_LEN: usize = 4;

/// The session's wireless mode: announcing presence, or serving a central.
#[derive(Clone, Copy, PartialEq, Eq, Structural, Debug)]
pub enum SessionState {
    /// Discoverable and connectable, no central attached.
    Advertising,
    /// A central is attached; its subscription state lives in the context.
    Connected,
}

/// The whole per-session state the dispatch loop mutates: the wireless mode
/// and the connection context created by bootstrap.
#[derive(Clone, Copy, PartialEq, Eq, Structural, Debug)]
pub struct Session {
    pub state: SessionState,
    pub context: BleContext,
}

/// What the surrounding program must do after one dispatched event.
#[derive(Clone, PartialEq, Eq, Debug)]
pub enum DispatchAction {
    /// Nothing: the event was observed only.
    Ignore,
    /// Re-enter the discoverable state with the given parameters.
    Readvertise { parameters: DiscoverableParameters },
    /// Perform one measurement, then serve the pending read through
    /// `serve_read` on the outcome.
    MeasureThenServe { conn_handle: u16 },
    /// Accept the pending write unconditionally, echoing the host's value
    /// with a success status.
    AcceptWrite { conn_handle: u16, attribute_handle: AttributeHandle, value: Vec<u8> },
}

/// Whether an attribute handle is the subscription control descriptor of
/// the context's notifiable characteristic.
pub open spec fn targets_notify_descriptor(context: BleContext, handle: AttributeHandle) -> bool {
    handle.0 == context.chars.notify.0 + SUBSCRIPTION_DESCRIPTOR_OFFSET
}

/// Whether a descriptor value enables the subscription: a first byte of
/// `0x01` subscribes, any other value — or none — unsubscribes.
pub open spec fn subscription_enabled(data: Seq<u8>) -> bool {
    data.len() >= 1 && data[0] == 0x01
}

impl Session {
    /// A fresh session: advertising, with the handle table from bootstrap.
    pub fn new(context: BleContext) -> (r: Session)
        ensures
            r.state is Advertising,
            r.context == context,
    {
        Session { state: SessionState::Advertising, context }
    }
}

/// Routes one inbound event and updates the session in place.
///
/// A connection makes the session `Connected`; a disconnection clears the
/// subscription flag, returns the session to `Advertising`, and demands
/// exactly one re-advertisement with the standard parameters. A write to the
/// notify characteristic's control descriptor toggles the subscription flag
/// by its value; a write anywhere else leaves it unchanged. A read-permit
/// request demands one measurement-then-grant; a write-permit request is
/// accepted unconditionally with the host's own value; every other event is
/// ignored. The handle table is never changed.
pub fn handle_event(session: &mut Session, event: &HostEvent) -> (r: DispatchAction)
    ensures
        event is ConnectionComplete ==> {
            &&& final(session).state is Connected
            &&& final(session).context == old(session).context
            &&& r is Ignore
        },
        event is DisconnectionComplete ==> {
            &&& final(session).state is Advertising
            &&& !final(session).context.is_subscribed
            &&& final(session).context.service_handle == old(session).context.service_handle
            &&& final(session).context.chars == old(session).context.chars
            &&& r matches DispatchAction::Readvertise { parameters }
                && is_standard_discoverable(parameters)
        },
        event matches HostEvent::AttributeModified { attribute_handle, data } ==> {
            &&& final(session).state == old(session).state
            &&& final(session).context.service_handle == old(session).context.service_handle
            &&& final(session).context.chars == old(session).context.chars
            &&& targets_notify_descriptor(old(session).context, *attribute_handle)
                ==> final(session).context.is_subscribed == subscription_enabled(data@)
            &&& !targets_notify_descriptor(old(session).context, *attribute_handle)
                ==> final(session).context.is_subscribed == old(session).context.is_subscribed
            &&& r is Ignore
        },
        event matches HostEvent::ReadPermitRequest { conn_handle, attribute_handle } ==> {
            &&& *final(session) == *old(session)
            &&& r matches DispatchAction::MeasureThenServe { conn_handle: c }
                && c == *conn_handle
        },
        event matches HostEvent::WritePermitRequest { conn_handle, attribute_handle, value } ==> {
            &&& *final(session) == *old(session)
            &&& r matches DispatchAction::AcceptWrite {
                    conn_handle: c, attribute_handle: a, value: v,
                }
                && c == *conn_handle && a == *attribute_handle && v@ == value@
        },
        event is Other ==> {
            &&& *final(session) == *old(session)
            &&& r is Ignore
        },
{
    match event {
        HostEvent::ConnectionComplete { conn_handle: _ } => {
            session.state = SessionState::Connected;
            DispatchAction::Ignore
        }
        HostEvent::DisconnectionComplete => {
            session.state = SessionState::Advertising;
            session.context.is_subscribed = false;
            DispatchAction::Readvertise { parameters: discoverable_parameters() }
        }
        HostEvent::AttributeModified { attribute_handle, data } => {
            let descriptor: u32 =
                session.context.chars.notify.0 as u32 + SUBSCRIPTION_DESCRIPTOR_OFFSET as u32;
            if attribute_handle.0 as u32 == descriptor {
                session.context.is_subscribed = data.len() >= 1 && data[0] == 0x01;
            }
            DispatchAction::Ignore
        }
        HostEvent::ReadPermitRequest { conn_handle, attribute_handle: _ } => {
            DispatchAction::MeasureThenServe { conn_handle: *conn_handle }
        }
        HostEvent::WritePermitRequest { conn_handle, attribute_handle, value } => {
            let echoed = value.clone();
            proof {
                assert(echoed@ =~= value@);
            }
            DispatchAction::AcceptWrite {
                conn_handle: *conn_handle,
                attribute_handle: *attribute_handle,
                value: echoed,
            }
        }
        HostEvent::Other => DispatchAction::Ignore,
    }
}

/// The sensor's answer to one demanded measurement.
#[derive(Clone, PartialEq, Eq, Debug)]
pub enum MeasureOutcome {
    /// The measurement succeeded and filled the buffer with these bytes.
    Measured { bytes: Vec<u8> },
    /// The measurement failed; the characteristic keeps its stale value.
    MeasureFailed,
}

/// One characteristic-value overwrite to issue on the transport.
#[derive(Clone, PartialEq, Eq, Debug)]
pub struct CharacteristicUpdate {
    pub service_handle: AttributeHandle,
    pub characteristic_handle: AttributeHandle,
    pub offset: u8,
    pub value: Vec<u8>,
}

/// How a pending read is served: first the update, if any, then the grant.
/// The grant is always present — a failed measurement only skips the update.
#[derive(Clone, PartialEq, Eq, Debug)]
pub struct ReadServe {
    /// Overwrite of the readable characteristic, only on a fresh measurement.
    pub update: Option<CharacteristicUpdate>,
    /// The connection whose pending read is granted, unconditionally.
    pub grant_conn_handle: u16,
}

/// Turns one measurement outcome into the follow-up of a read-permit
/// request: on success the readable characteristic is overwritten with the
/// measurement's fixed-size prefix, and the pending read is granted whether
/// or not the measurement succeeded.
pub fn serve_read(context: &BleContext, conn_handle: u16, measurement: &MeasureOutcome) -> (r:
    ReadServe)
    ensures
        r.grant_conn_handle == conn_handle,
        r.update is Some <==> measurement is Measured,
        measurement matches MeasureOutcome::Measured { bytes } ==> {
            &&& r.update matches Some(u)
            &&& u.service_handle == context.service_handle
            &&& u.characteristic_handle == context.chars.read
            &&& u.offset == 0
            &&& bytes@.len() >= MEASUREMENT_PREFIX_LEN
                ==> u.value@ == bytes@.subrange(0, MEASUREMENT_PREFIX_LEN as int)
            &&& bytes@.len() < MEASUREMENT_PREFIX_LEN ==> u.value@ == bytes@
        },
{
    match measurement {
        MeasureOutcome::Measured { bytes } => {
            let take = if bytes.len() < MEASUREMENT_PREFIX_LEN {
                bytes.len()
            } else {
                MEASUREMENT_PREFIX_LEN
            };
            let mut prefix: Vec<u8> = Vec::new();
            let mut k: usize = 0;
            while k < take
                invariant
                    0 <= k <= take,
                    take <= bytes@.len(),
                    prefix@ == bytes@.subrange(0, k as int),
                decreases take - k,
            {
                prefix.push(bytes[k]);
                proof {
                    assert(prefix@ =~= bytes@.subrange(0, k + 1 as int));
                }
                k += 1;
            }
            ReadServe {
                update: Some(CharacteristicUpdate {
                    service_handle: context.service_handle,
                    characteristic_handle: context.chars.read,
                    offset: 0,
                    value: prefix,
                }),
                grant_conn_handle: conn_handle,
            }
        }
        MeasureOutcome::MeasureFailed => {
            ReadServe { update: None, grant_conn_handle: conn_handle }
        }
    }
}

} // verus!
