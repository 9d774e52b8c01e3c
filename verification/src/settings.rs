//! The configuration surface consumed by the bridge.
//!
//! The on-screen editor owns the text fields and sliders; what the core
//! consumes from it are plain values and two explicit change signals. Editing
//! updates the settings copy; committing a change produces the control
//! message that carries it to the worker through the same channel as the
//! data, so configuration is applied in submission order relative to it.

use vstd::prelude::*;

use crate::msg::Message;
use crate::msg::MessageModel;
use crate::msg::views_of;

verus! {

/// Spec-level picture of the settings.
#[verifier::ext_equal]
pub ghost struct SettingsModel {
    pub osc_server_address: Seq<char>,
    pub osc_server_port: u16,
    pub osc_address_base: Seq<char>,
}

/// The values the configuration surface holds: the server destination and
/// the address-namespace base.
pub struct OscSettings {
    pub osc_server_address: String,
    pub osc_server_port: u16,
    pub osc_address_base: String,
}

impl View for OscSettings {
    type V = SettingsModel;

    open spec fn view(&self) -> SettingsModel {
        SettingsModel {
            osc_server_address: self.osc_server_address@,
            osc_server_port: self.osc_server_port,
            osc_address_base: self.osc_address_base@,
        }
    }
}

/// One event from the configuration surface: an edit of a field, or a commit
/// that must be signalled to the worker.
pub enum DawOutEditorEvent {
    SetOscServerAddress(String),
    SetOscServerPort(u16),
    SetOscAddressBase(String),
    ConnectionChange,
    AddressBaseChange,
}

/// Applies one editor event: edits update the stored settings and produce no
/// message; the two commit events leave the settings alone and produce the
/// control message that carries the current values to the worker.
pub fn apply_editor_event(settings: &mut OscSettings, event: DawOutEditorEvent) -> (r: Option<
    Message,
>)
    ensures
        match event {
            DawOutEditorEvent::SetOscServerAddress(ip) => final(settings)@ == (SettingsModel {
                osc_server_address: ip@,
                ..old(settings)@
            }) && r is None,
            DawOutEditorEvent::SetOscServerPort(port) => final(settings)@ == (SettingsModel {
                osc_server_port: port,
                ..old(settings)@
            }) && r is None,
            DawOutEditorEvent::SetOscAddressBase(base) => final(settings)@ == (SettingsModel {
                osc_address_base: base@,
                ..old(settings)@
            }) && r is None,
            DawOutEditorEvent::ConnectionChange => final(settings)@ == old(settings)@ && (r
                matches Some(m) && m@ == MessageModel::ConnectionChange {
                host: old(settings)@.osc_server_address,
                port: old(settings)@.osc_server_port,
            }),
            DawOutEditorEvent::AddressBaseChange => final(settings)@ == old(settings)@ && (r
                matches Some(m) && m@ == MessageModel::AddressBaseChange {
                namespace: old(settings)@.osc_address_base,
            }),
        },
{
    match event {
        DawOutEditorEvent::SetOscServerAddress(ip) => {
            settings.osc_server_address = ip;
            None
        },
        DawOutEditorEvent::SetOscServerPort(port) => {
            settings.osc_server_port = port;
            None
        },
        DawOutEditorEvent::SetOscAddressBase(base) => {
            settings.osc_address_base = base;
            None
        },
        DawOutEditorEvent::ConnectionChange => Some(
            Message::ConnectionChange {
                host: settings.osc_server_address.clone(),
                port: settings.osc_server_port,
            },
        ),
        DawOutEditorEvent::AddressBaseChange => Some(
            Message::AddressBaseChange { namespace: settings.osc_address_base.clone() },
        ),
    }
}

/// How a configure call proceeds.
pub enum ConfigurePlan {
    /// The stream is not running under real-time guarantees: configuration
    /// fails outright and the stream does not start.
    Reject,
    /// No worker is running yet: bind and connect the socket and start one.
    StartWorker,
    /// A worker is already running: leave it alone and send it the current
    /// destination and namespace instead.
    UpdateWorker,
}

/// Decides what a configure call does, from whether the process runs under
/// real-time guarantees and whether the worker thread is already alive.
pub fn plan_configure(realtime: bool, worker_running: bool) -> (r: ConfigurePlan)
    ensures
        !realtime ==> r is Reject,
        realtime && !worker_running ==> r is StartWorker,
        realtime && worker_running ==> r is UpdateWorker,
{
    if !realtime {
        ConfigurePlan::Reject
    } else if worker_running {
        ConfigurePlan::UpdateWorker
    } else {
        ConfigurePlan::StartWorker
    }
}

/// The two control messages a reconfiguration sends to a running worker: the
/// connection change first, then the address-base change, in that order, so
/// both are applied before any data enqueued afterwards.
pub fn reconfigure_messages(settings: &OscSettings) -> (msgs: Vec<Message>)
    ensures
        views_of(msgs@) == seq![
            MessageModel::ConnectionChange {
                host: settings@.osc_server_address,
                port: settings@.osc_server_port,
            },
            MessageModel::AddressBaseChange { namespace: settings@.osc_address_base },
        ],
{
    let mut msgs: Vec<Message> = Vec::new();
    msgs.push(
        Message::ConnectionChange {
            host: settings.osc_server_address.clone(),
            port: settings.osc_server_port,
        },
    );
    msgs.push(Message::AddressBaseChange { namespace: settings.osc_address_base.clone() });
    proof {
        assert(views_of(msgs@) =~~= seq![
            MessageModel::ConnectionChange {
                host: settings@.osc_server_address,
                port: settings@.osc_server_port,
            },
            MessageModel::AddressBaseChange { namespace: settings@.osc_address_base },
        ]);
    }
    msgs
}

} // verus!
