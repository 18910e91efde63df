//! The bluetooth domain: adapters and devices, each known by an object path,
//! and the processor of the domain's messages.
//!
//! A message is processed in two steps, since part of the state only changes
//! once the backend has agreed. [`BluetoothModel::request`] applies what
//! changes at once and names the call that the backend is to receive;
//! [`BluetoothModel::confirm`] takes the backend's reply to that call and
//! applies the rest.

use crate::path_store::{filed_by_path, to_path_map, PathStore, TPath};
use vstd::prelude::*;

verus! {

/// What the button of a bluetooth device does.
#[derive(Debug, Clone, Copy, PartialEq, Eq, Structural)]
pub enum BluetoothButtonVariant {
    Connect,
    Disconnect,
}

/// The pages of the bluetooth domain.
#[derive(Default, Debug, Clone, Copy, PartialEq, Eq, Structural)]
pub enum BluetoothPageId {
    #[default]
    Devices,
    Adapter,
}

/// Where a button stands among the buttons of a list, which decides the
/// corners that are rounded.
#[derive(Debug, Clone, Copy, PartialEq, Eq, Structural)]
pub enum ButtonAt {
    Start,
    Between,
    End,
    Only,
}

impl ButtonAt {
    /// The place of button `index` in a list of `length` buttons: a single
    /// button is `Only`; of several the first is `End`, the last is `Start`
    /// and the others are `Between`.
    pub open spec fn place(index: int, length: int) -> ButtonAt {
        if length == 1 {
            ButtonAt::Only
        } else if index == 0 {
            ButtonAt::End
        } else if index == length - 1 {
            ButtonAt::Start
        } else {
            ButtonAt::Between
        }
    }

    /// The place of button `index` in a list of `length` buttons.
    pub fn at(index: usize, length: usize) -> (place: ButtonAt)
        requires
            index == 0 || length > 0,
        ensures
            place == ButtonAt::place(index as int, length as int),
    {
        if length == 1 {
            ButtonAt::Only
        } else if index == 0 {
            ButtonAt::End
        } else if index == length - 1 {
            ButtonAt::Start
        } else {
            ButtonAt::Between
        }
    }
}

/// The view of a [`BluetoothDevice`].
pub struct BluetoothDeviceView {
    pub path: Seq<char>,
    pub rssi: i16,
    pub alias: Seq<char>,
    pub name: Seq<char>,
    pub adapter: Seq<char>,
    pub trusted: bool,
    pub bonded: bool,
    pub paired: bool,
    pub blocked: bool,
    pub connected: bool,
    pub icon: Seq<char>,
    pub address: Seq<char>,
    pub conect_in_progress: bool,
}

/// A bluetooth device.
#[derive(Debug, PartialEq, Eq)]
pub struct BluetoothDevice {
    pub path: String,
    pub rssi: i16,
    pub alias: String,
    pub name: String,
    /// Path of the adapter that sees the device.
    pub adapter: String,
    pub trusted: bool,
    pub bonded: bool,
    pub paired: bool,
    pub blocked: bool,
    pub connected: bool,
    pub icon: String,
    pub address: String,
    /// Set from the moment a connection or disconnection was asked for. It
    /// is local state: the backend neither sends nor receives it.
    pub conect_in_progress: bool,
}

impl View for BluetoothDevice {
    type V = BluetoothDeviceView;

    open spec fn view(&self) -> BluetoothDeviceView {
        BluetoothDeviceView {
            path: self.path@,
            rssi: self.rssi,
            alias: self.alias@,
            name: self.name@,
            adapter: self.adapter@,
            trusted: self.trusted,
            bonded: self.bonded,
            paired: self.paired,
            blocked: self.blocked,
            connected: self.connected,
            icon: self.icon@,
            address: self.address@,
            conect_in_progress: self.conect_in_progress,
        }
    }
}

impl Default for BluetoothDevice {
    /// A device without path, names or address, with signal strength 0 and
    /// all flags off.
    fn default() -> (record: Self)
        ensures
            record@ == (BluetoothDeviceView {
                path: Seq::empty(),
                rssi: 0,
                alias: Seq::empty(),
                name: Seq::empty(),
                adapter: Seq::empty(),
                trusted: false,
                bonded: false,
                paired: false,
                blocked: false,
                connected: false,
                icon: Seq::empty(),
                address: Seq::empty(),
                conect_in_progress: false,
            }),
    {
        BluetoothDevice {
            path: String::new(),
            rssi: 0,
            alias: String::new(),
            name: String::new(),
            adapter: String::new(),
            trusted: false,
            bonded: false,
            paired: false,
            blocked: false,
            connected: false,
            icon: String::new(),
            address: String::new(),
            conect_in_progress: false,
        }
    }
}

impl Clone for BluetoothDevice {
    fn clone(&self) -> (copy: Self)
        ensures
            copy@ == self@,
    {
        BluetoothDevice {
            path: self.path.clone(),
            rssi: self.rssi,
            alias: self.alias.clone(),
            name: self.name.clone(),
            adapter: self.adapter.clone(),
            trusted: self.trusted,
            bonded: self.bonded,
            paired: self.paired,
            blocked: self.blocked,
            connected: self.connected,
            icon: self.icon.clone(),
            address: self.address.clone(),
            conect_in_progress: self.conect_in_progress,
        }
    }
}

impl BluetoothDevice {
    /// True when the device is shown in the lists: one without an alias is
    /// not.
    pub fn is_listed(&self) -> (listed: bool)
        ensures
            listed == (self@.alias.len() > 0),
    {
        !self.alias.as_str().is_empty()
    }
}

impl TPath for BluetoothDevice {
    open spec fn path_of(v: BluetoothDeviceView) -> Seq<char> {
        v.path
    }

    fn path(&self) -> (path: String) {
        self.path.clone()
    }

    fn has_path(&self, path: &String) -> (same: bool) {
        self.path == *path
    }
}

/// The view of a [`BluetoothAdapter`].
pub struct BluetoothAdapterView {
    pub path: Seq<char>,
    pub alias: Seq<char>,
    pub powered: bool,
    pub discoverable: bool,
    pub pairable: bool,
}

/// A bluetooth adapter.
#[derive(Debug, PartialEq, Eq)]
pub struct BluetoothAdapter {
    pub path: String,
    pub alias: String,
    pub powered: bool,
    pub discoverable: bool,
    pub pairable: bool,
}

impl View for BluetoothAdapter {
    type V = BluetoothAdapterView;

    open spec fn view(&self) -> BluetoothAdapterView {
        BluetoothAdapterView {
            path: self.path@,
            alias: self.alias@,
            powered: self.powered,
            discoverable: self.discoverable,
            pairable: self.pairable,
        }
    }
}

impl Default for BluetoothAdapter {
    /// An adapter without path and alias, with all flags off.
    fn default() -> (record: Self)
        ensures
            record@ == (BluetoothAdapterView {
                path: Seq::empty(),
                alias: Seq::empty(),
                powered: false,
                discoverable: false,
                pairable: false,
            }),
    {
        BluetoothAdapter {
            path: String::new(),
            alias: String::new(),
            powered: false,
            discoverable: false,
            pairable: false,
        }
    }
}

impl Clone for BluetoothAdapter {
    fn clone(&self) -> (copy: Self)
        ensures
            copy@ == self@,
    {
        BluetoothAdapter {
            path: self.path.clone(),
            alias: self.alias.clone(),
            powered: self.powered,
            discoverable: self.discoverable,
            pairable: self.pairable,
        }
    }
}

impl TPath for BluetoothAdapter {
    open spec fn path_of(v: BluetoothAdapterView) -> Seq<char> {
        v.path
    }

    fn path(&self) -> (path: String) {
        self.path.clone()
    }

    fn has_path(&self, path: &String) -> (same: bool) {
        self.path == *path
    }
}

/// A message to the bluetooth processor. Adapters and devices are named by
/// their paths.
#[derive(Default, Debug, Clone, PartialEq)]
pub enum BluetoothMsg {
    #[default]
    GetBluetoothAdapters,
    StartBluetoothListener,
    StopBluetoothListener,
    StartBluetoothScan,
    StopBluetoothScan,
    SetBluetoothAdapter(String),
    SetBluetoothAdapterEnabled(String, bool),
    SetBluetoothAdapterDiscoverability(String, bool),
    SetBluetoothAdapterPairability(String, bool),
    ConnectToBluetoothDevice(String),
    DisconnectFromBluetoothDevice(String),
    RemoveDevicePairing(String),
    /// A device was added or has changed.
    AddBluetoothDevice(BluetoothDevice),
    RemoveBluetoothDevice(String),
    SetPageId(BluetoothPageId),
}

/// A call that the backend is to receive.
#[derive(Debug, Clone, PartialEq)]
pub enum BluetoothCall {
    GetBluetoothAdapters,
    StartBluetoothListener,
    StopBluetoothListener,
    StartBluetoothScan,
    StopBluetoothScan,
    SetBluetoothAdapter(String),
    SetBluetoothAdapterEnabled(String, bool),
    SetBluetoothAdapterDiscoverability(String, bool),
    SetBluetoothAdapterPairability(String, bool),
    ConnectToBluetoothDevice(String),
    DisconnectFromBluetoothDevice(String),
    RemoveDevicePairing(String),
}

/// Why a message could not be processed.
#[derive(Debug, Clone, Copy, PartialEq, Eq, Structural)]
pub enum BluetoothError {
    /// The message names a device that the store does not hold.
    UnknownDevice,
}

/// How the backend answered a call.
#[derive(Debug, Clone, PartialEq)]
pub enum BluetoothReply {
    /// The call failed.
    Failed,
    /// The call succeeded.
    Done,
    /// The call succeeded and listed these adapters.
    Adapters(Vec<BluetoothAdapter>),
}

/// What is to happen after the backend's reply.
#[derive(Debug, Clone, Copy, PartialEq, Eq, Structural)]
pub enum BluetoothFollowUp {
    Nothing,
    /// Send [`BluetoothMsg::StopBluetoothScan`] after this many
    /// milliseconds.
    StopScanAfter(u64),
}

/// For how long a started listener scans, in milliseconds.
pub const SCAN_MILLISECONDS: u64 = 10_000;

/// The state of the bluetooth domain as a mathematical value.
pub struct BluetoothModelView {
    pub current_adapter: BluetoothAdapterView,
    pub adapters: Map<Seq<char>, BluetoothAdapterView>,
    pub devices: Map<Seq<char>, BluetoothDeviceView>,
    pub page_id: BluetoothPageId,
    pub is_scanning: bool,
}

/// The device `record` with a connection change under way.
pub open spec fn in_progress(record: BluetoothDeviceView) -> BluetoothDeviceView {
    BluetoothDeviceView { conect_in_progress: true, ..record }
}

/// The state after `msg` is taken up, and the call for the backend: `Ok` of
/// `None` when the message is dealt with at once, an error when it names a
/// device that is not stored, in which case nothing changes.
pub open spec fn requested(pre: BluetoothModelView, msg: BluetoothMsg) -> (
    BluetoothModelView,
    Result<Option<BluetoothCall>, BluetoothError>,
) {
    match msg {
        BluetoothMsg::GetBluetoothAdapters => (pre, Ok(Some(BluetoothCall::GetBluetoothAdapters))),
        BluetoothMsg::StartBluetoothListener => (
            BluetoothModelView { is_scanning: true, ..pre },
            Ok(Some(BluetoothCall::StartBluetoothListener)),
        ),
        BluetoothMsg::StopBluetoothListener => (
            pre,
            Ok(Some(BluetoothCall::StopBluetoothListener)),
        ),
        BluetoothMsg::StartBluetoothScan => (pre, Ok(Some(BluetoothCall::StartBluetoothScan))),
        BluetoothMsg::StopBluetoothScan => (pre, Ok(Some(BluetoothCall::StopBluetoothScan))),
        BluetoothMsg::SetBluetoothAdapter(path) => (
            pre,
            Ok(Some(BluetoothCall::SetBluetoothAdapter(path))),
        ),
        BluetoothMsg::SetBluetoothAdapterEnabled(path, enabled) => (
            pre,
            Ok(Some(BluetoothCall::SetBluetoothAdapterEnabled(path, enabled))),
        ),
        BluetoothMsg::SetBluetoothAdapterDiscoverability(path, discoverable) => (
            pre,
            Ok(Some(BluetoothCall::SetBluetoothAdapterDiscoverability(path, discoverable))),
        ),
        BluetoothMsg::SetBluetoothAdapterPairability(path, pairable) => (
            pre,
            Ok(Some(BluetoothCall::SetBluetoothAdapterPairability(path, pairable))),
        ),
        BluetoothMsg::ConnectToBluetoothDevice(path) => if pre.devices.contains_key(path@) {
            (
                BluetoothModelView {
                    devices: pre.devices.insert(path@, in_progress(pre.devices[path@])),
                    ..pre
                },
                Ok(Some(BluetoothCall::ConnectToBluetoothDevice(path))),
            )
        } else {
            (pre, Err(BluetoothError::UnknownDevice))
        },
        BluetoothMsg::DisconnectFromBluetoothDevice(path) => if pre.devices.contains_key(path@) {
            (
                BluetoothModelView {
                    devices: pre.devices.insert(path@, in_progress(pre.devices[path@])),
                    ..pre
                },
                Ok(Some(BluetoothCall::DisconnectFromBluetoothDevice(path))),
            )
        } else {
            (pre, Err(BluetoothError::UnknownDevice))
        },
        BluetoothMsg::RemoveDevicePairing(path) => (
            pre,
            Ok(Some(BluetoothCall::RemoveDevicePairing(path))),
        ),
        BluetoothMsg::AddBluetoothDevice(device) => (
            BluetoothModelView { devices: pre.devices.insert(device.path@, device@), ..pre },
            Ok(None),
        ),
        BluetoothMsg::RemoveBluetoothDevice(path) => (
            BluetoothModelView { devices: pre.devices.remove(path@), ..pre },
            Ok(None),
        ),
        BluetoothMsg::SetPageId(page_id) => (BluetoothModelView { page_id, ..pre }, Ok(None)),
    }
}

/// The state after the backend's `reply` to `call`, and what is to follow.
/// A failed call changes nothing. A listing of the adapters replaces the
/// adapters; a started scan or a stopped one sets the scanning flag; a
/// started listener asks for the scan to be stopped later.
pub open spec fn confirmed(pre: BluetoothModelView, call: BluetoothCall, reply: BluetoothReply) -> (
    BluetoothModelView,
    BluetoothFollowUp,
) {
    match (call, reply) {
        (_, BluetoothReply::Failed) => (pre, BluetoothFollowUp::Nothing),
        (BluetoothCall::GetBluetoothAdapters, BluetoothReply::Adapters(adapters)) => (
            BluetoothModelView {
                adapters: filed_by_path::<BluetoothAdapter>(adapters@),
                ..pre
            },
            BluetoothFollowUp::Nothing,
        ),
        (BluetoothCall::GetBluetoothAdapters, _) => (pre, BluetoothFollowUp::Nothing),
        (BluetoothCall::StartBluetoothListener, _) => (
            pre,
            BluetoothFollowUp::StopScanAfter(SCAN_MILLISECONDS),
        ),
        (BluetoothCall::StopBluetoothListener, _) => (
            BluetoothModelView { is_scanning: false, ..pre },
            BluetoothFollowUp::Nothing,
        ),
        (BluetoothCall::StartBluetoothScan, _) => (
            BluetoothModelView { is_scanning: true, ..pre },
            BluetoothFollowUp::Nothing,
        ),
        (BluetoothCall::StopBluetoothScan, _) => (
            BluetoothModelView { is_scanning: false, ..pre },
            BluetoothFollowUp::Nothing,
        ),
        _ => (pre, BluetoothFollowUp::Nothing),
    }
}

/// The bluetooth domain: the adapters, the devices, the page that is shown
/// and whether a scan is under way.
#[derive(Debug)]
pub struct BluetoothModel {
    current_adapter: BluetoothAdapter,
    adapters: PathStore<BluetoothAdapter>,
    devices: PathStore<BluetoothDevice>,
    page_id: BluetoothPageId,
    is_scanning: bool,
}

impl View for BluetoothModel {
    type V = BluetoothModelView;

    closed spec fn view(&self) -> BluetoothModelView {
        BluetoothModelView {
            current_adapter: self.current_adapter@,
            adapters: self.adapters@,
            devices: self.devices@,
            page_id: self.page_id,
            is_scanning: self.is_scanning,
        }
    }
}

impl BluetoothModel {
    /// The stores are well formed.
    pub closed spec fn wf(&self) -> bool {
        self.adapters.wf() && self.devices.wf()
    }

    /// The model built from the current adapter and full listings of the
    /// adapters and the devices. The device page is shown and no scan is
    /// under way.
    pub fn new(
        current_adapter: BluetoothAdapter,
        adapters: Vec<BluetoothAdapter>,
        devices: Vec<BluetoothDevice>,
    ) -> (model: Self)
        ensures
            model.wf(),
            model@ == (BluetoothModelView {
                current_adapter: current_adapter@,
                adapters: filed_by_path::<BluetoothAdapter>(adapters@),
                devices: filed_by_path::<BluetoothDevice>(devices@),
                page_id: BluetoothPageId::Devices,
                is_scanning: false,
            }),
    {
        BluetoothModel {
            current_adapter,
            adapters: to_path_map(adapters),
            devices: to_path_map(devices),
            page_id: BluetoothPageId::Devices,
            is_scanning: false,
        }
    }

    pub fn current_adapter(&self) -> (adapter: &BluetoothAdapter)
        ensures
            adapter@ == self@.current_adapter,
    {
        &self.current_adapter
    }

    pub fn adapters(&self) -> (store: &PathStore<BluetoothAdapter>)
        ensures
            store@ == self@.adapters,
            self.wf() ==> store.wf(),
    {
        &self.adapters
    }

    pub fn devices(&self) -> (store: &PathStore<BluetoothDevice>)
        ensures
            store@ == self@.devices,
            self.wf() ==> store.wf(),
    {
        &self.devices
    }

    pub fn page_id(&self) -> (page_id: BluetoothPageId)
        ensures
            page_id == self@.page_id,
    {
        self.page_id
    }

    pub fn is_scanning(&self) -> (scanning: bool)
        ensures
            scanning == self@.is_scanning,
    {
        self.is_scanning
    }

    /// Marks the device known by `path` as changing its connection, and says
    /// whether there is such a device.
    fn mark_in_progress(&mut self, path: &String) -> (known: bool)
        requires
            old(self).wf(),
        ensures
            final(self).wf(),
            known == old(self)@.devices.contains_key(path@),
            known ==> final(self)@ == (BluetoothModelView {
                devices: old(self)@.devices.insert(path@, in_progress(old(self)@.devices[path@])),
                ..old(self)@
            }),
            !known ==> final(self)@ == old(self)@,
    {
        proof {
            self.devices.lemma_keyed_by_path();
        }
        match self.devices.remove(path) {
            Some(mut device) => {
                device.conect_in_progress = true;
                self.devices.upsert(device);
                assert(self.devices@ =~= old(self).devices@.insert(
                    path@,
                    in_progress(old(self).devices@[path@]),
                ));
                true
            },
            None => {
                assert(self.devices@ =~= old(self).devices@);
                false
            },
        }
    }

    /// Takes up a message: applies what changes at once and names the call
    /// that the backend is to receive, if any.
    pub fn request(&mut self, msg: BluetoothMsg) -> (step: Result<
        Option<BluetoothCall>,
        BluetoothError,
    >)
        requires
            old(self).wf(),
        ensures
            final(self).wf(),
            (final(self)@, step) == requested(old(self)@, msg),
    {
        match msg {
            BluetoothMsg::GetBluetoothAdapters => Ok(Some(BluetoothCall::GetBluetoothAdapters)),
            BluetoothMsg::StartBluetoothListener => {
                self.is_scanning = true;
                Ok(Some(BluetoothCall::StartBluetoothListener))
            },
            BluetoothMsg::StopBluetoothListener => Ok(Some(BluetoothCall::StopBluetoothListener)),
            BluetoothMsg::StartBluetoothScan => Ok(Some(BluetoothCall::StartBluetoothScan)),
            BluetoothMsg::StopBluetoothScan => Ok(Some(BluetoothCall::StopBluetoothScan)),
            BluetoothMsg::SetBluetoothAdapter(path) => Ok(
                Some(BluetoothCall::SetBluetoothAdapter(path)),
            ),
            BluetoothMsg::SetBluetoothAdapterEnabled(path, enabled) => Ok(
                Some(BluetoothCall::SetBluetoothAdapterEnabled(path, enabled)),
            ),
            BluetoothMsg::SetBluetoothAdapterDiscoverability(path, discoverable) => Ok(
                Some(BluetoothCall::SetBluetoothAdapterDiscoverability(path, discoverable)),
            ),
            BluetoothMsg::SetBluetoothAdapterPairability(path, pairable) => Ok(
                Some(BluetoothCall::SetBluetoothAdapterPairability(path, pairable)),
            ),
            BluetoothMsg::ConnectToBluetoothDevice(path) => {
                if self.mark_in_progress(&path) {
                    Ok(Some(BluetoothCall::ConnectToBluetoothDevice(path)))
                } else {
                    Err(BluetoothError::UnknownDevice)
                }
            },
            BluetoothMsg::DisconnectFromBluetoothDevice(path) => {
                if self.mark_in_progress(&path) {
                    Ok(Some(BluetoothCall::DisconnectFromBluetoothDevice(path)))
                } else {
                    Err(BluetoothError::UnknownDevice)
                }
            },
            BluetoothMsg::RemoveDevicePairing(path) => Ok(
                Some(BluetoothCall::RemoveDevicePairing(path)),
            ),
            BluetoothMsg::AddBluetoothDevice(device) => {
                self.devices.upsert(device);
                Ok(None)
            },
            BluetoothMsg::RemoveBluetoothDevice(path) => {
                let _ = self.devices.remove(&path);
                Ok(None)
            },
            BluetoothMsg::SetPageId(page_id) => {
                self.page_id = page_id;
                Ok(None)
            },
        }
    }

    /// Takes the backend's reply to a call and applies what depends on it.
    pub fn confirm(&mut self, call: BluetoothCall, reply: BluetoothReply) -> (follow_up:
        BluetoothFollowUp)
        requires
            old(self).wf(),
        ensures
            final(self).wf(),
            (final(self)@, follow_up) == confirmed(old(self)@, call, reply),
    {
        match reply {
            BluetoothReply::Failed => BluetoothFollowUp::Nothing,
            BluetoothReply::Adapters(adapters) => match call {
                BluetoothCall::GetBluetoothAdapters => {
                    self.adapters = to_path_map(adapters);
                    BluetoothFollowUp::Nothing
                },
                other => self.succeeded(other),
            },
            BluetoothReply::Done => match call {
                BluetoothCall::GetBluetoothAdapters => BluetoothFollowUp::Nothing,
                other => self.succeeded(other),
            },
        }
    }

    /// Applies the success of a call that lists nothing.
    fn succeeded(&mut self, call: BluetoothCall) -> (follow_up: BluetoothFollowUp)
        requires
            old(self).wf(),
            !(call is GetBluetoothAdapters),
        ensures
            final(self).wf(),
            (final(self)@, follow_up) == confirmed(old(self)@, call, BluetoothReply::Done),
    {
        match call {
            BluetoothCall::StartBluetoothListener => BluetoothFollowUp::StopScanAfter(
                SCAN_MILLISECONDS,
            ),
            BluetoothCall::StopBluetoothListener => {
                self.is_scanning = false;
                BluetoothFollowUp::Nothing
            },
            BluetoothCall::StartBluetoothScan => {
                self.is_scanning = true;
                BluetoothFollowUp::Nothing
            },
            BluetoothCall::StopBluetoothScan => {
                self.is_scanning = false;
                BluetoothFollowUp::Nothing
            },
            _ => BluetoothFollowUp::Nothing,
        }
    }
}

/// A failed call leaves the state as the request left it, whatever the call.
pub proof fn lemma_failed_call_changes_nothing(pre: BluetoothModelView, call: BluetoothCall)
    ensures
        confirmed(pre, call, BluetoothReply::Failed) == (pre, BluetoothFollowUp::Nothing),
{
}

/// A message that names a device which is not stored is refused and changes
/// nothing; every other message is accepted.
pub proof fn lemma_unknown_device_refused(pre: BluetoothModelView, msg: BluetoothMsg)
    ensures
        requested(pre, msg).1 is Err <==> (msg matches BluetoothMsg::ConnectToBluetoothDevice(path)
            && !pre.devices.contains_key(path@)) || (msg matches
        BluetoothMsg::DisconnectFromBluetoothDevice(path) && !pre.devices.contains_key(path@)),
        requested(pre, msg).1 is Err ==> requested(pre, msg).0 == pre,
{
}

} // verus!
