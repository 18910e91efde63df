//! The worker that watches the backend's notifications for the active
//! domain and hands them to the processor as messages.
//!
//! The worker itself only decides. Its surroundings hold the subscription,
//! read the flag that names the active page, decode payloads, and report
//! each happening as a [`WorkerEvent`]; [`step`] answers with the next state
//! and what to do.

use crate::bluetooth::{BluetoothDevice, BluetoothMsg};
use crate::messages::AudioMsg;
use crate::page::PageId;
use crate::records::{AudioCard, AudioSink, AudioSource, InputStream, OutputStream};
use vstd::prelude::*;
use vstd::string::StringSliceAdditionalSpecFns;

verus! {

/// The categories of records that the registry keeps.
#[derive(Debug, Clone, Copy, PartialEq, Eq, Structural)]
pub enum Category {
    Sink,
    Source,
    InputStream,
    OutputStream,
    Card,
}

/// What a notification reports of a record.
#[derive(Debug, Clone, Copy, PartialEq, Eq, Structural)]
pub enum Change {
    Added,
    Changed,
    Removed,
}

/// The meaning of a notification's name.
#[derive(Debug, Clone, Copy, PartialEq, Eq, Structural)]
pub struct Signal {
    pub category: Category,
    pub change: Change,
}

/// The decoded body of a notification. Additions and changes carry the full
/// record, removals the index or the path; a body that could not be decoded
/// is `Malformed`.
#[derive(Debug, Clone, PartialEq)]
pub enum Payload {
    Sink(AudioSink),
    Source(AudioSource),
    InputStream(InputStream),
    OutputStream(OutputStream),
    Card(AudioCard),
    Index(u32),
    Device(BluetoothDevice),
    Path(String),
    Malformed,
}

/// The signal that the backend announces under `name`, if it is one of the
/// audio interface.
pub open spec fn signal_named(name: Seq<char>) -> Option<Signal> {
    if name == "OutputStreamAdded"@ {
        Some(Signal { category: Category::OutputStream, change: Change::Added })
    } else if name == "OutputStreamChanged"@ {
        Some(Signal { category: Category::OutputStream, change: Change::Changed })
    } else if name == "OutputStreamRemoved"@ {
        Some(Signal { category: Category::OutputStream, change: Change::Removed })
    } else if name == "InputStreamAdded"@ {
        Some(Signal { category: Category::InputStream, change: Change::Added })
    } else if name == "InputStreamChanged"@ {
        Some(Signal { category: Category::InputStream, change: Change::Changed })
    } else if name == "InputStreamRemoved"@ {
        Some(Signal { category: Category::InputStream, change: Change::Removed })
    } else if name == "SinkAdded"@ {
        Some(Signal { category: Category::Sink, change: Change::Added })
    } else if name == "SinkChanged"@ {
        Some(Signal { category: Category::Sink, change: Change::Changed })
    } else if name == "SinkRemoved"@ {
        Some(Signal { category: Category::Sink, change: Change::Removed })
    } else if name == "SourceAdded"@ {
        Some(Signal { category: Category::Source, change: Change::Added })
    } else if name == "SourceChanged"@ {
        Some(Signal { category: Category::Source, change: Change::Changed })
    } else if name == "SourceRemoved"@ {
        Some(Signal { category: Category::Source, change: Change::Removed })
    } else if name == "CardAdded"@ {
        Some(Signal { category: Category::Card, change: Change::Added })
    } else if name == "CardChanged"@ {
        Some(Signal { category: Category::Card, change: Change::Changed })
    } else if name == "CardRemoved"@ {
        Some(Signal { category: Category::Card, change: Change::Removed })
    } else {
        None
    }
}

/// The message that a signal with a decoded payload stands for. An addition
/// or a change of a category needs the record of that category, a removal
/// needs an index; any other payload yields no message.
pub open spec fn message_of(signal: Signal, payload: Payload) -> Option<AudioMsg> {
    match (signal.change, signal.category, payload) {
        (Change::Removed, Category::Sink, Payload::Index(index)) => Some(
            AudioMsg::RemoveSink(index),
        ),
        (Change::Removed, Category::Source, Payload::Index(index)) => Some(
            AudioMsg::RemoveSource(index),
        ),
        (Change::Removed, Category::InputStream, Payload::Index(index)) => Some(
            AudioMsg::RemoveInputStream(index),
        ),
        (Change::Removed, Category::OutputStream, Payload::Index(index)) => Some(
            AudioMsg::RemoveOutputStream(index),
        ),
        (Change::Removed, Category::Card, Payload::Index(index)) => Some(
            AudioMsg::RemoveAudioCard(index),
        ),
        (Change::Removed, _, _) => None,
        (_, Category::Sink, Payload::Sink(record)) => Some(AudioMsg::AddSink(record)),
        (_, Category::Source, Payload::Source(record)) => Some(AudioMsg::AddSource(record)),
        (_, Category::InputStream, Payload::InputStream(record)) => Some(
            AudioMsg::AddInputStream(record),
        ),
        (_, Category::OutputStream, Payload::OutputStream(record)) => Some(
            AudioMsg::AddOutputStream(record),
        ),
        (_, Category::Card, Payload::Card(record)) => Some(AudioMsg::AddAudioCard(record)),
        _ => None,
    }
}

/// What the backend announces of a bluetooth device under `name`, if it is
/// a signal of the bluetooth interface.
pub open spec fn bluetooth_signal_named(name: Seq<char>) -> Option<Change> {
    if name == "BluetoothDeviceAdded"@ {
        Some(Change::Added)
    } else if name == "BluetoothDeviceChanged"@ {
        Some(Change::Changed)
    } else if name == "BluetoothDeviceRemoved"@ {
        Some(Change::Removed)
    } else {
        None
    }
}

/// The message that a bluetooth signal with a decoded payload stands for. An
/// addition or a change needs the device, a removal its path; any other
/// payload yields no message.
pub open spec fn bluetooth_message_of(change: Change, payload: Payload) -> Option<BluetoothMsg> {
    match (change, payload) {
        (Change::Removed, Payload::Path(path)) => Some(BluetoothMsg::RemoveBluetoothDevice(path)),
        (Change::Removed, _) => None,
        (_, Payload::Device(device)) => Some(BluetoothMsg::AddBluetoothDevice(device)),
        _ => None,
    }
}

/// True when both strings have the same characters in the same order. The
/// strings are compared byte by byte: equal texts have equal encodings, and
/// an encoding stands for one text only.
fn same_text(left: &str, right: &str) -> (same: bool)
    ensures
        same == (left@ == right@),
{
    let left_bytes = left.as_bytes();
    let right_bytes = right.as_bytes();
    proof {
        vstd::utf8::encode_utf8_decode_utf8(left@);
        vstd::utf8::encode_utf8_decode_utf8(right@);
    }
    if left_bytes.len() != right_bytes.len() {
        return false;
    }
    let mut i: usize = 0;
    while i < left_bytes.len()
        invariant
            i <= left_bytes.len(),
            left_bytes@ == left.spec_bytes(),
            right_bytes@ == right.spec_bytes(),
            left_bytes@.len() == right_bytes@.len(),
            forall|k: int| 0 <= k < i ==> left_bytes@[k] == right_bytes@[k],
        decreases left_bytes.len() - i,
    {
        if left_bytes[i] != right_bytes[i] {
            return false;
        }
        i = i + 1;
    }
    assert(left_bytes@ =~= right_bytes@);
    true
}

/// Tells which signal a notification's name stands for.
pub fn classify_signal(member: &str) -> (signal: Option<Signal>)
    ensures
        signal == signal_named(member@),
{
    if same_text(member, "OutputStreamAdded") {
        Some(Signal { category: Category::OutputStream, change: Change::Added })
    } else if same_text(member, "OutputStreamChanged") {
        Some(Signal { category: Category::OutputStream, change: Change::Changed })
    } else if same_text(member, "OutputStreamRemoved") {
        Some(Signal { category: Category::OutputStream, change: Change::Removed })
    } else if same_text(member, "InputStreamAdded") {
        Some(Signal { category: Category::InputStream, change: Change::Added })
    } else if same_text(member, "InputStreamChanged") {
        Some(Signal { category: Category::InputStream, change: Change::Changed })
    } else if same_text(member, "InputStreamRemoved") {
        Some(Signal { category: Category::InputStream, change: Change::Removed })
    } else if same_text(member, "SinkAdded") {
        Some(Signal { category: Category::Sink, change: Change::Added })
    } else if same_text(member, "SinkChanged") {
        Some(Signal { category: Category::Sink, change: Change::Changed })
    } else if same_text(member, "SinkRemoved") {
        Some(Signal { category: Category::Sink, change: Change::Removed })
    } else if same_text(member, "SourceAdded") {
        Some(Signal { category: Category::Source, change: Change::Added })
    } else if same_text(member, "SourceChanged") {
        Some(Signal { category: Category::Source, change: Change::Changed })
    } else if same_text(member, "SourceRemoved") {
        Some(Signal { category: Category::Source, change: Change::Removed })
    } else if same_text(member, "CardAdded") {
        Some(Signal { category: Category::Card, change: Change::Added })
    } else if same_text(member, "CardChanged") {
        Some(Signal { category: Category::Card, change: Change::Changed })
    } else if same_text(member, "CardRemoved") {
        Some(Signal { category: Category::Card, change: Change::Removed })
    } else {
        None
    }
}

/// Turns a signal and its decoded payload into the message for the
/// processor.
pub fn to_message(signal: Signal, payload: Payload) -> (msg: Option<AudioMsg>)
    ensures
        msg == message_of(signal, payload),
{
    match signal.change {
        Change::Removed => match payload {
            Payload::Index(index) => match signal.category {
                Category::Sink => Some(AudioMsg::RemoveSink(index)),
                Category::Source => Some(AudioMsg::RemoveSource(index)),
                Category::InputStream => Some(AudioMsg::RemoveInputStream(index)),
                Category::OutputStream => Some(AudioMsg::RemoveOutputStream(index)),
                Category::Card => Some(AudioMsg::RemoveAudioCard(index)),
            },
            _ => None,
        },
        _ => match (signal.category, payload) {
            (Category::Sink, Payload::Sink(record)) => Some(AudioMsg::AddSink(record)),
            (Category::Source, Payload::Source(record)) => Some(AudioMsg::AddSource(record)),
            (Category::InputStream, Payload::InputStream(record)) => Some(
                AudioMsg::AddInputStream(record),
            ),
            (Category::OutputStream, Payload::OutputStream(record)) => Some(
                AudioMsg::AddOutputStream(record),
            ),
            (Category::Card, Payload::Card(record)) => Some(AudioMsg::AddAudioCard(record)),
            _ => None,
        },
    }
}

/// Tells what a notification's name announces of a bluetooth device.
pub fn classify_bluetooth_signal(member: &str) -> (change: Option<Change>)
    ensures
        change == bluetooth_signal_named(member@),
{
    if same_text(member, "BluetoothDeviceAdded") {
        Some(Change::Added)
    } else if same_text(member, "BluetoothDeviceChanged") {
        Some(Change::Changed)
    } else if same_text(member, "BluetoothDeviceRemoved") {
        Some(Change::Removed)
    } else {
        None
    }
}

/// Turns a bluetooth signal and its decoded payload into the message for
/// the bluetooth processor.
pub fn to_bluetooth_message(change: Change, payload: Payload) -> (msg: Option<BluetoothMsg>)
    ensures
        msg == bluetooth_message_of(change, payload),
{
    match change {
        Change::Removed => match payload {
            Payload::Path(path) => Some(BluetoothMsg::RemoveBluetoothDevice(path)),
            _ => None,
        },
        _ => match payload {
            Payload::Device(device) => Some(BluetoothMsg::AddBluetoothDevice(device)),
            _ => None,
        },
    }
}

/// The two states of the worker.
#[derive(Debug, Clone, Copy, PartialEq, Eq, Structural)]
pub enum WorkerState {
    /// No subscription is open.
    Idle,
    /// A subscription to the notifications of this domain is open.
    Watching(PageId),
}

/// What happened to the worker.
#[derive(Debug, Clone, PartialEq)]
pub enum WorkerEvent {
    /// The presentation layer made this domain the active one.
    Activated(PageId),
    /// The worker is about to wait for the next notification.
    Tick,
    /// The subscription delivered a notification with this name and body.
    Notified(String, Payload),
    /// The connection behind the subscription is gone.
    Disconnected,
}

/// What the worker's surroundings are to do.
#[derive(Debug, Clone, PartialEq)]
pub enum WorkerAction {
    /// Nothing.
    Nothing,
    /// Open a subscription to the notifications of this domain.
    Subscribe(PageId),
    /// Close the subscription.
    Unsubscribe,
    /// Put this message on the audio processor's queue, waiting for room if
    /// the queue is full.
    Forward(AudioMsg),
    /// Put this message on the bluetooth processor's queue, waiting for room
    /// if the queue is full.
    ForwardBluetooth(BluetoothMsg),
    /// Drop the notification, whose payload is of no use, and note that in
    /// the log.
    Discard,
    /// Close the subscription and tell the processor that its state has gone
    /// stale.
    ReportLost(PageId),
}

/// The worker's reaction to a notification that arrives while it watches
/// `domain`. A notification whose name the domain's interface does not have
/// is passed over. One whose name and payload make a message is forwarded;
/// one whose payload does not fit its name is dropped.
pub open spec fn noticed(domain: PageId, name: Seq<char>, payload: Payload) -> WorkerAction {
    match domain {
        PageId::Audio => match signal_named(name) {
            Some(signal) => match message_of(signal, payload) {
                Some(msg) => WorkerAction::Forward(msg),
                None => WorkerAction::Discard,
            },
            None => WorkerAction::Nothing,
        },
        PageId::Bluetooth => match bluetooth_signal_named(name) {
            Some(change) => match bluetooth_message_of(change, payload) {
                Some(msg) => WorkerAction::ForwardBluetooth(msg),
                None => WorkerAction::Discard,
            },
            None => WorkerAction::Nothing,
        },
        PageId::Network => WorkerAction::Nothing,
    }
}

/// The worker's next state and action. `active` is the number read from the
/// shared flag that names the active page, as it is when the event is taken
/// up.
///
/// An idle worker starts to watch a domain when that domain is activated
/// and has notifications to watch. A watching worker goes idle as soon as
/// the active page is no longer its own, without looking at the event, and
/// when its connection is lost; a notification never ends it.
pub open spec fn stepped(state: WorkerState, active: u8, event: WorkerEvent) -> (
    WorkerState,
    WorkerAction,
) {
    match state {
        WorkerState::Idle => match event {
            WorkerEvent::Activated(page) => if page.is_watched() {
                (WorkerState::Watching(page), WorkerAction::Subscribe(page))
            } else {
                (WorkerState::Idle, WorkerAction::Nothing)
            },
            _ => (WorkerState::Idle, WorkerAction::Nothing),
        },
        WorkerState::Watching(domain) => if active != domain.code_of() {
            (WorkerState::Idle, WorkerAction::Unsubscribe)
        } else {
            match event {
                WorkerEvent::Activated(_) => (state, WorkerAction::Nothing),
                WorkerEvent::Tick => (state, WorkerAction::Nothing),
                WorkerEvent::Notified(name, payload) => (state, noticed(domain, name@, payload)),
                WorkerEvent::Disconnected => (WorkerState::Idle, WorkerAction::ReportLost(domain)),
            }
        },
    }
}

/// Decides what to do with a notification that arrives while the worker
/// watches `domain`.
pub fn notice(domain: PageId, name: &String, payload: Payload) -> (action: WorkerAction)
    ensures
        action == noticed(domain, name@, payload),
{
    match domain {
        PageId::Audio => match classify_signal(name.as_str()) {
            Some(signal) => match to_message(signal, payload) {
                Some(msg) => WorkerAction::Forward(msg),
                None => WorkerAction::Discard,
            },
            None => WorkerAction::Nothing,
        },
        PageId::Bluetooth => match classify_bluetooth_signal(name.as_str()) {
            Some(change) => match to_bluetooth_message(change, payload) {
                Some(msg) => WorkerAction::ForwardBluetooth(msg),
                None => WorkerAction::Discard,
            },
            None => WorkerAction::Nothing,
        },
        PageId::Network => WorkerAction::Nothing,
    }
}

/// Decides what the worker does next.
pub fn step(state: WorkerState, active: u8, event: WorkerEvent) -> (next: (
    WorkerState,
    WorkerAction,
))
    ensures
        next == stepped(state, active, event),
{
    match state {
        WorkerState::Idle => match event {
            WorkerEvent::Activated(page) => if page.has_worker() {
                (WorkerState::Watching(page), WorkerAction::Subscribe(page))
            } else {
                (WorkerState::Idle, WorkerAction::Nothing)
            },
            _ => (WorkerState::Idle, WorkerAction::Nothing),
        },
        WorkerState::Watching(domain) => if active != domain.code() {
            (WorkerState::Idle, WorkerAction::Unsubscribe)
        } else {
            match event {
                WorkerEvent::Activated(_) => (state, WorkerAction::Nothing),
                WorkerEvent::Tick => (state, WorkerAction::Nothing),
                WorkerEvent::Notified(name, payload) => (state, notice(domain, &name, payload)),
                WorkerEvent::Disconnected => (WorkerState::Idle, WorkerAction::ReportLost(domain)),
            }
        },
    }
}

/// A notification never ends the worker: while the active page is the
/// worker's own, it goes on watching whatever the notification holds, and
/// from a payload that could not be decoded it forwards nothing.
pub proof fn lemma_notification_keeps_watching(domain: PageId, name: String, payload: Payload)
    ensures
        ({
            let next = stepped(
                WorkerState::Watching(domain),
                domain.code_of(),
                WorkerEvent::Notified(name, payload),
            );
            &&& next.0 == WorkerState::Watching(domain)
            &&& payload is Malformed ==> next.1 is Discard || next.1 is Nothing
        }),
{
}

/// A worker whose domain is no longer the active one stops at the next
/// event, whatever the event is.
pub proof fn lemma_inactive_worker_stops(domain: PageId, active: u8, event: WorkerEvent)
    requires
        active != domain.code_of(),
    ensures
        stepped(WorkerState::Watching(domain), active, event) == (
            WorkerState::Idle,
            WorkerAction::Unsubscribe,
        ),
{
}

} // verus!
