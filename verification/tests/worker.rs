use reset_registry::bluetooth::{BluetoothDevice, BluetoothMsg};
use reset_registry::messages::AudioMsg;
use reset_registry::model::AudioModel;
use reset_registry::page::PageId;
use reset_registry::records::{
    AudioCard, AudioSink, AudioSource, InputStream, OutputStream,
};
use reset_registry::worker::{
    classify_bluetooth_signal, classify_signal, notice, step, to_bluetooth_message, to_message,
    Category, Change, Payload, Signal, WorkerAction, WorkerEvent, WorkerState,
};

fn heard_sink(index: u32) -> AudioSink {
    AudioSink {
        index,
        name: "alsa_output".to_string(),
        alias: "Speakers".to_string(),
        channels: 2,
        volume: vec![1, 2],
        muted: false,
        active: 0,
    }
}

fn heard_source(index: u32) -> AudioSource {
    AudioSource { index, name: "alsa_input".to_string(), ..AudioSource::default() }
}

fn heard_input_stream(index: u32) -> InputStream {
    InputStream { index, sink_index: 1, ..InputStream::default() }
}

fn heard_output_stream(index: u32) -> OutputStream {
    OutputStream { index, source_index: 2, ..OutputStream::default() }
}

fn heard_card(index: u32) -> AudioCard {
    AudioCard { index, name: "card".to_string(), ..AudioCard::default() }
}

fn signal(category: Category, change: Change) -> Signal {
    Signal { category, change }
}

#[test]
fn every_signal_name_of_the_audio_interface_is_classified() {
    let table = [
        ("OutputStreamAdded", Category::OutputStream, Change::Added),
        ("OutputStreamChanged", Category::OutputStream, Change::Changed),
        ("OutputStreamRemoved", Category::OutputStream, Change::Removed),
        ("InputStreamAdded", Category::InputStream, Change::Added),
        ("InputStreamChanged", Category::InputStream, Change::Changed),
        ("InputStreamRemoved", Category::InputStream, Change::Removed),
        ("SinkAdded", Category::Sink, Change::Added),
        ("SinkChanged", Category::Sink, Change::Changed),
        ("SinkRemoved", Category::Sink, Change::Removed),
        ("SourceAdded", Category::Source, Change::Added),
        ("SourceChanged", Category::Source, Change::Changed),
        ("SourceRemoved", Category::Source, Change::Removed),
        ("CardAdded", Category::Card, Change::Added),
        ("CardChanged", Category::Card, Change::Changed),
        ("CardRemoved", Category::Card, Change::Removed),
    ];
    for (name, category, change) in table {
        assert_eq!(classify_signal(name), Some(signal(category, change)));
    }
}

#[test]
fn other_names_are_no_signal() {
    assert_eq!(classify_signal(""), None);
    assert_eq!(classify_signal("sinkadded"), None);
    assert_eq!(classify_signal("SinkAdded "), None);
    assert_eq!(classify_signal("SinkAdde"), None);
    assert_eq!(classify_signal("BluetoothDeviceAdded"), None);
    assert_eq!(classify_signal("NameOwnerChanged"), None);
}

#[test]
fn added_and_changed_signals_become_the_same_message() {
    for change in [Change::Added, Change::Changed] {
        assert_eq!(
            to_message(signal(Category::Sink, change), Payload::Sink(heard_sink(1))),
            Some(AudioMsg::AddSink(heard_sink(1)))
        );
        assert_eq!(
            to_message(signal(Category::Source, change), Payload::Source(heard_source(2))),
            Some(AudioMsg::AddSource(heard_source(2)))
        );
        assert_eq!(
            to_message(
                signal(Category::InputStream, change),
                Payload::InputStream(heard_input_stream(3))
            ),
            Some(AudioMsg::AddInputStream(heard_input_stream(3)))
        );
        assert_eq!(
            to_message(
                signal(Category::OutputStream, change),
                Payload::OutputStream(heard_output_stream(4))
            ),
            Some(AudioMsg::AddOutputStream(heard_output_stream(4)))
        );
        assert_eq!(
            to_message(signal(Category::Card, change), Payload::Card(heard_card(5))),
            Some(AudioMsg::AddAudioCard(heard_card(5)))
        );
    }
}

#[test]
fn removed_signals_become_removal_messages() {
    assert_eq!(
        to_message(signal(Category::Sink, Change::Removed), Payload::Index(1)),
        Some(AudioMsg::RemoveSink(1))
    );
    assert_eq!(
        to_message(signal(Category::Source, Change::Removed), Payload::Index(2)),
        Some(AudioMsg::RemoveSource(2))
    );
    assert_eq!(
        to_message(signal(Category::InputStream, Change::Removed), Payload::Index(3)),
        Some(AudioMsg::RemoveInputStream(3))
    );
    assert_eq!(
        to_message(signal(Category::OutputStream, Change::Removed), Payload::Index(4)),
        Some(AudioMsg::RemoveOutputStream(4))
    );
    assert_eq!(
        to_message(signal(Category::Card, Change::Removed), Payload::Index(5)),
        Some(AudioMsg::RemoveAudioCard(5))
    );
}

#[test]
fn payloads_that_do_not_fit_the_signal_yield_no_message() {
    assert_eq!(to_message(signal(Category::Sink, Change::Added), Payload::Malformed), None);
    assert_eq!(to_message(signal(Category::Sink, Change::Removed), Payload::Malformed), None);
    assert_eq!(to_message(signal(Category::Sink, Change::Added), Payload::Index(1)), None);
    assert_eq!(
        to_message(signal(Category::Sink, Change::Removed), Payload::Sink(heard_sink(1))),
        None
    );
    assert_eq!(
        to_message(signal(Category::Sink, Change::Changed), Payload::Source(heard_source(1))),
        None
    );
    assert_eq!(
        to_message(signal(Category::Card, Change::Added), Payload::Sink(heard_sink(1))),
        None
    );
    assert_eq!(
        to_message(
            signal(Category::InputStream, Change::Added),
            Payload::OutputStream(heard_output_stream(1))
        ),
        None
    );
}

#[test]
fn idle_worker_subscribes_when_a_watched_domain_is_activated() {
    assert_eq!(
        step(WorkerState::Idle, PageId::Audio.code(), WorkerEvent::Activated(PageId::Audio)),
        (WorkerState::Watching(PageId::Audio), WorkerAction::Subscribe(PageId::Audio))
    );
    assert_eq!(
        step(
            WorkerState::Idle,
            PageId::Bluetooth.code(),
            WorkerEvent::Activated(PageId::Bluetooth)
        ),
        (WorkerState::Watching(PageId::Bluetooth), WorkerAction::Subscribe(PageId::Bluetooth))
    );
}

#[test]
fn idle_worker_stays_idle_for_the_network_domain_and_for_other_events() {
    assert_eq!(
        step(WorkerState::Idle, PageId::Network.code(), WorkerEvent::Activated(PageId::Network)),
        (WorkerState::Idle, WorkerAction::Nothing)
    );
    assert_eq!(
        step(WorkerState::Idle, PageId::Audio.code(), WorkerEvent::Disconnected),
        (WorkerState::Idle, WorkerAction::Nothing)
    );
    assert_eq!(
        step(
            WorkerState::Idle,
            PageId::Audio.code(),
            WorkerEvent::Notified("SinkAdded".to_string(), Payload::Sink(heard_sink(1)))
        ),
        (WorkerState::Idle, WorkerAction::Nothing)
    );
}

#[test]
fn watching_worker_forwards_a_decoded_notification() {
    assert_eq!(
        step(
            WorkerState::Watching(PageId::Audio),
            PageId::Audio.code(),
            WorkerEvent::Notified("SourceRemoved".to_string(), Payload::Index(12))
        ),
        (WorkerState::Watching(PageId::Audio), WorkerAction::Forward(AudioMsg::RemoveSource(12)))
    );
}

#[test]
fn watching_worker_drops_a_payload_that_does_not_fit() {
    let watching = WorkerState::Watching(PageId::Audio);
    assert_eq!(
        step(
            watching,
            PageId::Audio.code(),
            WorkerEvent::Notified("CardAdded".to_string(), Payload::Malformed)
        ),
        (watching, WorkerAction::Discard)
    );
    assert_eq!(
        step(
            watching,
            PageId::Audio.code(),
            WorkerEvent::Notified("SinkRemoved".to_string(), Payload::Sink(heard_sink(1)))
        ),
        (watching, WorkerAction::Discard)
    );
}

#[test]
fn watching_worker_passes_over_names_of_other_interfaces() {
    let watching = WorkerState::Watching(PageId::Audio);
    assert_eq!(
        step(
            watching,
            PageId::Audio.code(),
            WorkerEvent::Notified("Unknown".to_string(), Payload::Index(1))
        ),
        (watching, WorkerAction::Nothing)
    );
    let bluetooth = WorkerState::Watching(PageId::Bluetooth);
    assert_eq!(
        step(
            bluetooth,
            PageId::Bluetooth.code(),
            WorkerEvent::Notified("SinkAdded".to_string(), Payload::Sink(heard_sink(1)))
        ),
        (bluetooth, WorkerAction::Nothing)
    );
    assert_eq!(
        notice(PageId::Network, &"SinkAdded".to_string(), Payload::Sink(heard_sink(1))),
        WorkerAction::Nothing
    );
}

fn heard_device(path: &str) -> BluetoothDevice {
    BluetoothDevice {
        path: path.to_string(),
        alias: "Headphones".to_string(),
        ..BluetoothDevice::default()
    }
}

#[test]
fn bluetooth_signal_names_are_classified() {
    assert_eq!(classify_bluetooth_signal("BluetoothDeviceAdded"), Some(Change::Added));
    assert_eq!(classify_bluetooth_signal("BluetoothDeviceChanged"), Some(Change::Changed));
    assert_eq!(classify_bluetooth_signal("BluetoothDeviceRemoved"), Some(Change::Removed));
    assert_eq!(classify_bluetooth_signal("SinkAdded"), None);
    assert_eq!(classify_bluetooth_signal(""), None);
}

#[test]
fn bluetooth_signals_become_bluetooth_messages() {
    for change in [Change::Added, Change::Changed] {
        assert_eq!(
            to_bluetooth_message(change, Payload::Device(heard_device("/dev/1"))),
            Some(BluetoothMsg::AddBluetoothDevice(heard_device("/dev/1")))
        );
        assert_eq!(to_bluetooth_message(change, Payload::Path("/dev/1".to_string())), None);
        assert_eq!(to_bluetooth_message(change, Payload::Malformed), None);
    }
    assert_eq!(
        to_bluetooth_message(Change::Removed, Payload::Path("/dev/1".to_string())),
        Some(BluetoothMsg::RemoveBluetoothDevice("/dev/1".to_string()))
    );
    assert_eq!(
        to_bluetooth_message(Change::Removed, Payload::Device(heard_device("/dev/1"))),
        None
    );
    assert_eq!(to_bluetooth_message(Change::Removed, Payload::Index(1)), None);
}

#[test]
fn watching_worker_forwards_bluetooth_notifications() {
    let watching = WorkerState::Watching(PageId::Bluetooth);
    assert_eq!(
        step(
            watching,
            PageId::Bluetooth.code(),
            WorkerEvent::Notified(
                "BluetoothDeviceChanged".to_string(),
                Payload::Device(heard_device("/dev/2"))
            )
        ),
        (
            watching,
            WorkerAction::ForwardBluetooth(BluetoothMsg::AddBluetoothDevice(heard_device(
                "/dev/2"
            )))
        )
    );
    assert_eq!(
        step(
            watching,
            PageId::Bluetooth.code(),
            WorkerEvent::Notified("BluetoothDeviceRemoved".to_string(), Payload::Malformed)
        ),
        (watching, WorkerAction::Discard)
    );
    assert_eq!(
        step(
            WorkerState::Watching(PageId::Audio),
            PageId::Audio.code(),
            WorkerEvent::Notified(
                "BluetoothDeviceAdded".to_string(),
                Payload::Device(heard_device("/dev/2"))
            )
        ),
        (WorkerState::Watching(PageId::Audio), WorkerAction::Nothing)
    );
}

#[test]
fn watching_worker_stops_when_another_page_is_active() {
    for event in [
        WorkerEvent::Notified("SinkAdded".to_string(), Payload::Sink(heard_sink(1))),
        WorkerEvent::Disconnected,
        WorkerEvent::Activated(PageId::Network),
    ] {
        assert_eq!(
            step(WorkerState::Watching(PageId::Audio), PageId::Network.code(), event),
            (WorkerState::Idle, WorkerAction::Unsubscribe)
        );
    }
}

#[test]
fn watching_worker_goes_on_at_a_tick_while_its_page_is_active() {
    assert_eq!(
        step(WorkerState::Watching(PageId::Audio), 0, WorkerEvent::Tick),
        (WorkerState::Watching(PageId::Audio), WorkerAction::Nothing)
    );
    assert_eq!(
        step(WorkerState::Watching(PageId::Bluetooth), 2, WorkerEvent::Tick),
        (WorkerState::Watching(PageId::Bluetooth), WorkerAction::Nothing)
    );
    assert_eq!(
        step(WorkerState::Watching(PageId::Audio), 1, WorkerEvent::Tick),
        (WorkerState::Idle, WorkerAction::Unsubscribe)
    );
    assert_eq!(
        step(WorkerState::Watching(PageId::Bluetooth), 77, WorkerEvent::Tick),
        (WorkerState::Idle, WorkerAction::Unsubscribe)
    );
    assert_eq!(
        step(WorkerState::Idle, 0, WorkerEvent::Tick),
        (WorkerState::Idle, WorkerAction::Nothing)
    );
}

#[test]
fn watching_worker_reports_a_lost_connection() {
    assert_eq!(
        step(WorkerState::Watching(PageId::Audio), PageId::Audio.code(), WorkerEvent::Disconnected),
        (WorkerState::Idle, WorkerAction::ReportLost(PageId::Audio))
    );
}

#[test]
fn watching_worker_ignores_a_repeated_activation() {
    assert_eq!(
        step(
            WorkerState::Watching(PageId::Audio),
            PageId::Audio.code(),
            WorkerEvent::Activated(PageId::Audio)
        ),
        (WorkerState::Watching(PageId::Audio), WorkerAction::Nothing)
    );
}

#[test]
fn malformed_sink_changed_is_dropped_and_a_later_sink_added_is_processed() {
    let mut model = AudioModel::new(
        vec![heard_sink(1)],
        1,
        Vec::new(),
        0,
        Vec::new(),
        Vec::new(),
        Vec::new(),
    );
    let state = WorkerState::Watching(PageId::Audio);
    let (state, action) = step(
        state,
        PageId::Audio.code(),
        WorkerEvent::Notified("SinkChanged".to_string(), Payload::Malformed),
    );
    assert_eq!(state, WorkerState::Watching(PageId::Audio));
    assert_eq!(action, WorkerAction::Discard);
    assert_eq!(model.sinks().len(), 1);
    assert_eq!(model.sinks().get(1), Some(&heard_sink(1)));

    let (state, action) = step(
        state,
        PageId::Audio.code(),
        WorkerEvent::Notified("SinkAdded".to_string(), Payload::Sink(heard_sink(2))),
    );
    assert_eq!(state, WorkerState::Watching(PageId::Audio));
    match action {
        WorkerAction::Forward(msg) => {
            model.update(msg);
        }
        other => panic!("expected a message to forward, got {:?}", other),
    }
    assert_eq!(model.sinks().len(), 2);
    assert_eq!(model.sinks().get(2), Some(&heard_sink(2)));
}
