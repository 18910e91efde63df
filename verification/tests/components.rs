use reset_registry::bluetooth::{BluetoothButtonVariant, BluetoothPageId};
use reset_registry::components::{
    scroll_choice, ComboPickerTitle, EntryButtonLevel, Icon, PickerVariant, RowAt, Scroll,
    Selection, TCardUser, TStreamCardUser,
};
use reset_registry::messages::{AudioMsg, AudioVariant};
use reset_registry::network::{NetworkModel, NetworkMsg, NetworkPageId, WirelessModel, WirelessMsg};
use reset_registry::records::{
    AudioCard, AudioCardProfile, AudioSink, AudioSource, InputStream, OutputStream, TAudioObject,
    TIndex,
};
use reset_registry::utils::ignore;

#[test]
fn picker_title_takes_what_converts_into_strings() {
    let title = ComboPickerTitle::new("Speakers", String::from("Analog"));
    assert_eq!(title.title, "Speakers");
    assert_eq!(title.subtitle, "Analog");
    assert_eq!(
        ComboPickerTitle::with_text("a".to_string(), "b".to_string()),
        ComboPickerTitle::new("a", "b")
    );
    assert_eq!(
        PickerVariant::ComboPicker(ComboPickerTitle::new("a", "")),
        PickerVariant::ComboPicker(ComboPickerTitle {
            title: "a".to_string(),
            subtitle: String::new()
        })
    );
    assert_ne!(
        PickerVariant::RegularPicker,
        PickerVariant::ComboPicker(ComboPickerTitle::new("", ""))
    );
}

#[test]
fn first_row_is_end_last_row_is_start() {
    assert_eq!(RowAt::at(0, 3), RowAt::End);
    assert_eq!(RowAt::at(1, 3), RowAt::Between);
    assert_eq!(RowAt::at(2, 3), RowAt::Start);
    assert_eq!(RowAt::at(0, 1), RowAt::End);
    assert_eq!(RowAt::at(0, 0), RowAt::End);
    assert_eq!(RowAt::at(1, 2), RowAt::Start);
    assert_eq!(RowAt::at(5, 3), RowAt::Between);
}

#[test]
fn sink_card_sends_sink_commands() {
    assert_eq!(<AudioSink as TCardUser>::volume_fn(1, 2, 3), AudioMsg::SetSinkVolume(1, 2, 3));
    assert_eq!(<AudioSink as TCardUser>::mute_fn(1, true), AudioMsg::SetSinkMute(1, true));
    assert_eq!(<AudioSink as TCardUser>::default_fn(4), AudioMsg::SetDefaultSink(4));
    assert_eq!(<AudioSink as TCardUser>::muted_icon(), Icon::VolumeMuted);
    assert_eq!(<AudioSink as TCardUser>::unmuted_icon(), Icon::Volume);
    assert_eq!(<AudioSink as TCardUser>::title(), "Output");
}

#[test]
fn source_card_sends_source_commands() {
    assert_eq!(
        <AudioSource as TCardUser>::volume_fn(1, 2, 3),
        AudioMsg::SetSourceVolume(1, 2, 3)
    );
    assert_eq!(<AudioSource as TCardUser>::mute_fn(1, false), AudioMsg::SetSourceMute(1, false));
    assert_eq!(<AudioSource as TCardUser>::default_fn(4), AudioMsg::SetDefaultSource(4));
    assert_eq!(<AudioSource as TCardUser>::muted_icon(), Icon::MicMuted);
    assert_eq!(<AudioSource as TCardUser>::unmuted_icon(), Icon::Mic);
    assert_eq!(<AudioSource as TCardUser>::title(), "Input");
}

#[test]
fn input_stream_card_sends_input_stream_commands() {
    let stream = InputStream { index: 3, sink_index: 8, ..InputStream::default() };
    let sink = AudioSink { index: 9, ..AudioSink::default() };
    assert_eq!(stream.obj_index(), 8);
    assert_eq!(
        <InputStream as TStreamCardUser<AudioSink>>::volume_fn(1, 2, 3),
        AudioMsg::SetInputStreamVolume(1, 2, 3)
    );
    assert_eq!(
        <InputStream as TStreamCardUser<AudioSink>>::mute_fn(1, true),
        AudioMsg::SetInputStreamMute(1, true)
    );
    assert_eq!(
        stream.clone().default_fn(sink.clone()),
        AudioMsg::SetSinkOfInputStream(stream, sink)
    );
    assert_eq!(<InputStream as TStreamCardUser<AudioSink>>::muted_icon(), Icon::VolumeMuted);
    assert_eq!(<InputStream as TStreamCardUser<AudioSink>>::unmuted_icon(), Icon::Volume);
    assert_eq!(<InputStream as TStreamCardUser<AudioSink>>::title(), "Output");
}

#[test]
fn output_stream_card_sends_output_stream_commands() {
    let stream = OutputStream { index: 3, source_index: 8, ..OutputStream::default() };
    let source = AudioSource { index: 9, ..AudioSource::default() };
    assert_eq!(stream.obj_index(), 8);
    assert_eq!(
        <OutputStream as TStreamCardUser<AudioSource>>::volume_fn(1, 2, 3),
        AudioMsg::SetOutputStreamVolume(1, 2, 3)
    );
    assert_eq!(
        <OutputStream as TStreamCardUser<AudioSource>>::mute_fn(1, true),
        AudioMsg::SetOutputStreamMute(1, true)
    );
    assert_eq!(
        stream.clone().default_fn(source.clone()),
        AudioMsg::SetSourceOfOutputStream(stream, source)
    );
    assert_eq!(<OutputStream as TStreamCardUser<AudioSource>>::muted_icon(), Icon::MicMuted);
    assert_eq!(<OutputStream as TStreamCardUser<AudioSource>>::unmuted_icon(), Icon::Mic);
    assert_eq!(<OutputStream as TStreamCardUser<AudioSource>>::title(), "Input");
}

#[test]
fn records_answer_with_their_fields() {
    let sink = AudioSink {
        index: 4,
        name: "alsa".to_string(),
        alias: "Speakers".to_string(),
        channels: 2,
        volume: vec![7, 8],
        muted: true,
        active: 3,
    };
    assert_eq!(TIndex::index(&sink), 4);
    assert_eq!(TAudioObject::index(&sink), 4);
    assert_eq!(sink.name(), "alsa");
    assert_eq!(sink.alias(), "Speakers");
    assert_eq!(sink.channels(), 2);
    assert_eq!(sink.volume(), vec![7, 8]);
    assert!(sink.muted());
    assert_eq!(sink.clone(), sink);

    let source = AudioSource { index: 5, alias: "Mic".to_string(), ..AudioSource::default() };
    assert_eq!(TIndex::index(&source), 5);
    assert_eq!(source.alias(), "Mic");
    assert_eq!(source.clone(), source);
}

#[test]
fn streams_answer_with_the_application_as_alias() {
    let input = InputStream {
        index: 6,
        name: "song".to_string(),
        application_name: "player".to_string(),
        sink_index: 1,
        channels: 1,
        volume: vec![9],
        muted: false,
        corked: true,
    };
    assert_eq!(TIndex::index(&input), 6);
    assert_eq!(input.name(), "song");
    assert_eq!(input.alias(), "player");
    assert_eq!(input.channels(), 1);
    assert_eq!(input.volume(), vec![9]);
    assert!(!input.muted());
    assert_eq!(input.clone(), input);

    let output = OutputStream {
        index: 7,
        name: "take".to_string(),
        application_name: "recorder".to_string(),
        ..OutputStream::default()
    };
    assert_eq!(TAudioObject::index(&output), 7);
    assert_eq!(output.alias(), "recorder");
    assert_eq!(output.clone(), output);
}

#[test]
fn card_names_its_profiles_in_order() {
    let card = AudioCard {
        index: 1,
        name: "card".to_string(),
        profiles: vec![
            AudioCardProfile {
                name: "b".to_string(),
                description: "B".to_string(),
                available: true,
            },
            AudioCardProfile {
                name: "a".to_string(),
                description: "A".to_string(),
                available: false,
            },
        ],
        active_profile: "a".to_string(),
    };
    assert_eq!(card.profile_names(), vec!["b".to_string(), "a".to_string()]);
    assert_eq!(TIndex::index(&card), 1);
    assert_eq!(card.clone(), card);
    assert!(AudioCard::default().profile_names().is_empty());
}

#[test]
fn default_records_are_empty() {
    assert_eq!(
        AudioSink::default(),
        AudioSink {
            index: 0,
            name: String::new(),
            alias: String::new(),
            channels: 0,
            volume: Vec::new(),
            muted: false,
            active: 0,
        }
    );
    assert_eq!(AudioSource::default().volume, Vec::<u32>::new());
    assert_eq!(InputStream::default().sink_index, 0);
    assert!(!InputStream::default().corked);
    assert_eq!(OutputStream::default().application_name, "");
    assert_eq!(
        AudioCardProfile::default(),
        AudioCardProfile { name: String::new(), description: String::new(), available: false }
    );
    assert_eq!(
        AudioCard::default(),
        AudioCard {
            index: 0,
            name: String::new(),
            profiles: Vec::new(),
            active_profile: String::new(),
        }
    );
}

#[test]
fn network_model_shows_the_wireless_page() {
    let mut model = NetworkModel::new();
    assert_eq!(model.current_page(), NetworkPageId::Wireless);
    model.update(NetworkMsg::SubMsgWireless(WirelessMsg::Noop));
    assert_eq!(model, NetworkModel::new());
    assert_eq!(NetworkModel::default(), NetworkModel::new());
    let mut wireless = WirelessModel::new();
    wireless.update(WirelessMsg::Noop);
    assert_eq!(wireless, WirelessModel::default());
}

#[test]
fn plain_choices_have_their_defaults() {
    assert_eq!(AudioVariant::default(), AudioVariant::Output);
    assert_eq!(BluetoothPageId::default(), BluetoothPageId::Devices);
    assert_eq!(NetworkPageId::default(), NetworkPageId::Wireless);
    assert_ne!(BluetoothButtonVariant::Connect, BluetoothButtonVariant::Disconnect);
    assert_ne!(EntryButtonLevel::TopLevel, EntryButtonLevel::SubLevel);
    ignore(Some(3));
    ignore("dropped");
}

#[test]
fn wheel_moves_to_the_neighbouring_option() {
    assert_eq!(scroll_choice(3, Selection::At(0), Scroll::Forward), Some(1));
    assert_eq!(scroll_choice(3, Selection::At(1), Scroll::Forward), Some(2));
    assert_eq!(scroll_choice(3, Selection::At(2), Scroll::Forward), None);
    assert_eq!(scroll_choice(3, Selection::At(2), Scroll::Backward), Some(1));
    assert_eq!(scroll_choice(3, Selection::At(1), Scroll::Backward), Some(0));
    assert_eq!(scroll_choice(3, Selection::At(0), Scroll::Backward), None);
}

#[test]
fn wheel_starts_at_an_end_when_nothing_is_selected() {
    assert_eq!(scroll_choice(3, Selection::Nothing, Scroll::Forward), Some(0));
    assert_eq!(scroll_choice(3, Selection::Nothing, Scroll::Backward), Some(2));
    assert_eq!(scroll_choice(0, Selection::Nothing, Scroll::Forward), None);
    assert_eq!(scroll_choice(0, Selection::Nothing, Scroll::Backward), None);
}

#[test]
fn wheel_selects_nothing_from_a_selection_outside_the_options() {
    assert_eq!(scroll_choice(3, Selection::Elsewhere, Scroll::Forward), None);
    assert_eq!(scroll_choice(3, Selection::Elsewhere, Scroll::Backward), None);
    assert_eq!(scroll_choice(3, Selection::At(3), Scroll::Backward), None);
    assert_eq!(scroll_choice(3, Selection::At(usize::MAX), Scroll::Forward), None);
}
