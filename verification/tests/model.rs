use reset_registry::defaults::DefaultDevice;
use reset_registry::messages::{AudioMsg, AudioReaction, AudioVariant, BackendCall};
use reset_registry::model::AudioModel;
use reset_registry::records::{
    AudioCard, AudioCardProfile, AudioSink, AudioSource, InputStream, OutputStream,
};

fn sink(index: u32, volume: Vec<u32>) -> AudioSink {
    AudioSink {
        index,
        name: format!("sink.{}", index),
        alias: format!("Sink {}", index),
        channels: volume.len() as u16,
        volume,
        muted: false,
        active: 1,
    }
}

fn source(index: u32, volume: Vec<u32>) -> AudioSource {
    AudioSource {
        index,
        name: format!("source.{}", index),
        alias: format!("Source {}", index),
        channels: volume.len() as u16,
        volume,
        muted: false,
        active: -1,
    }
}

fn input_stream(index: u32, sink_index: u32) -> InputStream {
    InputStream {
        index,
        name: format!("playback {}", index),
        application_name: "player".to_string(),
        sink_index,
        channels: 2,
        volume: vec![30_000, 40_000],
        muted: false,
        corked: false,
    }
}

fn output_stream(index: u32, source_index: u32) -> OutputStream {
    OutputStream {
        index,
        name: format!("capture {}", index),
        application_name: "recorder".to_string(),
        source_index,
        channels: 1,
        volume: vec![50_000],
        muted: true,
        corked: true,
    }
}

fn card(index: u32) -> AudioCard {
    AudioCard {
        index,
        name: format!("card {}", index),
        profiles: vec![
            AudioCardProfile {
                name: "stereo".to_string(),
                description: "Analog Stereo".to_string(),
                available: true,
            },
            AudioCardProfile {
                name: "off".to_string(),
                description: "Off".to_string(),
                available: true,
            },
        ],
        active_profile: "stereo".to_string(),
    }
}

fn model_with(sinks: Vec<AudioSink>, default_sink: u32) -> AudioModel {
    AudioModel::new(sinks, default_sink, Vec::new(), 0, Vec::new(), Vec::new(), Vec::new())
}

fn full_model() -> AudioModel {
    AudioModel::new(
        vec![sink(1, vec![10, 20]), sink(2, vec![30])],
        1,
        vec![source(11, vec![5, 6, 7]), source(12, vec![8])],
        12,
        vec![input_stream(21, 1), input_stream(22, 2)],
        vec![output_stream(31, 11)],
        vec![card(41)],
    )
}

#[test]
fn new_files_the_listing_and_takes_the_defaults() {
    let model = full_model();
    assert_eq!(model.sinks().len(), 2);
    assert_eq!(model.sources().len(), 2);
    assert_eq!(model.input_streams().len(), 2);
    assert_eq!(model.output_streams().len(), 1);
    assert_eq!(model.cards().len(), 1);
    assert_eq!(model.default_sink(), DefaultDevice { index: 1, dummy: false });
    assert_eq!(model.default_source(), DefaultDevice { index: 12, dummy: false });
    assert_eq!(model.audio_variant(), AudioVariant::Output);
    assert_eq!(model.sinks().get(2), Some(&sink(2, vec![30])));
    assert_eq!(model.cards().get(41), Some(&card(41)));
}

#[test]
fn new_with_an_unlisted_default_yields_a_dummy_pointer() {
    let model = model_with(vec![sink(1, vec![1])], 9);
    assert_eq!(model.default_sink(), DefaultDevice { index: 9, dummy: true });
    assert_eq!(model.default_source(), DefaultDevice { index: 0, dummy: true });
    assert_eq!(model.default_sink_record(), None);
}

#[test]
fn removing_the_default_of_two_sinks_moves_the_default_to_the_other() {
    let mut model = model_with(vec![sink(1, vec![1]), sink(2, vec![2])], 1);
    let reaction = model.update(AudioMsg::RemoveSink(1));
    assert_eq!(reaction, Some(AudioReaction::Nothing));
    assert_eq!(model.default_sink(), DefaultDevice { index: 2, dummy: false });
    assert!(!model.sinks().contains(1));
    assert!(model.sinks().contains(2));
}

#[test]
fn removing_the_only_sink_sets_the_dummy_and_the_next_added_sink_is_adopted() {
    let mut model = model_with(vec![sink(1, vec![1])], 1);
    model.update(AudioMsg::RemoveSink(1));
    assert!(model.default_sink().dummy);
    assert!(model.sinks().is_empty());
    let reaction = model.update(AudioMsg::AddSink(sink(5, vec![3, 3])));
    assert_eq!(reaction, Some(AudioReaction::Nothing));
    assert_eq!(model.default_sink(), DefaultDevice { index: 5, dummy: false });
    assert_eq!(model.sinks().get(5), Some(&sink(5, vec![3, 3])));
}

#[test]
fn mute_command_for_an_absent_sink_changes_nothing() {
    let mut model = full_model();
    let before = model.current_snapshot();
    let reaction = model.update(AudioMsg::SetSinkMute(7, true));
    assert_eq!(reaction, None);
    let mut after = model.current_snapshot();
    let mut expected = before;
    after.sinks.sort_by_key(|record| record.index);
    expected.sinks.sort_by_key(|record| record.index);
    after.sources.sort_by_key(|record| record.index);
    expected.sources.sort_by_key(|record| record.index);
    after.input_streams.sort_by_key(|record| record.index);
    expected.input_streams.sort_by_key(|record| record.index);
    assert_eq!(after, expected);
}

#[test]
fn commands_for_absent_targets_are_all_ignored() {
    let mut model = full_model();
    let commands = vec![
        AudioMsg::SetSinkVolume(7, 2, 1),
        AudioMsg::SetSinkMute(7, true),
        AudioMsg::SetDefaultSink(7),
        AudioMsg::SetSourceVolume(7, 2, 1),
        AudioMsg::SetSourceMute(7, true),
        AudioMsg::SetDefaultSource(7),
        AudioMsg::SetInputStreamVolume(7, 2, 1),
        AudioMsg::SetInputStreamMute(7, true),
        AudioMsg::SetSinkOfInputStream(input_stream(7, 1), sink(1, vec![10, 20])),
        AudioMsg::SetOutputStreamVolume(7, 2, 1),
        AudioMsg::SetOutputStreamMute(7, false),
        AudioMsg::SetSourceOfOutputStream(output_stream(7, 11), source(11, vec![5, 6, 7])),
        AudioMsg::SetProfileOfCard(7, "off".to_string()),
    ];
    for command in commands {
        assert_eq!(model.update(command), None);
    }
    assert_eq!(model.default_sink(), DefaultDevice { index: 1, dummy: false });
    assert_eq!(model.default_source(), DefaultDevice { index: 12, dummy: false });
    assert_eq!(model.sinks().get(1), Some(&sink(1, vec![10, 20])));
    assert_eq!(model.sources().get(11), Some(&source(11, vec![5, 6, 7])));
    assert_eq!(model.input_streams().get(21), Some(&input_stream(21, 1)));
    assert_eq!(model.output_streams().get(31), Some(&output_stream(31, 11)));
    assert_eq!(model.cards().get(41), Some(&card(41)));
}

#[test]
fn sink_volume_command_sets_every_channel() {
    let mut model = full_model();
    let reaction = model.update(AudioMsg::SetSinkVolume(1, 2, 65_536));
    assert_eq!(
        reaction,
        Some(AudioReaction::Call(BackendCall::SetSinkVolume(1, 2, 65_536)))
    );
    let mut expected = sink(1, vec![65_536, 65_536]);
    expected.channels = 2;
    assert_eq!(model.sinks().get(1), Some(&expected));
    assert_eq!(model.sinks().get(2), Some(&sink(2, vec![30])));
}

#[test]
fn source_volume_command_sets_every_channel() {
    let mut model = full_model();
    let reaction = model.update(AudioMsg::SetSourceVolume(11, 3, 0));
    assert_eq!(reaction, Some(AudioReaction::Call(BackendCall::SetSourceVolume(11, 3, 0))));
    assert_eq!(model.sources().get(11).map(|record| record.volume.clone()), Some(vec![0, 0, 0]));
}

#[test]
fn stream_volume_commands_set_every_channel() {
    let mut model = full_model();
    let reaction = model.update(AudioMsg::SetInputStreamVolume(21, 2, 100_270));
    assert_eq!(
        reaction,
        Some(AudioReaction::Call(BackendCall::SetInputStreamVolume(21, 2, 100_270)))
    );
    assert_eq!(
        model.input_streams().get(21).map(|record| record.volume.clone()),
        Some(vec![100_270, 100_270])
    );
    let reaction = model.update(AudioMsg::SetOutputStreamVolume(31, 1, u32::MAX));
    assert_eq!(
        reaction,
        Some(AudioReaction::Call(BackendCall::SetOutputStreamVolume(31, 1, u32::MAX)))
    );
    assert_eq!(
        model.output_streams().get(31).map(|record| record.volume.clone()),
        Some(vec![u32::MAX])
    );
}

#[test]
fn volume_command_passes_the_channel_count_on_unchanged() {
    let mut model = full_model();
    let reaction = model.update(AudioMsg::SetSinkVolume(2, 9, 4));
    assert_eq!(reaction, Some(AudioReaction::Call(BackendCall::SetSinkVolume(2, 9, 4))));
    assert_eq!(model.sinks().get(2).map(|record| record.volume.clone()), Some(vec![4]));
    assert_eq!(model.sinks().get(2).map(|record| record.channels), Some(1));
}

#[test]
fn mute_commands_set_the_flag_and_call_the_backend() {
    let mut model = full_model();
    assert_eq!(
        model.update(AudioMsg::SetSinkMute(2, true)),
        Some(AudioReaction::Call(BackendCall::SetSinkMute(2, true)))
    );
    assert_eq!(model.sinks().get(2).map(|record| record.muted), Some(true));
    assert_eq!(
        model.update(AudioMsg::SetSourceMute(12, true)),
        Some(AudioReaction::Call(BackendCall::SetSourceMute(12, true)))
    );
    assert_eq!(model.sources().get(12).map(|record| record.muted), Some(true));
    assert_eq!(
        model.update(AudioMsg::SetInputStreamMute(22, true)),
        Some(AudioReaction::Call(BackendCall::SetInputStreamMute(22, true)))
    );
    assert_eq!(model.input_streams().get(22).map(|record| record.muted), Some(true));
    assert_eq!(
        model.update(AudioMsg::SetOutputStreamMute(31, false)),
        Some(AudioReaction::Call(BackendCall::SetOutputStreamMute(31, false)))
    );
    assert_eq!(model.output_streams().get(31).map(|record| record.muted), Some(false));
}

#[test]
fn mute_command_keeps_the_other_fields() {
    let mut model = full_model();
    model.update(AudioMsg::SetSinkMute(1, true));
    let mut expected = sink(1, vec![10, 20]);
    expected.muted = true;
    assert_eq!(model.sinks().get(1), Some(&expected));
}

#[test]
fn set_default_sink_selects_an_existing_sink_and_names_it_to_the_backend() {
    let mut model = full_model();
    let reaction = model.update(AudioMsg::SetDefaultSink(2));
    assert_eq!(
        reaction,
        Some(AudioReaction::Call(BackendCall::SetDefaultSink("sink.2".to_string())))
    );
    assert_eq!(model.default_sink(), DefaultDevice { index: 2, dummy: false });
    assert_eq!(model.default_sink_record(), Some(&sink(2, vec![30])));
}

#[test]
fn set_default_source_selects_an_existing_source() {
    let mut model = full_model();
    let reaction = model.update(AudioMsg::SetDefaultSource(11));
    assert_eq!(
        reaction,
        Some(AudioReaction::Call(BackendCall::SetDefaultSource("source.11".to_string())))
    );
    assert_eq!(model.default_source(), DefaultDevice { index: 11, dummy: false });
}

#[test]
fn set_default_of_a_missing_device_keeps_the_pointer() {
    let mut model = full_model();
    assert_eq!(model.update(AudioMsg::SetDefaultSink(3)), None);
    assert_eq!(model.default_sink(), DefaultDevice { index: 1, dummy: false });
    assert_eq!(model.update(AudioMsg::SetDefaultSource(3)), None);
    assert_eq!(model.default_source(), DefaultDevice { index: 12, dummy: false });
}

#[test]
fn set_default_clears_a_dummy() {
    let mut model = model_with(vec![sink(4, vec![1])], 9);
    assert!(model.default_sink().dummy);
    model.update(AudioMsg::SetDefaultSink(4));
    assert_eq!(model.default_sink(), DefaultDevice { index: 4, dummy: false });
}

#[test]
fn routing_command_moves_the_stream_and_hands_both_records_to_the_backend() {
    let mut model = full_model();
    let reaction = model.update(AudioMsg::SetSinkOfInputStream(
        input_stream(21, 1),
        sink(2, vec![30]),
    ));
    assert_eq!(
        reaction,
        Some(AudioReaction::Call(BackendCall::SetSinkOfInputStream(
            input_stream(21, 1),
            sink(2, vec![30])
        )))
    );
    assert_eq!(model.input_streams().get(21), Some(&input_stream(21, 2)));
    let reaction = model.update(AudioMsg::SetSourceOfOutputStream(
        output_stream(31, 11),
        source(12, vec![8]),
    ));
    assert_eq!(
        reaction,
        Some(AudioReaction::Call(BackendCall::SetSourceOfOutputStream(
            output_stream(31, 11),
            source(12, vec![8])
        )))
    );
    assert_eq!(model.output_streams().get(31), Some(&output_stream(31, 12)));
}

#[test]
fn routing_to_a_device_that_is_not_stored_leaves_a_gap_not_a_failure() {
    let mut model = full_model();
    model.update(AudioMsg::SetSinkOfInputStream(input_stream(21, 1), sink(99, vec![1])));
    let stream = model.input_streams().get(21).cloned();
    assert_eq!(stream, Some(input_stream(21, 99)));
    assert_eq!(model.sink_of(&input_stream(21, 99)), None);
    assert_eq!(model.sink_of(&input_stream(22, 2)), Some(&sink(2, vec![30])));
    assert_eq!(model.source_of(&output_stream(31, 11)), Some(&source(11, vec![5, 6, 7])));
    assert_eq!(model.source_of(&output_stream(31, 77)), None);
}

#[test]
fn card_profile_command_changes_only_the_active_profile() {
    let mut model = full_model();
    let reaction = model.update(AudioMsg::SetProfileOfCard(41, "off".to_string()));
    assert_eq!(
        reaction,
        Some(AudioReaction::Call(BackendCall::SetCardProfileOfDevice(41, "off".to_string())))
    );
    let mut expected = card(41);
    expected.active_profile = "off".to_string();
    assert_eq!(model.cards().get(41), Some(&expected));
}

#[test]
fn added_events_overwrite_what_a_command_set() {
    let mut model = full_model();
    model.update(AudioMsg::SetSinkVolume(1, 2, 500));
    model.update(AudioMsg::SetSinkMute(1, true));
    let reaction = model.update(AudioMsg::AddSink(sink(1, vec![77, 78])));
    assert_eq!(reaction, Some(AudioReaction::Nothing));
    assert_eq!(model.sinks().get(1), Some(&sink(1, vec![77, 78])));
    assert_eq!(model.sinks().len(), 2);
}

#[test]
fn added_event_twice_is_the_same_as_once() {
    let mut model = model_with(Vec::new(), 0);
    model.update(AudioMsg::AddSink(sink(3, vec![1, 2])));
    let once = model.current_snapshot();
    model.update(AudioMsg::AddSink(sink(3, vec![1, 2])));
    assert_eq!(model.current_snapshot(), once);
}

#[test]
fn added_sink_leaves_a_valid_default() {
    let mut model = full_model();
    model.update(AudioMsg::AddSink(sink(3, vec![1])));
    assert_eq!(model.default_sink(), DefaultDevice { index: 1, dummy: false });
    assert_eq!(model.sinks().len(), 3);
}

#[test]
fn source_removal_moves_the_default_or_sets_the_dummy() {
    let mut model = full_model();
    model.update(AudioMsg::RemoveSource(12));
    assert_eq!(model.default_source(), DefaultDevice { index: 11, dummy: false });
    model.update(AudioMsg::RemoveSource(11));
    assert_eq!(model.default_source(), DefaultDevice { index: 11, dummy: true });
    assert!(model.sources().is_empty());
    model.update(AudioMsg::AddSource(source(2, vec![1])));
    assert_eq!(model.default_source(), DefaultDevice { index: 2, dummy: false });
}

#[test]
fn removing_a_sink_that_is_not_the_default_keeps_the_default() {
    let mut model = full_model();
    model.update(AudioMsg::RemoveSink(2));
    assert_eq!(model.default_sink(), DefaultDevice { index: 1, dummy: false });
    assert_eq!(model.sinks().len(), 1);
}

#[test]
fn removing_an_absent_record_changes_no_store() {
    let mut model = full_model();
    let before = model.current_snapshot();
    for msg in vec![
        AudioMsg::RemoveSink(70),
        AudioMsg::RemoveSource(70),
        AudioMsg::RemoveInputStream(70),
        AudioMsg::RemoveOutputStream(70),
        AudioMsg::RemoveAudioCard(70),
    ] {
        assert_eq!(model.update(msg), Some(AudioReaction::Nothing));
    }
    let mut after = model.current_snapshot();
    let mut expected = before;
    after.sinks.sort_by_key(|record| record.index);
    expected.sinks.sort_by_key(|record| record.index);
    after.sources.sort_by_key(|record| record.index);
    expected.sources.sort_by_key(|record| record.index);
    after.input_streams.sort_by_key(|record| record.index);
    expected.input_streams.sort_by_key(|record| record.index);
    assert_eq!(after, expected);
}

#[test]
fn stream_and_card_events_file_and_delete_records() {
    let mut model = model_with(Vec::new(), 0);
    assert_eq!(
        model.update(AudioMsg::AddInputStream(input_stream(1, 5))),
        Some(AudioReaction::Nothing)
    );
    assert_eq!(
        model.update(AudioMsg::AddOutputStream(output_stream(2, 6))),
        Some(AudioReaction::Nothing)
    );
    assert_eq!(model.update(AudioMsg::AddAudioCard(card(3))), Some(AudioReaction::Nothing));
    assert_eq!(model.input_streams().get(1), Some(&input_stream(1, 5)));
    assert_eq!(model.output_streams().get(2), Some(&output_stream(2, 6)));
    assert_eq!(model.cards().get(3), Some(&card(3)));
    model.update(AudioMsg::RemoveInputStream(1));
    model.update(AudioMsg::RemoveOutputStream(2));
    model.update(AudioMsg::RemoveAudioCard(3));
    assert!(model.input_streams().is_empty());
    assert!(model.output_streams().is_empty());
    assert!(model.cards().is_empty());
}

#[test]
fn set_audio_variant_shows_the_audio_page() {
    let mut model = full_model();
    let reaction = model.update(AudioMsg::SetAudioVariant(AudioVariant::Cards));
    assert_eq!(reaction, Some(AudioReaction::ShowAudioPage));
    assert_eq!(model.audio_variant(), AudioVariant::Cards);
    assert_eq!(model.sinks().len(), 2);
}

#[test]
fn snapshot_holds_every_record_and_both_pointers() {
    let model = full_model();
    let mut snapshot = model.current_snapshot();
    snapshot.sinks.sort_by_key(|record| record.index);
    snapshot.sources.sort_by_key(|record| record.index);
    snapshot.input_streams.sort_by_key(|record| record.index);
    assert_eq!(snapshot.sinks, vec![sink(1, vec![10, 20]), sink(2, vec![30])]);
    assert_eq!(snapshot.sources, vec![source(11, vec![5, 6, 7]), source(12, vec![8])]);
    assert_eq!(snapshot.input_streams, vec![input_stream(21, 1), input_stream(22, 2)]);
    assert_eq!(snapshot.output_streams, vec![output_stream(31, 11)]);
    assert_eq!(snapshot.cards, vec![card(41)]);
    assert_eq!(snapshot.default_sink, DefaultDevice { index: 1, dummy: false });
    assert_eq!(snapshot.default_source, DefaultDevice { index: 12, dummy: false });
}

#[test]
fn default_records_follow_the_pointers() {
    let mut model = full_model();
    assert_eq!(model.default_sink_record(), Some(&sink(1, vec![10, 20])));
    assert_eq!(model.default_source_record(), Some(&source(12, vec![8])));
    model.update(AudioMsg::RemoveSource(12));
    assert_eq!(model.default_source_record(), Some(&source(11, vec![5, 6, 7])));
    model.update(AudioMsg::RemoveSource(11));
    assert_eq!(model.default_source_record(), None);
}

#[test]
fn default_pointer_never_names_a_removed_device() {
    let mut model = model_with(
        vec![sink(1, vec![1]), sink(2, vec![1]), sink(3, vec![1]), sink(4, vec![1])],
        3,
    );
    for index in [3, 1, 4, 2, 2] {
        model.update(AudioMsg::RemoveSink(index));
        let pointer = model.default_sink();
        assert!(pointer.dummy || model.sinks().contains(pointer.index));
        assert_eq!(pointer.dummy, model.sinks().is_empty());
    }
}
