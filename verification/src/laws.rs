//! Laws of the processor, stated over the relation [`handled`] that
//! [`AudioModel::update`](crate::model::AudioModel::update) promises.

use crate::defaults::DefaultDevice;
use crate::messages::{AudioMsg, AudioReaction};
use crate::model::{consistent, handled, AudioModelView};
use crate::records::{AudioSink, AudioSource};
use crate::volume::all_channels_at;
use vstd::prelude::*;

verus! {

/// True when `msg` is a command and the record it is meant for is not in the
/// store.
pub open spec fn target_missing(state: AudioModelView, msg: AudioMsg) -> bool {
    match msg {
        AudioMsg::SetSinkVolume(index, _, _) => !state.sinks.contains_key(index),
        AudioMsg::SetSinkMute(index, _) => !state.sinks.contains_key(index),
        AudioMsg::SetDefaultSink(index) => !state.sinks.contains_key(index),
        AudioMsg::SetSourceVolume(index, _, _) => !state.sources.contains_key(index),
        AudioMsg::SetSourceMute(index, _) => !state.sources.contains_key(index),
        AudioMsg::SetDefaultSource(index) => !state.sources.contains_key(index),
        AudioMsg::SetInputStreamVolume(index, _, _) => !state.input_streams.contains_key(index),
        AudioMsg::SetInputStreamMute(index, _) => !state.input_streams.contains_key(index),
        AudioMsg::SetSinkOfInputStream(stream, _) => !state.input_streams.contains_key(
            stream.index,
        ),
        AudioMsg::SetOutputStreamVolume(index, _, _) => !state.output_streams.contains_key(index),
        AudioMsg::SetOutputStreamMute(index, _) => !state.output_streams.contains_key(index),
        AudioMsg::SetSourceOfOutputStream(stream, _) => !state.output_streams.contains_key(
            stream.index,
        ),
        AudioMsg::SetProfileOfCard(index, _) => !state.cards.contains_key(index),
        _ => false,
    }
}

/// True when `msg` reports an added or changed record.
pub open spec fn is_upsert(msg: AudioMsg) -> bool {
    msg is AddSink || msg is AddSource || msg is AddInputStream || msg is AddOutputStream
        || msg is AddAudioCard
}

/// True when `msg` is an event: a report of what the backend did.
pub open spec fn is_event(msg: AudioMsg) -> bool {
    is_upsert(msg) || msg is RemoveSink || msg is RemoveSource || msg is RemoveInputStream
        || msg is RemoveOutputStream || msg is RemoveAudioCard
}

/// True when `msg` is a command that the backend has a part in.
pub open spec fn is_command(msg: AudioMsg) -> bool {
    !is_event(msg) && !(msg is SetAudioVariant)
}

/// An event is always applied and never asks anything of the backend. A
/// command whose target exists always hands out a call for the backend. No
/// command creates or deletes a record, and only the choice of a default
/// moves a default pointer.
pub proof fn lemma_events_apply_commands_call(
    pre: AudioModelView,
    msg: AudioMsg,
    post: AudioModelView,
    reaction: Option<AudioReaction>,
)
    requires
        handled(pre, msg, post, reaction),
    ensures
        is_event(msg) ==> reaction == Some(AudioReaction::Nothing),
        is_command(msg) && !target_missing(pre, msg) ==> reaction matches Some(
            AudioReaction::Call(_),
        ),
        is_command(msg) && !(msg is SetDefaultSink) && !(msg is SetDefaultSource)
            ==> post.default_sink == pre.default_sink && post.default_source
            == pre.default_source,
        is_command(msg) ==> post.sinks.dom() == pre.sinks.dom() && post.sources.dom()
            == pre.sources.dom() && post.input_streams.dom() == pre.input_streams.dom()
            && post.output_streams.dom() == pre.output_streams.dom() && post.cards.dom()
            == pre.cards.dom(),
{
    if is_command(msg) {
        assert(post.sinks.dom() =~= pre.sinks.dom());
        assert(post.sources.dom() =~= pre.sources.dom());
        assert(post.input_streams.dom() =~= pre.input_streams.dom());
        assert(post.output_streams.dom() =~= pre.output_streams.dom());
        assert(post.cards.dom() =~= pre.cards.dom());
    }
}

/// Whatever the message, a consistent state is followed by a consistent
/// state: records stay filed under their own index, and no default pointer
/// is left naming a device that is gone.
pub proof fn lemma_consistency_preserved(
    pre: AudioModelView,
    msg: AudioMsg,
    post: AudioModelView,
    reaction: Option<AudioReaction>,
)
    requires
        consistent(pre),
        handled(pre, msg, post, reaction),
    ensures
        consistent(post),
{
}

/// A command for a record that is not in the store changes nothing and asks
/// nothing of the backend; every other message is answered.
pub proof fn lemma_stale_command_ignored(
    pre: AudioModelView,
    msg: AudioMsg,
    post: AudioModelView,
    reaction: Option<AudioReaction>,
)
    requires
        handled(pre, msg, post, reaction),
    ensures
        target_missing(pre, msg) ==> post == pre && reaction is None,
        !target_missing(pre, msg) ==> reaction is Some,
{
}

/// Processing the same added-or-changed event a second time changes nothing.
pub proof fn lemma_upsert_event_idempotent(
    pre: AudioModelView,
    msg: AudioMsg,
    once: AudioModelView,
    twice: AudioModelView,
    first: Option<AudioReaction>,
    second: Option<AudioReaction>,
)
    requires
        is_upsert(msg),
        handled(pre, msg, once, first),
        handled(once, msg, twice, second),
    ensures
        twice == once,
{
    match msg {
        AudioMsg::AddSink(record) => {
            assert(twice.sinks =~= once.sinks);
        },
        AudioMsg::AddSource(record) => {
            assert(twice.sources =~= once.sources);
        },
        AudioMsg::AddInputStream(record) => {
            assert(twice.input_streams =~= once.input_streams);
        },
        AudioMsg::AddOutputStream(record) => {
            assert(twice.output_streams =~= once.output_streams);
        },
        AudioMsg::AddAudioCard(record) => {
            assert(twice.cards =~= once.cards);
        },
        _ => {},
    }
}

/// An added-or-changed event is authoritative: afterwards the store holds the
/// record exactly as the event reports it, whatever a command had set
/// before; the other stores are as they were.
pub proof fn lemma_upsert_event_overwrites(
    pre: AudioModelView,
    msg: AudioMsg,
    post: AudioModelView,
    reaction: Option<AudioReaction>,
)
    requires
        is_upsert(msg),
        handled(pre, msg, post, reaction),
    ensures
        reaction == Some(AudioReaction::Nothing),
        match msg {
            AudioMsg::AddSink(record) => post.sinks == pre.sinks.insert(record.index, record@)
                && post.sinks[record.index] == record@,
            AudioMsg::AddSource(record) => post.sources == pre.sources.insert(
                record.index,
                record@,
            ) && post.sources[record.index] == record@,
            AudioMsg::AddInputStream(record) => post == AudioModelView {
                input_streams: pre.input_streams.insert(record.index, record@),
                ..pre
            } && post.input_streams[record.index] == record@,
            AudioMsg::AddOutputStream(record) => post == AudioModelView {
                output_streams: pre.output_streams.insert(record.index, record@),
                ..pre
            } && post.output_streams[record.index] == record@,
            AudioMsg::AddAudioCard(record) => post == AudioModelView {
                cards: pre.cards.insert(record.index, record@),
                ..pre
            } && post.cards[record.index] == record@,
            _ => true,
        },
{
}

/// Removing a sink that is not in the store leaves every store as it
/// was.
pub proof fn lemma_absent_sink_removed(
    pre: AudioModelView,
    index: u32,
    post: AudioModelView,
    reaction: Option<AudioReaction>,
)
    requires
        !pre.sinks.contains_key(index),
        handled(pre, AudioMsg::RemoveSink(index), post, reaction),
    ensures
        post.sinks == pre.sinks,
        post.sources == pre.sources,
        post.input_streams == pre.input_streams,
        post.output_streams == pre.output_streams,
        post.cards == pre.cards,
{
    assert(pre.sinks.remove(index) =~= pre.sinks);
}

/// Removing a source that is not in the store leaves every store as it
/// was.
pub proof fn lemma_absent_source_removed(
    pre: AudioModelView,
    index: u32,
    post: AudioModelView,
    reaction: Option<AudioReaction>,
)
    requires
        !pre.sources.contains_key(index),
        handled(pre, AudioMsg::RemoveSource(index), post, reaction),
    ensures
        post.sinks == pre.sinks,
        post.sources == pre.sources,
        post.input_streams == pre.input_streams,
        post.output_streams == pre.output_streams,
        post.cards == pre.cards,
{
    assert(pre.sources.remove(index) =~= pre.sources);
}

/// Removing a input stream that is not in the store leaves every store as it
/// was.
pub proof fn lemma_absent_input_stream_removed(
    pre: AudioModelView,
    index: u32,
    post: AudioModelView,
    reaction: Option<AudioReaction>,
)
    requires
        !pre.input_streams.contains_key(index),
        handled(pre, AudioMsg::RemoveInputStream(index), post, reaction),
    ensures
        post.sinks == pre.sinks,
        post.sources == pre.sources,
        post.input_streams == pre.input_streams,
        post.output_streams == pre.output_streams,
        post.cards == pre.cards,
{
    assert(pre.input_streams.remove(index) =~= pre.input_streams);
}

/// Removing a output stream that is not in the store leaves every store as it
/// was.
pub proof fn lemma_absent_output_stream_removed(
    pre: AudioModelView,
    index: u32,
    post: AudioModelView,
    reaction: Option<AudioReaction>,
)
    requires
        !pre.output_streams.contains_key(index),
        handled(pre, AudioMsg::RemoveOutputStream(index), post, reaction),
    ensures
        post.sinks == pre.sinks,
        post.sources == pre.sources,
        post.input_streams == pre.input_streams,
        post.output_streams == pre.output_streams,
        post.cards == pre.cards,
{
    assert(pre.output_streams.remove(index) =~= pre.output_streams);
}

/// Removing a card that is not in the store leaves every store as it
/// was.
pub proof fn lemma_absent_card_removed(
    pre: AudioModelView,
    index: u32,
    post: AudioModelView,
    reaction: Option<AudioReaction>,
)
    requires
        !pre.cards.contains_key(index),
        handled(pre, AudioMsg::RemoveAudioCard(index), post, reaction),
    ensures
        post.sinks == pre.sinks,
        post.sources == pre.sources,
        post.input_streams == pre.input_streams,
        post.output_streams == pre.output_streams,
        post.cards == pre.cards,
{
    assert(pre.cards.remove(index) =~= pre.cards);
}

/// When the default sink is removed and another sink remains, the new
/// default is one of the remaining sinks; when none remains, the pointer
/// becomes a dummy.
pub proof fn lemma_default_sink_removed(
    pre: AudioModelView,
    index: u32,
    post: AudioModelView,
    reaction: Option<AudioReaction>,
)
    requires
        pre.default_sink.index == index,
        handled(pre, AudioMsg::RemoveSink(index), post, reaction),
    ensures
        post.sinks == pre.sinks.remove(index),
        (exists|other: u32| post.sinks.contains_key(other)) ==> post.sinks.contains_key(
            post.default_sink.index,
        ),
        (forall|other: u32| !post.sinks.contains_key(other)) ==> post.default_sink.dummy,
{
    if forall|other: u32| !post.sinks.contains_key(other) {
        assert(pre.sinks.dom().remove(index) =~= Set::<u32>::empty());
    }
    if exists|other: u32| post.sinks.contains_key(other) {
        let other = choose|other: u32| post.sinks.contains_key(other);
        assert(pre.sinks.dom().remove(index).contains(other));
    }
}

/// An added sink becomes the default while the pointer is a dummy; a
/// valid default is not changed by an addition.
pub proof fn lemma_sink_added(
    pre: AudioModelView,
    record: AudioSink,
    post: AudioModelView,
    reaction: Option<AudioReaction>,
)
    requires
        handled(pre, AudioMsg::AddSink(record), post, reaction),
    ensures
        pre.default_sink.dummy ==> post.default_sink == (DefaultDevice {
            index: record.index,
            dummy: false,
        }),
        !pre.default_sink.dummy ==> post.default_sink == pre.default_sink,
        post.sinks.contains_key(record.index),
        post.sinks[record.index] == record@,
{
}

/// When the default source is removed and another source remains, the new
/// default is one of the remaining sources; when none remains, the pointer
/// becomes a dummy.
pub proof fn lemma_default_source_removed(
    pre: AudioModelView,
    index: u32,
    post: AudioModelView,
    reaction: Option<AudioReaction>,
)
    requires
        pre.default_source.index == index,
        handled(pre, AudioMsg::RemoveSource(index), post, reaction),
    ensures
        post.sources == pre.sources.remove(index),
        (exists|other: u32| post.sources.contains_key(other)) ==> post.sources.contains_key(
            post.default_source.index,
        ),
        (forall|other: u32| !post.sources.contains_key(other)) ==> post.default_source.dummy,
{
    if forall|other: u32| !post.sources.contains_key(other) {
        assert(pre.sources.dom().remove(index) =~= Set::<u32>::empty());
    }
    if exists|other: u32| post.sources.contains_key(other) {
        let other = choose|other: u32| post.sources.contains_key(other);
        assert(pre.sources.dom().remove(index).contains(other));
    }
}

/// An added source becomes the default while the pointer is a dummy; a
/// valid default is not changed by an addition.
pub proof fn lemma_source_added(
    pre: AudioModelView,
    record: AudioSource,
    post: AudioModelView,
    reaction: Option<AudioReaction>,
)
    requires
        handled(pre, AudioMsg::AddSource(record), post, reaction),
    ensures
        pre.default_source.dummy ==> post.default_source == (DefaultDevice {
            index: record.index,
            dummy: false,
        }),
        !pre.default_source.dummy ==> post.default_source == pre.default_source,
        post.sources.contains_key(record.index),
        post.sources[record.index] == record@,
{
}

/// After a volume command for a sink that exists, every channel of that
/// sink reports the commanded level, and it has as many channels as before.
pub proof fn lemma_sink_volume_broadcast(
    pre: AudioModelView,
    index: u32,
    channels: u16,
    level: u32,
    post: AudioModelView,
    reaction: Option<AudioReaction>,
)
    requires
        pre.sinks.contains_key(index),
        handled(pre, AudioMsg::SetSinkVolume(index, channels, level), post, reaction),
    ensures
        post.sinks.contains_key(index),
        post.sinks[index].volume.len() == pre.sinks[index].volume.len(),
        all_channels_at(post.sinks[index].volume, level),
{
}

/// After a volume command for a source that exists, every channel of that
/// source reports the commanded level, and it has as many channels as before.
pub proof fn lemma_source_volume_broadcast(
    pre: AudioModelView,
    index: u32,
    channels: u16,
    level: u32,
    post: AudioModelView,
    reaction: Option<AudioReaction>,
)
    requires
        pre.sources.contains_key(index),
        handled(pre, AudioMsg::SetSourceVolume(index, channels, level), post, reaction),
    ensures
        post.sources.contains_key(index),
        post.sources[index].volume.len() == pre.sources[index].volume.len(),
        all_channels_at(post.sources[index].volume, level),
{
}

/// After a volume command for a input stream that exists, every channel of that
/// input stream reports the commanded level, and it has as many channels as before.
pub proof fn lemma_input_stream_volume_broadcast(
    pre: AudioModelView,
    index: u32,
    channels: u16,
    level: u32,
    post: AudioModelView,
    reaction: Option<AudioReaction>,
)
    requires
        pre.input_streams.contains_key(index),
        handled(pre, AudioMsg::SetInputStreamVolume(index, channels, level), post, reaction),
    ensures
        post.input_streams.contains_key(index),
        post.input_streams[index].volume.len() == pre.input_streams[index].volume.len(),
        all_channels_at(post.input_streams[index].volume, level),
{
}

/// After a volume command for a output stream that exists, every channel of that
/// output stream reports the commanded level, and it has as many channels as before.
pub proof fn lemma_output_stream_volume_broadcast(
    pre: AudioModelView,
    index: u32,
    channels: u16,
    level: u32,
    post: AudioModelView,
    reaction: Option<AudioReaction>,
)
    requires
        pre.output_streams.contains_key(index),
        handled(pre, AudioMsg::SetOutputStreamVolume(index, channels, level), post, reaction),
    ensures
        post.output_streams.contains_key(index),
        post.output_streams[index].volume.len() == pre.output_streams[index].volume.len(),
        all_channels_at(post.output_streams[index].volume, level),
{
}

} // verus!
