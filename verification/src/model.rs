//! The processor: the one owner of the registry's state.
//!
//! [`AudioModel::update`] consumes one message at a time. A command is
//! applied to the local record at once and answered with the call that the
//! backend is to receive; a command whose target is not in the store changes
//! nothing. An event is authoritative and overwrites what is stored.

use crate::defaults::DefaultDevice;
use crate::messages::{AudioMsg, AudioReaction, AudioVariant, BackendCall};
use crate::records::{
    AudioCard, AudioCardView, AudioSink, AudioSinkView, AudioSource, AudioSourceView, InputStream,
    InputStreamView, OutputStream, OutputStreamView,
};
use crate::store::{filed, keyed_by_index, lists_exactly, to_map, EntityStore};
use crate::volume::{all_channels_at, broadcast_levels, set_volume};
use vstd::prelude::*;

verus! {

/// The state of the registry as a mathematical value.
pub struct AudioModelView {
    pub default_sink: DefaultDevice,
    pub default_source: DefaultDevice,
    pub audio_variant: AudioVariant,
    pub sinks: Map<u32, AudioSinkView>,
    pub sources: Map<u32, AudioSourceView>,
    pub input_streams: Map<u32, InputStreamView>,
    pub output_streams: Map<u32, OutputStreamView>,
    pub cards: Map<u32, AudioCardView>,
}

/// Every record is filed under its own index, and each default pointer names
/// a device that exists or is a dummy.
pub open spec fn consistent(state: AudioModelView) -> bool {
    &&& keyed_by_index::<AudioSink>(state.sinks)
    &&& keyed_by_index::<AudioSource>(state.sources)
    &&& keyed_by_index::<InputStream>(state.input_streams)
    &&& keyed_by_index::<OutputStream>(state.output_streams)
    &&& keyed_by_index::<AudioCard>(state.cards)
    &&& state.default_sink.valid_for(state.sinks.dom())
    &&& state.default_source.valid_for(state.sources.dom())
}

/// The outcome of a command whose target is not in the store: no change, and
/// nothing for the backend.
pub open spec fn ignored(
    pre: AudioModelView,
    post: AudioModelView,
    reaction: Option<AudioReaction>,
) -> bool {
    post == pre && reaction is None
}

/// The sink `record` with every channel at `level`.
pub open spec fn sink_at_level(record: AudioSinkView, level: u32) -> AudioSinkView {
    AudioSinkView { volume: broadcast_levels(record.volume.len(), level), ..record }
}

/// The sink `record` with its mute flag at `muted`.
pub open spec fn sink_with_mute(record: AudioSinkView, muted: bool) -> AudioSinkView {
    AudioSinkView { muted, ..record }
}

/// The source `record` with every channel at `level`.
pub open spec fn source_at_level(record: AudioSourceView, level: u32) -> AudioSourceView {
    AudioSourceView { volume: broadcast_levels(record.volume.len(), level), ..record }
}

/// The source `record` with its mute flag at `muted`.
pub open spec fn source_with_mute(record: AudioSourceView, muted: bool) -> AudioSourceView {
    AudioSourceView { muted, ..record }
}

/// The input stream `record` with every channel at `level`.
pub open spec fn input_stream_at_level(record: InputStreamView, level: u32) -> InputStreamView {
    InputStreamView { volume: broadcast_levels(record.volume.len(), level), ..record }
}

/// The input stream `record` with its mute flag at `muted`.
pub open spec fn input_stream_with_mute(record: InputStreamView, muted: bool) -> InputStreamView {
    InputStreamView { muted, ..record }
}

/// The output stream `record` with every channel at `level`.
pub open spec fn output_stream_at_level(record: OutputStreamView, level: u32) -> OutputStreamView {
    OutputStreamView { volume: broadcast_levels(record.volume.len(), level), ..record }
}

/// The output stream `record` with its mute flag at `muted`.
pub open spec fn output_stream_with_mute(
    record: OutputStreamView,
    muted: bool,
) -> OutputStreamView {
    OutputStreamView { muted, ..record }
}

/// The input stream `record` routed through the sink `target`.
pub open spec fn input_stream_routed_to(record: InputStreamView, target: u32) -> InputStreamView {
    InputStreamView { sink_index: target, ..record }
}

/// The output stream `record` routed through the source `target`.
pub open spec fn output_stream_routed_to(
    record: OutputStreamView,
    target: u32,
) -> OutputStreamView {
    OutputStreamView { source_index: target, ..record }
}

/// The card `record` with `profile` as its active profile.
pub open spec fn card_with_profile(record: AudioCardView, profile: Seq<char>) -> AudioCardView {
    AudioCardView { active_profile: profile, ..record }
}

/// Relates the state before a message to the state after it and to the
/// reaction that the processor hands out.
pub open spec fn handled(
    pre: AudioModelView,
    msg: AudioMsg,
    post: AudioModelView,
    reaction: Option<AudioReaction>,
) -> bool {
    match msg {
        AudioMsg::SetAudioVariant(variant) => {
            &&& post == AudioModelView { audio_variant: variant, ..pre }
            &&& reaction == Some(AudioReaction::ShowAudioPage)
        },
        AudioMsg::SetSinkVolume(index, channels, volume) => {
            if pre.sinks.contains_key(index) {
                &&& post == AudioModelView {
                    sinks: pre.sinks.insert(
                        index,
                        sink_at_level(pre.sinks[index], volume),
                    ),
                    ..pre
                }
                &&& reaction == Some(
                    AudioReaction::Call(BackendCall::SetSinkVolume(index, channels, volume)),
                )
            } else {
                ignored(pre, post, reaction)
            }
        },
        AudioMsg::SetSinkMute(index, muted) => {
            if pre.sinks.contains_key(index) {
                &&& post == AudioModelView {
                    sinks: pre.sinks.insert(
                        index,
                        sink_with_mute(pre.sinks[index], muted),
                    ),
                    ..pre
                }
                &&& reaction == Some(
                    AudioReaction::Call(BackendCall::SetSinkMute(index, muted)),
                )
            } else {
                ignored(pre, post, reaction)
            }
        },
        AudioMsg::AddSink(record) => {
            &&& post == AudioModelView {
                default_sink: pre.default_sink.added(record.index),
                sinks: pre.sinks.insert(record.index, record@),
                ..pre
            }
            &&& reaction == Some(AudioReaction::Nothing)
        },
        AudioMsg::RemoveSink(index) => {
            &&& pre.default_sink.removed(pre.sinks.dom(), index, post.default_sink)
            &&& post == AudioModelView {
                default_sink: post.default_sink,
                sinks: pre.sinks.remove(index),
                ..pre
            }
            &&& reaction == Some(AudioReaction::Nothing)
        },
        AudioMsg::SetDefaultSink(index) => {
            if pre.sinks.contains_key(index) {
                &&& post == AudioModelView {
                    default_sink: DefaultDevice { index, dummy: false },
                    ..pre
                }
                &&& reaction matches Some(AudioReaction::Call(BackendCall::SetDefaultSink(name)))
                &&& name@ == pre.sinks[index].name
            } else {
                ignored(pre, post, reaction)
            }
        },
        AudioMsg::SetSourceVolume(index, channels, volume) => {
            if pre.sources.contains_key(index) {
                &&& post == AudioModelView {
                    sources: pre.sources.insert(
                        index,
                        source_at_level(pre.sources[index], volume),
                    ),
                    ..pre
                }
                &&& reaction == Some(
                    AudioReaction::Call(BackendCall::SetSourceVolume(index, channels, volume)),
                )
            } else {
                ignored(pre, post, reaction)
            }
        },
        AudioMsg::SetSourceMute(index, muted) => {
            if pre.sources.contains_key(index) {
                &&& post == AudioModelView {
                    sources: pre.sources.insert(
                        index,
                        source_with_mute(pre.sources[index], muted),
                    ),
                    ..pre
                }
                &&& reaction == Some(
                    AudioReaction::Call(BackendCall::SetSourceMute(index, muted)),
                )
            } else {
                ignored(pre, post, reaction)
            }
        },
        AudioMsg::AddSource(record) => {
            &&& post == AudioModelView {
                default_source: pre.default_source.added(record.index),
                sources: pre.sources.insert(record.index, record@),
                ..pre
            }
            &&& reaction == Some(AudioReaction::Nothing)
        },
        AudioMsg::RemoveSource(index) => {
            &&& pre.default_source.removed(pre.sources.dom(), index, post.default_source)
            &&& post == AudioModelView {
                default_source: post.default_source,
                sources: pre.sources.remove(index),
                ..pre
            }
            &&& reaction == Some(AudioReaction::Nothing)
        },
        AudioMsg::SetDefaultSource(index) => {
            if pre.sources.contains_key(index) {
                &&& post == AudioModelView {
                    default_source: DefaultDevice { index, dummy: false },
                    ..pre
                }
                &&& reaction matches Some(AudioReaction::Call(BackendCall::SetDefaultSource(name)))
                &&& name@ == pre.sources[index].name
            } else {
                ignored(pre, post, reaction)
            }
        },
        AudioMsg::SetInputStreamMute(index, muted) => {
            if pre.input_streams.contains_key(index) {
                &&& post == AudioModelView {
                    input_streams: pre.input_streams.insert(
                        index,
                        input_stream_with_mute(pre.input_streams[index], muted),
                    ),
                    ..pre
                }
                &&& reaction == Some(
                    AudioReaction::Call(BackendCall::SetInputStreamMute(index, muted)),
                )
            } else {
                ignored(pre, post, reaction)
            }
        },
        AudioMsg::SetInputStreamVolume(index, channels, volume) => {
            if pre.input_streams.contains_key(index) {
                &&& post == AudioModelView {
                    input_streams: pre.input_streams.insert(
                        index,
                        input_stream_at_level(pre.input_streams[index], volume),
                    ),
                    ..pre
                }
                &&& reaction == Some(
                    AudioReaction::Call(BackendCall::SetInputStreamVolume(index, channels, volume)),
                )
            } else {
                ignored(pre, post, reaction)
            }
        },
        AudioMsg::SetSinkOfInputStream(stream, target) => {
            if pre.input_streams.contains_key(stream.index) {
                &&& post == AudioModelView {
                    input_streams: pre.input_streams.insert(
                        stream.index,
                        input_stream_routed_to(pre.input_streams[stream.index], target.index),
                    ),
                    ..pre
                }
                &&& reaction == Some(
                    AudioReaction::Call(BackendCall::SetSinkOfInputStream(stream, target)),
                )
            } else {
                ignored(pre, post, reaction)
            }
        },
        AudioMsg::AddInputStream(record) => {
            &&& post == AudioModelView {
                input_streams: pre.input_streams.insert(record.index, record@),
                ..pre
            }
            &&& reaction == Some(AudioReaction::Nothing)
        },
        AudioMsg::RemoveInputStream(index) => {
            &&& post == AudioModelView { input_streams: pre.input_streams.remove(index), ..pre }
            &&& reaction == Some(AudioReaction::Nothing)
        },
        AudioMsg::SetOutputStreamMute(index, muted) => {
            if pre.output_streams.contains_key(index) {
                &&& post == AudioModelView {
                    output_streams: pre.output_streams.insert(
                        index,
                        output_stream_with_mute(pre.output_streams[index], muted),
                    ),
                    ..pre
                }
                &&& reaction == Some(
                    AudioReaction::Call(BackendCall::SetOutputStreamMute(index, muted)),
                )
            } else {
                ignored(pre, post, reaction)
            }
        },
        AudioMsg::SetOutputStreamVolume(index, channels, volume) => {
            if pre.output_streams.contains_key(index) {
                &&& post == AudioModelView {
                    output_streams: pre.output_streams.insert(
                        index,
                        output_stream_at_level(pre.output_streams[index], volume),
                    ),
                    ..pre
                }
                &&& reaction == Some(
                    AudioReaction::Call(
                        BackendCall::SetOutputStreamVolume(index, channels, volume),
                    ),
                )
            } else {
                ignored(pre, post, reaction)
            }
        },
        AudioMsg::SetSourceOfOutputStream(stream, target) => {
            if pre.output_streams.contains_key(stream.index) {
                &&& post == AudioModelView {
                    output_streams: pre.output_streams.insert(
                        stream.index,
                        output_stream_routed_to(pre.output_streams[stream.index], target.index),
                    ),
                    ..pre
                }
                &&& reaction == Some(
                    AudioReaction::Call(BackendCall::SetSourceOfOutputStream(stream, target)),
                )
            } else {
                ignored(pre, post, reaction)
            }
        },
        AudioMsg::AddOutputStream(record) => {
            &&& post == AudioModelView {
                output_streams: pre.output_streams.insert(record.index, record@),
                ..pre
            }
            &&& reaction == Some(AudioReaction::Nothing)
        },
        AudioMsg::RemoveOutputStream(index) => {
            &&& post == AudioModelView { output_streams: pre.output_streams.remove(index), ..pre }
            &&& reaction == Some(AudioReaction::Nothing)
        },
        AudioMsg::AddAudioCard(record) => {
            &&& post == AudioModelView { cards: pre.cards.insert(record.index, record@), ..pre }
            &&& reaction == Some(AudioReaction::Nothing)
        },
        AudioMsg::RemoveAudioCard(index) => {
            &&& post == AudioModelView { cards: pre.cards.remove(index), ..pre }
            &&& reaction == Some(AudioReaction::Nothing)
        },
        AudioMsg::SetProfileOfCard(index, profile) => {
            if pre.cards.contains_key(index) {
                &&& post == AudioModelView {
                    cards: pre.cards.insert(index, card_with_profile(pre.cards[index], profile@)),
                    ..pre
                }
                &&& reaction == Some(
                    AudioReaction::Call(BackendCall::SetCardProfileOfDevice(index, profile)),
                )
            } else {
                ignored(pre, post, reaction)
            }
        },
    }
}

/// The views of `records`, in the same order.
pub open spec fn record_views<T: View>(records: Seq<T>) -> Seq<T::V> {
    Seq::new(records.len(), |i: int| records[i]@)
}

/// A copy of what the registry holds, for the presentation layer to read.
#[derive(Debug, Clone, PartialEq)]
pub struct AudioSnapshot {
    pub sinks: Vec<AudioSink>,
    pub sources: Vec<AudioSource>,
    pub input_streams: Vec<InputStream>,
    pub output_streams: Vec<OutputStream>,
    pub cards: Vec<AudioCard>,
    pub default_sink: DefaultDevice,
    pub default_source: DefaultDevice,
}

impl AudioSnapshot {
    /// The snapshot shows `state`: each list holds the records of its store,
    /// each once and in no fixed order, and the pointers are the state's.
    pub open spec fn shows(&self, state: AudioModelView) -> bool {
        &&& lists_exactly::<AudioSink>(record_views(self.sinks@), state.sinks)
        &&& lists_exactly::<AudioSource>(record_views(self.sources@), state.sources)
        &&& lists_exactly::<InputStream>(record_views(self.input_streams@), state.input_streams)
        &&& lists_exactly::<OutputStream>(record_views(self.output_streams@), state.output_streams)
        &&& lists_exactly::<AudioCard>(record_views(self.cards@), state.cards)
        &&& self.default_sink == state.default_sink
        &&& self.default_source == state.default_source
    }
}

/// The registry: the stores of the five categories, the two default pointers
/// and the part of the audio page that is shown.
#[derive(Debug)]
pub struct AudioModel {
    default_sink: DefaultDevice,
    default_source: DefaultDevice,
    audio_variant: AudioVariant,
    sinks: EntityStore<AudioSink>,
    sources: EntityStore<AudioSource>,
    input_streams: EntityStore<InputStream>,
    output_streams: EntityStore<OutputStream>,
    cards: EntityStore<AudioCard>,
}

impl View for AudioModel {
    type V = AudioModelView;

    closed spec fn view(&self) -> AudioModelView {
        AudioModelView {
            default_sink: self.default_sink,
            default_source: self.default_source,
            audio_variant: self.audio_variant,
            sinks: self.sinks@,
            sources: self.sources@,
            input_streams: self.input_streams@,
            output_streams: self.output_streams@,
            cards: self.cards@,
        }
    }
}

impl AudioModel {
    /// The stores are well formed and each default pointer names a device
    /// that exists or is a dummy.
    pub closed spec fn wf(&self) -> bool {
        &&& self.sinks.wf()
        &&& self.sources.wf()
        &&& self.input_streams.wf()
        &&& self.output_streams.wf()
        &&& self.cards.wf()
        &&& self.default_sink.valid_for(self.sinks@.dom())
        &&& self.default_source.valid_for(self.sources@.dom())
    }

    /// A well-formed registry is consistent.
    pub proof fn lemma_wf_consistent(&self)
        requires
            self.wf(),
        ensures
            consistent(self@),
    {
        self.sinks.lemma_wf_keyed();
        self.sources.lemma_wf_keyed();
        self.input_streams.lemma_wf_keyed();
        self.output_streams.lemma_wf_keyed();
        self.cards.lemma_wf_keyed();
    }

    /// The registry built from a full listing of every category and the
    /// indices of the backend's default sink and source. A default that the
    /// listing does not hold yields a dummy pointer. The output part of the
    /// page is shown first.
    pub fn new(
        sinks: Vec<AudioSink>,
        default_sink: u32,
        sources: Vec<AudioSource>,
        default_source: u32,
        input_streams: Vec<InputStream>,
        output_streams: Vec<OutputStream>,
        cards: Vec<AudioCard>,
    ) -> (model: Self)
        ensures
            model.wf(),
            model@ == (AudioModelView {
                default_sink: DefaultDevice {
                    index: default_sink,
                    dummy: !filed::<AudioSink>(sinks@).contains_key(default_sink),
                },
                default_source: DefaultDevice {
                    index: default_source,
                    dummy: !filed::<AudioSource>(sources@).contains_key(default_source),
                },
                audio_variant: AudioVariant::Output,
                sinks: filed::<AudioSink>(sinks@),
                sources: filed::<AudioSource>(sources@),
                input_streams: filed::<InputStream>(input_streams@),
                output_streams: filed::<OutputStream>(output_streams@),
                cards: filed::<AudioCard>(cards@),
            }),
    {
        let sinks = to_map(sinks);
        let sources = to_map(sources);
        let default_sink = DefaultDevice::initial(&sinks, default_sink);
        let default_source = DefaultDevice::initial(&sources, default_source);
        AudioModel {
            default_sink,
            default_source,
            audio_variant: AudioVariant::Output,
            sinks,
            sources,
            input_streams: to_map(input_streams),
            output_streams: to_map(output_streams),
            cards: to_map(cards),
        }
    }

    /// The default pointer of the sinks.
    pub fn default_sink(&self) -> (pointer: DefaultDevice)
        ensures
            pointer == self@.default_sink,
    {
        self.default_sink
    }

    /// The default pointer of the sources.
    pub fn default_source(&self) -> (pointer: DefaultDevice)
        ensures
            pointer == self@.default_source,
    {
        self.default_source
    }

    /// The part of the audio page that is shown.
    pub fn audio_variant(&self) -> (variant: AudioVariant)
        ensures
            variant == self@.audio_variant,
    {
        self.audio_variant
    }

    /// The store of the sinks.
    pub fn sinks(&self) -> (store: &EntityStore<AudioSink>)
        ensures
            store@ == self@.sinks,
            self.wf() ==> store.wf(),
    {
        &self.sinks
    }

    /// The store of the sources.
    pub fn sources(&self) -> (store: &EntityStore<AudioSource>)
        ensures
            store@ == self@.sources,
            self.wf() ==> store.wf(),
    {
        &self.sources
    }

    /// The store of the input streams.
    pub fn input_streams(&self) -> (store: &EntityStore<InputStream>)
        ensures
            store@ == self@.input_streams,
            self.wf() ==> store.wf(),
    {
        &self.input_streams
    }

    /// The store of the output streams.
    pub fn output_streams(&self) -> (store: &EntityStore<OutputStream>)
        ensures
            store@ == self@.output_streams,
            self.wf() ==> store.wf(),
    {
        &self.output_streams
    }

    /// The store of the cards.
    pub fn cards(&self) -> (store: &EntityStore<AudioCard>)
        ensures
            store@ == self@.cards,
            self.wf() ==> store.wf(),
    {
        &self.cards
    }

    /// The record of the default sink, or `None` while the pointer is a
    /// dummy or names a sink that the store does not hold.
    pub fn default_sink_record(&self) -> (record: Option<&AudioSink>)
        ensures
            match record {
                Some(found) => !self@.default_sink.dummy && self@.sinks.contains_key(
                    self@.default_sink.index,
                ) && found@ == self@.sinks[self@.default_sink.index],
                None => self@.default_sink.dummy || !self@.sinks.contains_key(
                    self@.default_sink.index,
                ),
            },
    {
        if self.default_sink.dummy {
            None
        } else {
            self.sinks.get(self.default_sink.index)
        }
    }

    /// The record of the default source, or `None` while the pointer is a
    /// dummy or names a source that the store does not hold.
    pub fn default_source_record(&self) -> (record: Option<&AudioSource>)
        ensures
            match record {
                Some(found) => !self@.default_source.dummy && self@.sources.contains_key(
                    self@.default_source.index,
                ) && found@ == self@.sources[self@.default_source.index],
                None => self@.default_source.dummy || !self@.sources.contains_key(
                    self@.default_source.index,
                ),
            },
    {
        if self.default_source.dummy {
            None
        } else {
            self.sources.get(self.default_source.index)
        }
    }

    fn copy_sinks(&self) -> (copies: Vec<AudioSink>)
        requires
            self.wf(),
        ensures
            lists_exactly::<AudioSink>(record_views(copies@), self@.sinks),
    {
        let records = self.sinks.list();
        let mut copies: Vec<AudioSink> = Vec::new();
        let mut i: usize = 0;
        while i < records.len()
            invariant
                i <= records.len(),
                copies@.len() == i,
                forall|j: int| 0 <= j < i ==> copies@[j]@ == records@[j]@,
            decreases records.len() - i,
        {
            copies.push(records[i].clone());
            i = i + 1;
        }
        assert(record_views(copies@) =~= crate::store::views_of::<AudioSink>(records@));
        copies
    }

    fn copy_sources(&self) -> (copies: Vec<AudioSource>)
        requires
            self.wf(),
        ensures
            lists_exactly::<AudioSource>(record_views(copies@), self@.sources),
    {
        let records = self.sources.list();
        let mut copies: Vec<AudioSource> = Vec::new();
        let mut i: usize = 0;
        while i < records.len()
            invariant
                i <= records.len(),
                copies@.len() == i,
                forall|j: int| 0 <= j < i ==> copies@[j]@ == records@[j]@,
            decreases records.len() - i,
        {
            copies.push(records[i].clone());
            i = i + 1;
        }
        assert(record_views(copies@) =~= crate::store::views_of::<AudioSource>(records@));
        copies
    }

    fn copy_input_streams(&self) -> (copies: Vec<InputStream>)
        requires
            self.wf(),
        ensures
            lists_exactly::<InputStream>(record_views(copies@), self@.input_streams),
    {
        let records = self.input_streams.list();
        let mut copies: Vec<InputStream> = Vec::new();
        let mut i: usize = 0;
        while i < records.len()
            invariant
                i <= records.len(),
                copies@.len() == i,
                forall|j: int| 0 <= j < i ==> copies@[j]@ == records@[j]@,
            decreases records.len() - i,
        {
            copies.push(records[i].clone());
            i = i + 1;
        }
        assert(record_views(copies@) =~= crate::store::views_of::<InputStream>(records@));
        copies
    }

    fn copy_output_streams(&self) -> (copies: Vec<OutputStream>)
        requires
            self.wf(),
        ensures
            lists_exactly::<OutputStream>(record_views(copies@), self@.output_streams),
    {
        let records = self.output_streams.list();
        let mut copies: Vec<OutputStream> = Vec::new();
        let mut i: usize = 0;
        while i < records.len()
            invariant
                i <= records.len(),
                copies@.len() == i,
                forall|j: int| 0 <= j < i ==> copies@[j]@ == records@[j]@,
            decreases records.len() - i,
        {
            copies.push(records[i].clone());
            i = i + 1;
        }
        assert(record_views(copies@) =~= crate::store::views_of::<OutputStream>(records@));
        copies
    }

    fn copy_cards(&self) -> (copies: Vec<AudioCard>)
        requires
            self.wf(),
        ensures
            lists_exactly::<AudioCard>(record_views(copies@), self@.cards),
    {
        let records = self.cards.list();
        let mut copies: Vec<AudioCard> = Vec::new();
        let mut i: usize = 0;
        while i < records.len()
            invariant
                i <= records.len(),
                copies@.len() == i,
                forall|j: int| 0 <= j < i ==> copies@[j]@ == records@[j]@,
            decreases records.len() - i,
        {
            copies.push(records[i].clone());
            i = i + 1;
        }
        assert(record_views(copies@) =~= crate::store::views_of::<AudioCard>(records@));
        copies
    }

    /// A copy of every store and of both default pointers.
    pub fn current_snapshot(&self) -> (snapshot: AudioSnapshot)
        requires
            self.wf(),
        ensures
            snapshot.shows(self@),
    {
        AudioSnapshot {
            sinks: self.copy_sinks(),
            sources: self.copy_sources(),
            input_streams: self.copy_input_streams(),
            output_streams: self.copy_output_streams(),
            cards: self.copy_cards(),
            default_sink: self.default_sink,
            default_source: self.default_source,
        }
    }

    /// The sink that `stream` is routed through, or `None` when the stream
    /// names a sink that the store does not hold.
    pub fn sink_of(&self, stream: &InputStream) -> (target: Option<&AudioSink>)
        ensures
            match target {
                Some(record) => self@.sinks.contains_key(stream.sink_index) && record@
                    == self@.sinks[stream.sink_index],
                None => !self@.sinks.contains_key(stream.sink_index),
            },
    {
        self.sinks.get(stream.sink_index)
    }

    /// The source that `stream` is routed through, or `None` when the stream
    /// names a source that the store does not hold.
    pub fn source_of(&self, stream: &OutputStream) -> (target: Option<&AudioSource>)
        ensures
            match target {
                Some(record) => self@.sources.contains_key(stream.source_index) && record@
                    == self@.sources[stream.source_index],
                None => !self@.sources.contains_key(stream.source_index),
            },
    {
        self.sources.get(stream.source_index)
    }

    fn set_sink_volume(
        &mut self,
        index: u32,
        channels: u16,
        volume: u32,
    ) -> (reaction: Option<AudioReaction>)
        requires
            old(self).wf(),
        ensures
            final(self).wf(),
            handled(
                old(self)@,
                AudioMsg::SetSinkVolume(index, channels, volume),
                final(self)@,
                reaction,
            ),
    {
        proof {
            self.sinks.lemma_wf_keyed();
        }
        match self.sinks.remove(index) {
            Some(mut record) => {
                set_volume(&mut record.volume, volume);
                self.sinks.upsert(record);
                assert(self.sinks@ =~= old(self).sinks@.insert(
                    index,
                    sink_at_level(old(self).sinks@[index], volume),
                ));
                Some(AudioReaction::Call(BackendCall::SetSinkVolume(index, channels, volume)))
            },
            None => {
                assert(self.sinks@ =~= old(self).sinks@);
                None
            },
        }
    }

    fn set_sink_mute(&mut self, index: u32, muted: bool) -> (reaction: Option<AudioReaction>)
        requires
            old(self).wf(),
        ensures
            final(self).wf(),
            handled(old(self)@, AudioMsg::SetSinkMute(index, muted), final(self)@, reaction),
    {
        proof {
            self.sinks.lemma_wf_keyed();
        }
        match self.sinks.remove(index) {
            Some(mut record) => {
                record.muted = muted;
                self.sinks.upsert(record);
                assert(self.sinks@ =~= old(self).sinks@.insert(
                    index,
                    sink_with_mute(old(self).sinks@[index], muted),
                ));
                Some(AudioReaction::Call(BackendCall::SetSinkMute(index, muted)))
            },
            None => {
                assert(self.sinks@ =~= old(self).sinks@);
                None
            },
        }
    }

    fn add_sink(&mut self, record: AudioSink) -> (reaction: Option<AudioReaction>)
        requires
            old(self).wf(),
        ensures
            final(self).wf(),
            handled(old(self)@, AudioMsg::AddSink(record), final(self)@, reaction),
    {
        self.default_sink.on_added(record.index);
        self.sinks.upsert(record);
        Some(AudioReaction::Nothing)
    }

    fn remove_sink(&mut self, index: u32) -> (reaction: Option<AudioReaction>)
        requires
            old(self).wf(),
        ensures
            final(self).wf(),
            handled(old(self)@, AudioMsg::RemoveSink(index), final(self)@, reaction),
    {
        self.default_sink.on_removed(&self.sinks, index);
        let _ = self.sinks.remove(index);
        Some(AudioReaction::Nothing)
    }

    fn set_default_sink(&mut self, index: u32) -> (reaction: Option<AudioReaction>)
        requires
            old(self).wf(),
        ensures
            final(self).wf(),
            handled(old(self)@, AudioMsg::SetDefaultSink(index), final(self)@, reaction),
    {
        match self.sinks.get(index) {
            Some(record) => {
                let name = record.name.clone();
                self.default_sink = DefaultDevice { index, dummy: false };
                Some(AudioReaction::Call(BackendCall::SetDefaultSink(name)))
            },
            None => None,
        }
    }

    fn set_source_volume(
        &mut self,
        index: u32,
        channels: u16,
        volume: u32,
    ) -> (reaction: Option<AudioReaction>)
        requires
            old(self).wf(),
        ensures
            final(self).wf(),
            handled(
                old(self)@,
                AudioMsg::SetSourceVolume(index, channels, volume),
                final(self)@,
                reaction,
            ),
    {
        proof {
            self.sources.lemma_wf_keyed();
        }
        match self.sources.remove(index) {
            Some(mut record) => {
                set_volume(&mut record.volume, volume);
                self.sources.upsert(record);
                assert(self.sources@ =~= old(self).sources@.insert(
                    index,
                    source_at_level(old(self).sources@[index], volume),
                ));
                Some(AudioReaction::Call(BackendCall::SetSourceVolume(index, channels, volume)))
            },
            None => {
                assert(self.sources@ =~= old(self).sources@);
                None
            },
        }
    }

    fn set_source_mute(&mut self, index: u32, muted: bool) -> (reaction: Option<AudioReaction>)
        requires
            old(self).wf(),
        ensures
            final(self).wf(),
            handled(old(self)@, AudioMsg::SetSourceMute(index, muted), final(self)@, reaction),
    {
        proof {
            self.sources.lemma_wf_keyed();
        }
        match self.sources.remove(index) {
            Some(mut record) => {
                record.muted = muted;
                self.sources.upsert(record);
                assert(self.sources@ =~= old(self).sources@.insert(
                    index,
                    source_with_mute(old(self).sources@[index], muted),
                ));
                Some(AudioReaction::Call(BackendCall::SetSourceMute(index, muted)))
            },
            None => {
                assert(self.sources@ =~= old(self).sources@);
                None
            },
        }
    }

    fn add_source(&mut self, record: AudioSource) -> (reaction: Option<AudioReaction>)
        requires
            old(self).wf(),
        ensures
            final(self).wf(),
            handled(old(self)@, AudioMsg::AddSource(record), final(self)@, reaction),
    {
        self.default_source.on_added(record.index);
        self.sources.upsert(record);
        Some(AudioReaction::Nothing)
    }

    fn remove_source(&mut self, index: u32) -> (reaction: Option<AudioReaction>)
        requires
            old(self).wf(),
        ensures
            final(self).wf(),
            handled(old(self)@, AudioMsg::RemoveSource(index), final(self)@, reaction),
    {
        self.default_source.on_removed(&self.sources, index);
        let _ = self.sources.remove(index);
        Some(AudioReaction::Nothing)
    }

    fn set_default_source(&mut self, index: u32) -> (reaction: Option<AudioReaction>)
        requires
            old(self).wf(),
        ensures
            final(self).wf(),
            handled(old(self)@, AudioMsg::SetDefaultSource(index), final(self)@, reaction),
    {
        match self.sources.get(index) {
            Some(record) => {
                let name = record.name.clone();
                self.default_source = DefaultDevice { index, dummy: false };
                Some(AudioReaction::Call(BackendCall::SetDefaultSource(name)))
            },
            None => None,
        }
    }

    fn set_input_stream_mute(
        &mut self,
        index: u32,
        muted: bool,
    ) -> (reaction: Option<AudioReaction>)
        requires
            old(self).wf(),
        ensures
            final(self).wf(),
            handled(old(self)@, AudioMsg::SetInputStreamMute(index, muted), final(self)@, reaction),
    {
        proof {
            self.input_streams.lemma_wf_keyed();
        }
        match self.input_streams.remove(index) {
            Some(mut record) => {
                record.muted = muted;
                self.input_streams.upsert(record);
                assert(self.input_streams@ =~= old(self).input_streams@.insert(
                    index,
                    input_stream_with_mute(old(self).input_streams@[index], muted),
                ));
                Some(AudioReaction::Call(BackendCall::SetInputStreamMute(index, muted)))
            },
            None => {
                assert(self.input_streams@ =~= old(self).input_streams@);
                None
            },
        }
    }

    fn set_input_stream_volume(
        &mut self,
        index: u32,
        channels: u16,
        volume: u32,
    ) -> (reaction: Option<AudioReaction>)
        requires
            old(self).wf(),
        ensures
            final(self).wf(),
            handled(
                old(self)@,
                AudioMsg::SetInputStreamVolume(index, channels, volume),
                final(self)@,
                reaction,
            ),
    {
        proof {
            self.input_streams.lemma_wf_keyed();
        }
        match self.input_streams.remove(index) {
            Some(mut record) => {
                set_volume(&mut record.volume, volume);
                self.input_streams.upsert(record);
                assert(self.input_streams@ =~= old(self).input_streams@.insert(
                    index,
                    input_stream_at_level(old(self).input_streams@[index], volume),
                ));
                Some(
                    AudioReaction::Call(BackendCall::SetInputStreamVolume(index, channels, volume)),
                )
            },
            None => {
                assert(self.input_streams@ =~= old(self).input_streams@);
                None
            },
        }
    }

    fn set_sink_of_input_stream(
        &mut self,
        stream: InputStream,
        target: AudioSink,
    ) -> (reaction: Option<AudioReaction>)
        requires
            old(self).wf(),
        ensures
            final(self).wf(),
            handled(
                old(self)@,
                AudioMsg::SetSinkOfInputStream(stream, target),
                final(self)@,
                reaction,
            ),
    {
        proof {
            self.input_streams.lemma_wf_keyed();
        }
        match self.input_streams.remove(stream.index) {
            Some(mut record) => {
                record.sink_index = target.index;
                self.input_streams.upsert(record);
                assert(self.input_streams@ =~= old(self).input_streams@.insert(
                    stream.index,
                    input_stream_routed_to(old(self).input_streams@[stream.index], target.index),
                ));
                Some(AudioReaction::Call(BackendCall::SetSinkOfInputStream(stream, target)))
            },
            None => {
                assert(self.input_streams@ =~= old(self).input_streams@);
                None
            },
        }
    }

    fn add_input_stream(&mut self, record: InputStream) -> (reaction: Option<AudioReaction>)
        requires
            old(self).wf(),
        ensures
            final(self).wf(),
            handled(old(self)@, AudioMsg::AddInputStream(record), final(self)@, reaction),
    {
        self.input_streams.upsert(record);
        Some(AudioReaction::Nothing)
    }

    fn remove_input_stream(&mut self, index: u32) -> (reaction: Option<AudioReaction>)
        requires
            old(self).wf(),
        ensures
            final(self).wf(),
            handled(old(self)@, AudioMsg::RemoveInputStream(index), final(self)@, reaction),
    {
        let _ = self.input_streams.remove(index);
        Some(AudioReaction::Nothing)
    }

    fn set_output_stream_mute(
        &mut self,
        index: u32,
        muted: bool,
    ) -> (reaction: Option<AudioReaction>)
        requires
            old(self).wf(),
        ensures
            final(self).wf(),
            handled(
                old(self)@,
                AudioMsg::SetOutputStreamMute(index, muted),
                final(self)@,
                reaction,
            ),
    {
        proof {
            self.output_streams.lemma_wf_keyed();
        }
        match self.output_streams.remove(index) {
            Some(mut record) => {
                record.muted = muted;
                self.output_streams.upsert(record);
                assert(self.output_streams@ =~= old(self).output_streams@.insert(
                    index,
                    output_stream_with_mute(old(self).output_streams@[index], muted),
                ));
                Some(AudioReaction::Call(BackendCall::SetOutputStreamMute(index, muted)))
            },
            None => {
                assert(self.output_streams@ =~= old(self).output_streams@);
                None
            },
        }
    }

    fn set_output_stream_volume(
        &mut self,
        index: u32,
        channels: u16,
        volume: u32,
    ) -> (reaction: Option<AudioReaction>)
        requires
            old(self).wf(),
        ensures
            final(self).wf(),
            handled(
                old(self)@,
                AudioMsg::SetOutputStreamVolume(index, channels, volume),
                final(self)@,
                reaction,
            ),
    {
        proof {
            self.output_streams.lemma_wf_keyed();
        }
        match self.output_streams.remove(index) {
            Some(mut record) => {
                set_volume(&mut record.volume, volume);
                self.output_streams.upsert(record);
                assert(self.output_streams@ =~= old(self).output_streams@.insert(
                    index,
                    output_stream_at_level(old(self).output_streams@[index], volume),
                ));
                Some(
                    AudioReaction::Call(
                        BackendCall::SetOutputStreamVolume(index, channels, volume),
                    ),
                )
            },
            None => {
                assert(self.output_streams@ =~= old(self).output_streams@);
                None
            },
        }
    }

    fn set_source_of_output_stream(
        &mut self,
        stream: OutputStream,
        target: AudioSource,
    ) -> (reaction: Option<AudioReaction>)
        requires
            old(self).wf(),
        ensures
            final(self).wf(),
            handled(
                old(self)@,
                AudioMsg::SetSourceOfOutputStream(stream, target),
                final(self)@,
                reaction,
            ),
    {
        proof {
            self.output_streams.lemma_wf_keyed();
        }
        match self.output_streams.remove(stream.index) {
            Some(mut record) => {
                record.source_index = target.index;
                self.output_streams.upsert(record);
                assert(self.output_streams@ =~= old(self).output_streams@.insert(
                    stream.index,
                    output_stream_routed_to(old(self).output_streams@[stream.index], target.index),
                ));
                Some(AudioReaction::Call(BackendCall::SetSourceOfOutputStream(stream, target)))
            },
            None => {
                assert(self.output_streams@ =~= old(self).output_streams@);
                None
            },
        }
    }

    fn add_output_stream(&mut self, record: OutputStream) -> (reaction: Option<AudioReaction>)
        requires
            old(self).wf(),
        ensures
            final(self).wf(),
            handled(old(self)@, AudioMsg::AddOutputStream(record), final(self)@, reaction),
    {
        self.output_streams.upsert(record);
        Some(AudioReaction::Nothing)
    }

    fn remove_output_stream(&mut self, index: u32) -> (reaction: Option<AudioReaction>)
        requires
            old(self).wf(),
        ensures
            final(self).wf(),
            handled(old(self)@, AudioMsg::RemoveOutputStream(index), final(self)@, reaction),
    {
        let _ = self.output_streams.remove(index);
        Some(AudioReaction::Nothing)
    }

    fn add_audio_card(&mut self, record: AudioCard) -> (reaction: Option<AudioReaction>)
        requires
            old(self).wf(),
        ensures
            final(self).wf(),
            handled(old(self)@, AudioMsg::AddAudioCard(record), final(self)@, reaction),
    {
        self.cards.upsert(record);
        Some(AudioReaction::Nothing)
    }

    fn remove_audio_card(&mut self, index: u32) -> (reaction: Option<AudioReaction>)
        requires
            old(self).wf(),
        ensures
            final(self).wf(),
            handled(old(self)@, AudioMsg::RemoveAudioCard(index), final(self)@, reaction),
    {
        let _ = self.cards.remove(index);
        Some(AudioReaction::Nothing)
    }

    fn set_profile_of_card(
        &mut self,
        index: u32,
        profile: String,
    ) -> (reaction: Option<AudioReaction>)
        requires
            old(self).wf(),
        ensures
            final(self).wf(),
            handled(old(self)@, AudioMsg::SetProfileOfCard(index, profile), final(self)@, reaction),
    {
        proof {
            self.cards.lemma_wf_keyed();
        }
        match self.cards.remove(index) {
            Some(mut record) => {
                record.active_profile = profile.clone();
                self.cards.upsert(record);
                assert(self.cards@ =~= old(self).cards@.insert(
                    index,
                    card_with_profile(old(self).cards@[index], profile@),
                ));
                Some(AudioReaction::Call(BackendCall::SetCardProfileOfDevice(index, profile)))
            },
            None => {
                assert(self.cards@ =~= old(self).cards@);
                None
            },
        }
    }

    /// Processes one message. The result is `None` when the message is a
    /// command for a record that the store does not hold; the state is then
    /// unchanged. Otherwise the result says what is to happen next.
    pub fn update(&mut self, msg: AudioMsg) -> (reaction: Option<AudioReaction>)
        requires
            old(self).wf(),
        ensures
            final(self).wf(),
            handled(old(self)@, msg, final(self)@, reaction),
    {
        match msg {
            AudioMsg::SetAudioVariant(audio_variant) => {
                self.audio_variant = audio_variant;
                Some(AudioReaction::ShowAudioPage)
            },
            AudioMsg::SetSinkVolume(index, channels, volume) => {
                self.set_sink_volume(index, channels, volume)
            },
            AudioMsg::SetSinkMute(index, muted) => self.set_sink_mute(index, muted),
            AudioMsg::AddSink(record) => self.add_sink(record),
            AudioMsg::RemoveSink(index) => self.remove_sink(index),
            AudioMsg::SetDefaultSink(index) => self.set_default_sink(index),
            AudioMsg::SetSourceVolume(index, channels, volume) => {
                self.set_source_volume(index, channels, volume)
            },
            AudioMsg::SetSourceMute(index, muted) => self.set_source_mute(index, muted),
            AudioMsg::AddSource(record) => self.add_source(record),
            AudioMsg::RemoveSource(index) => self.remove_source(index),
            AudioMsg::SetDefaultSource(index) => self.set_default_source(index),
            AudioMsg::SetInputStreamMute(index, muted) => self.set_input_stream_mute(index, muted),
            AudioMsg::SetInputStreamVolume(index, channels, volume) => {
                self.set_input_stream_volume(index, channels, volume)
            },
            AudioMsg::SetSinkOfInputStream(stream, target) => {
                self.set_sink_of_input_stream(stream, target)
            },
            AudioMsg::AddInputStream(record) => self.add_input_stream(record),
            AudioMsg::RemoveInputStream(index) => self.remove_input_stream(index),
            AudioMsg::SetOutputStreamMute(index, muted) => {
                self.set_output_stream_mute(index, muted)
            },
            AudioMsg::SetOutputStreamVolume(index, channels, volume) => {
                self.set_output_stream_volume(index, channels, volume)
            },
            AudioMsg::SetSourceOfOutputStream(stream, target) => {
                self.set_source_of_output_stream(stream, target)
            },
            AudioMsg::AddOutputStream(record) => self.add_output_stream(record),
            AudioMsg::RemoveOutputStream(index) => self.remove_output_stream(index),
            AudioMsg::AddAudioCard(record) => self.add_audio_card(record),
            AudioMsg::RemoveAudioCard(index) => self.remove_audio_card(index),
            AudioMsg::SetProfileOfCard(index, profile) => self.set_profile_of_card(index, profile),
        }
    }
}

} // verus!
