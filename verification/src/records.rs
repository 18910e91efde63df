//! The records kept for each category of audio entity, and their
//! mathematical views.
//!
//! Each record type has a view in which strings are sequences of characters
//! and the per-channel volume is a sequence of levels. Contracts throughout
//! the crate speak of these views.

use vstd::prelude::*;

verus! {

/// A record that is filed under a numeric index.
pub trait TIndex: View + Sized {
    /// The index under which a record with view `v` is filed.
    spec fn index_of(v: Self::V) -> u32;

    fn index(&self) -> (index: u32)
        ensures
            index == Self::index_of(self@),
    ;
}

/// What every device and stream lets a reader see.
pub struct AudioObjectView {
    pub name: Seq<char>,
    pub alias: Seq<char>,
    pub channels: u16,
    pub index: u32,
    pub volume: Seq<u32>,
    pub muted: bool,
}

/// Read access to the fields that devices and streams have in common.
pub trait TAudioObject {
    /// The common fields of this record.
    spec fn object_view(&self) -> AudioObjectView;

    fn name(&self) -> (name: String)
        ensures
            name@ == self.object_view().name,
    ;

    fn alias(&self) -> (alias: String)
        ensures
            alias@ == self.object_view().alias,
    ;

    fn channels(&self) -> (channels: u16)
        ensures
            channels == self.object_view().channels,
    ;

    fn index(&self) -> (index: u32)
        ensures
            index == self.object_view().index,
    ;

    fn volume(&self) -> (volume: Vec<u32>)
        ensures
            volume@ == self.object_view().volume,
    ;

    fn muted(&self) -> (muted: bool)
        ensures
            muted == self.object_view().muted,
    ;
}

/// The view of an [`AudioSink`].
pub struct AudioSinkView {
    pub index: u32,
    pub name: Seq<char>,
    pub alias: Seq<char>,
    pub channels: u16,
    pub volume: Seq<u32>,
    pub muted: bool,
    pub active: i32,
}

/// An output device.
#[derive(Debug, PartialEq, Eq)]
pub struct AudioSink {
    pub index: u32,
    pub name: String,
    pub alias: String,
    pub channels: u16,
    /// One level per channel.
    pub volume: Vec<u32>,
    pub muted: bool,
    /// Activity code as the backend reports it.
    pub active: i32,
}

impl View for AudioSink {
    type V = AudioSinkView;

    open spec fn view(&self) -> AudioSinkView {
        AudioSinkView {
            index: self.index,
            name: self.name@,
            alias: self.alias@,
            channels: self.channels,
            volume: self.volume@,
            muted: self.muted,
            active: self.active,
        }
    }
}

impl Default for AudioSink {
    /// A sink with index 0, no name, no channels and all flags off.
    fn default() -> (record: Self)
        ensures
            record@ == (AudioSinkView {
                index: 0,
                name: Seq::empty(),
                alias: Seq::empty(),
                channels: 0,
                volume: Seq::empty(),
                muted: false,
                active: 0,
            }),
    {
        AudioSink {
            index: 0,
            name: String::new(),
            alias: String::new(),
            channels: 0,
            volume: Vec::new(),
            muted: false,
            active: 0,
        }
    }
}

impl Clone for AudioSink {
    fn clone(&self) -> (copy: Self)
        ensures
            copy@ == self@,
    {
        AudioSink {
            index: self.index,
            name: self.name.clone(),
            alias: self.alias.clone(),
            channels: self.channels,
            volume: self.volume.clone(),
            muted: self.muted,
            active: self.active,
        }
    }
}

impl TIndex for AudioSink {
    open spec fn index_of(v: AudioSinkView) -> u32 {
        v.index
    }

    fn index(&self) -> (index: u32) {
        self.index
    }
}

impl TAudioObject for AudioSink {
    open spec fn object_view(&self) -> AudioObjectView {
        AudioObjectView {
            name: self.name@,
            alias: self.alias@,
            channels: self.channels,
            index: self.index,
            volume: self.volume@,
            muted: self.muted,
        }
    }

    fn name(&self) -> (name: String) {
        self.name.clone()
    }

    fn alias(&self) -> (alias: String) {
        self.alias.clone()
    }

    fn channels(&self) -> (channels: u16) {
        self.channels
    }

    fn index(&self) -> (index: u32) {
        self.index
    }

    fn volume(&self) -> (volume: Vec<u32>) {
        self.volume.clone()
    }

    fn muted(&self) -> (muted: bool) {
        self.muted
    }
}

/// The view of an [`AudioSource`].
pub struct AudioSourceView {
    pub index: u32,
    pub name: Seq<char>,
    pub alias: Seq<char>,
    pub channels: u16,
    pub volume: Seq<u32>,
    pub muted: bool,
    pub active: i32,
}

/// An input device.
#[derive(Debug, PartialEq, Eq)]
pub struct AudioSource {
    pub index: u32,
    pub name: String,
    pub alias: String,
    pub channels: u16,
    /// One level per channel.
    pub volume: Vec<u32>,
    pub muted: bool,
    /// Activity code as the backend reports it.
    pub active: i32,
}

impl View for AudioSource {
    type V = AudioSourceView;

    open spec fn view(&self) -> AudioSourceView {
        AudioSourceView {
            index: self.index,
            name: self.name@,
            alias: self.alias@,
            channels: self.channels,
            volume: self.volume@,
            muted: self.muted,
            active: self.active,
        }
    }
}

impl Default for AudioSource {
    /// A source with index 0, no name, no channels and all flags off.
    fn default() -> (record: Self)
        ensures
            record@ == (AudioSourceView {
                index: 0,
                name: Seq::empty(),
                alias: Seq::empty(),
                channels: 0,
                volume: Seq::empty(),
                muted: false,
                active: 0,
            }),
    {
        AudioSource {
            index: 0,
            name: String::new(),
            alias: String::new(),
            channels: 0,
            volume: Vec::new(),
            muted: false,
            active: 0,
        }
    }
}

impl Clone for AudioSource {
    fn clone(&self) -> (copy: Self)
        ensures
            copy@ == self@,
    {
        AudioSource {
            index: self.index,
            name: self.name.clone(),
            alias: self.alias.clone(),
            channels: self.channels,
            volume: self.volume.clone(),
            muted: self.muted,
            active: self.active,
        }
    }
}

impl TIndex for AudioSource {
    open spec fn index_of(v: AudioSourceView) -> u32 {
        v.index
    }

    fn index(&self) -> (index: u32) {
        self.index
    }
}

impl TAudioObject for AudioSource {
    open spec fn object_view(&self) -> AudioObjectView {
        AudioObjectView {
            name: self.name@,
            alias: self.alias@,
            channels: self.channels,
            index: self.index,
            volume: self.volume@,
            muted: self.muted,
        }
    }

    fn name(&self) -> (name: String) {
        self.name.clone()
    }

    fn alias(&self) -> (alias: String) {
        self.alias.clone()
    }

    fn channels(&self) -> (channels: u16) {
        self.channels
    }

    fn index(&self) -> (index: u32) {
        self.index
    }

    fn volume(&self) -> (volume: Vec<u32>) {
        self.volume.clone()
    }

    fn muted(&self) -> (muted: bool) {
        self.muted
    }
}

/// The view of an [`InputStream`].
pub struct InputStreamView {
    pub index: u32,
    pub name: Seq<char>,
    pub application_name: Seq<char>,
    pub sink_index: u32,
    pub channels: u16,
    pub volume: Seq<u32>,
    pub muted: bool,
    pub corked: bool,
}

/// An application's playback stream, routed through a sink.
#[derive(Debug, PartialEq, PartialOrd)]
pub struct InputStream {
    pub index: u32,
    pub name: String,
    pub application_name: String,
    /// Index of the sink this stream plays through.
    pub sink_index: u32,
    pub channels: u16,
    pub volume: Vec<u32>,
    pub muted: bool,
    /// True while the stream is paused.
    pub corked: bool,
}

impl View for InputStream {
    type V = InputStreamView;

    open spec fn view(&self) -> InputStreamView {
        InputStreamView {
            index: self.index,
            name: self.name@,
            application_name: self.application_name@,
            sink_index: self.sink_index,
            channels: self.channels,
            volume: self.volume@,
            muted: self.muted,
            corked: self.corked,
        }
    }
}

impl Default for InputStream {
    /// A stream with index 0, no name, no channels and all flags off.
    fn default() -> (record: Self)
        ensures
            record@ == (InputStreamView {
                index: 0,
                name: Seq::empty(),
                application_name: Seq::empty(),
                sink_index: 0,
                channels: 0,
                volume: Seq::empty(),
                muted: false,
                corked: false,
            }),
    {
        InputStream {
            index: 0,
            name: String::new(),
            application_name: String::new(),
            sink_index: 0,
            channels: 0,
            volume: Vec::new(),
            muted: false,
            corked: false,
        }
    }
}

impl Clone for InputStream {
    fn clone(&self) -> (copy: Self)
        ensures
            copy@ == self@,
    {
        InputStream {
            index: self.index,
            name: self.name.clone(),
            application_name: self.application_name.clone(),
            sink_index: self.sink_index,
            channels: self.channels,
            volume: self.volume.clone(),
            muted: self.muted,
            corked: self.corked,
        }
    }
}

impl TIndex for InputStream {
    open spec fn index_of(v: InputStreamView) -> u32 {
        v.index
    }

    fn index(&self) -> (index: u32) {
        self.index
    }
}

impl TAudioObject for InputStream {
    open spec fn object_view(&self) -> AudioObjectView {
        AudioObjectView {
            name: self.name@,
            alias: self.application_name@,
            channels: self.channels,
            index: self.index,
            volume: self.volume@,
            muted: self.muted,
        }
    }

    fn name(&self) -> (name: String) {
        self.name.clone()
    }

    fn alias(&self) -> (alias: String) {
        self.application_name.clone()
    }

    fn channels(&self) -> (channels: u16) {
        self.channels
    }

    fn index(&self) -> (index: u32) {
        self.index
    }

    fn volume(&self) -> (volume: Vec<u32>) {
        self.volume.clone()
    }

    fn muted(&self) -> (muted: bool) {
        self.muted
    }
}

/// The view of an [`OutputStream`].
pub struct OutputStreamView {
    pub index: u32,
    pub name: Seq<char>,
    pub application_name: Seq<char>,
    pub source_index: u32,
    pub channels: u16,
    pub volume: Seq<u32>,
    pub muted: bool,
    pub corked: bool,
}

/// An application's recording stream, routed through a source.
#[derive(Debug, PartialEq, PartialOrd)]
pub struct OutputStream {
    pub index: u32,
    pub name: String,
    pub application_name: String,
    /// Index of the source this stream records from.
    pub source_index: u32,
    pub channels: u16,
    pub volume: Vec<u32>,
    pub muted: bool,
    /// True while the stream is paused.
    pub corked: bool,
}

impl View for OutputStream {
    type V = OutputStreamView;

    open spec fn view(&self) -> OutputStreamView {
        OutputStreamView {
            index: self.index,
            name: self.name@,
            application_name: self.application_name@,
            source_index: self.source_index,
            channels: self.channels,
            volume: self.volume@,
            muted: self.muted,
            corked: self.corked,
        }
    }
}

impl Default for OutputStream {
    /// A stream with index 0, no name, no channels and all flags off.
    fn default() -> (record: Self)
        ensures
            record@ == (OutputStreamView {
                index: 0,
                name: Seq::empty(),
                application_name: Seq::empty(),
                source_index: 0,
                channels: 0,
                volume: Seq::empty(),
                muted: false,
                corked: false,
            }),
    {
        OutputStream {
            index: 0,
            name: String::new(),
            application_name: String::new(),
            source_index: 0,
            channels: 0,
            volume: Vec::new(),
            muted: false,
            corked: false,
        }
    }
}

impl Clone for OutputStream {
    fn clone(&self) -> (copy: Self)
        ensures
            copy@ == self@,
    {
        OutputStream {
            index: self.index,
            name: self.name.clone(),
            application_name: self.application_name.clone(),
            source_index: self.source_index,
            channels: self.channels,
            volume: self.volume.clone(),
            muted: self.muted,
            corked: self.corked,
        }
    }
}

impl TIndex for OutputStream {
    open spec fn index_of(v: OutputStreamView) -> u32 {
        v.index
    }

    fn index(&self) -> (index: u32) {
        self.index
    }
}

impl TAudioObject for OutputStream {
    open spec fn object_view(&self) -> AudioObjectView {
        AudioObjectView {
            name: self.name@,
            alias: self.application_name@,
            channels: self.channels,
            index: self.index,
            volume: self.volume@,
            muted: self.muted,
        }
    }

    fn name(&self) -> (name: String) {
        self.name.clone()
    }

    fn alias(&self) -> (alias: String) {
        self.application_name.clone()
    }

    fn channels(&self) -> (channels: u16) {
        self.channels
    }

    fn index(&self) -> (index: u32) {
        self.index
    }

    fn volume(&self) -> (volume: Vec<u32>) {
        self.volume.clone()
    }

    fn muted(&self) -> (muted: bool) {
        self.muted
    }
}

/// The view of an [`AudioCardProfile`].
pub struct AudioCardProfileView {
    pub name: Seq<char>,
    pub description: Seq<char>,
    pub available: bool,
}

/// One operating profile that a card offers.
#[derive(Debug, PartialEq, Eq)]
pub struct AudioCardProfile {
    pub name: String,
    pub description: String,
    pub available: bool,
}

impl View for AudioCardProfile {
    type V = AudioCardProfileView;

    open spec fn view(&self) -> AudioCardProfileView {
        AudioCardProfileView {
            name: self.name@,
            description: self.description@,
            available: self.available,
        }
    }
}

impl Default for AudioCardProfile {
    /// A profile without name that is not available.
    fn default() -> (record: Self)
        ensures
            record@ == (AudioCardProfileView {
                name: Seq::empty(),
                description: Seq::empty(),
                available: false,
            }),
    {
        AudioCardProfile {
            name: String::new(),
            description: String::new(),
            available: false,
        }
    }
}

impl Clone for AudioCardProfile {
    fn clone(&self) -> (copy: Self)
        ensures
            copy@ == self@,
    {
        AudioCardProfile {
            name: self.name.clone(),
            description: self.description.clone(),
            available: self.available,
        }
    }
}

/// The views of a list of profiles, in the same order.
pub open spec fn profile_views(profiles: Seq<AudioCardProfile>) -> Seq<AudioCardProfileView> {
    Seq::new(profiles.len(), |i: int| profiles[i]@)
}

/// Copies a list of profiles, keeping their order.
pub fn clone_profiles(profiles: &Vec<AudioCardProfile>) -> (copy: Vec<AudioCardProfile>)
    ensures
        profile_views(copy@) == profile_views(profiles@),
{
    let mut copy: Vec<AudioCardProfile> = Vec::new();
    let mut i: usize = 0;
    while i < profiles.len()
        invariant
            i <= profiles.len(),
            copy@.len() == i,
            forall|j: int| 0 <= j < i ==> copy@[j]@ == profiles@[j]@,
        decreases profiles.len() - i,
    {
        copy.push(profiles[i].clone());
        i = i + 1;
    }
    assert(profile_views(copy@) =~= profile_views(profiles@));
    copy
}

/// The view of an [`AudioCard`].
pub struct AudioCardView {
    pub index: u32,
    pub name: Seq<char>,
    pub profiles: Seq<AudioCardProfileView>,
    pub active_profile: Seq<char>,
}

/// A sound card with its selectable profiles.
#[derive(Debug, PartialEq, Eq)]
pub struct AudioCard {
    pub index: u32,
    pub name: String,
    /// The profiles the card offers, in the backend's order.
    pub profiles: Vec<AudioCardProfile>,
    /// Name of the profile that is in use.
    pub active_profile: String,
}

impl View for AudioCard {
    type V = AudioCardView;

    open spec fn view(&self) -> AudioCardView {
        AudioCardView {
            index: self.index,
            name: self.name@,
            profiles: profile_views(self.profiles@),
            active_profile: self.active_profile@,
        }
    }
}

impl Default for AudioCard {
    /// A card with index 0, no name and no profiles.
    fn default() -> (record: Self)
        ensures
            record@ == (AudioCardView {
                index: 0,
                name: Seq::empty(),
                profiles: Seq::empty(),
                active_profile: Seq::empty(),
            }),
    {
        let record = AudioCard {
            index: 0,
            name: String::new(),
            profiles: Vec::new(),
            active_profile: String::new(),
        };
        assert(profile_views(record.profiles@) =~= Seq::empty());
        record
    }
}

impl Clone for AudioCard {
    fn clone(&self) -> (copy: Self)
        ensures
            copy@ == self@,
    {
        AudioCard {
            index: self.index,
            name: self.name.clone(),
            profiles: clone_profiles(&self.profiles),
            active_profile: self.active_profile.clone(),
        }
    }
}

impl AudioCard {
    /// The names of the profiles that the card offers, in their order.
    pub fn profile_names(&self) -> (names: Vec<String>)
        ensures
            names@.len() == self@.profiles.len(),
            forall|i: int| 0 <= i < names@.len() ==> names@[i]@ == self@.profiles[i].name,
    {
        let mut names: Vec<String> = Vec::new();
        let mut i: usize = 0;
        while i < self.profiles.len()
            invariant
                i <= self.profiles.len(),
                names@.len() == i,
                forall|j: int| 0 <= j < i ==> names@[j]@ == self.profiles@[j].name@,
            decreases self.profiles.len() - i,
        {
            names.push(self.profiles[i].name.clone());
            i = i + 1;
        }
        names
    }
}

impl TIndex for AudioCard {
    open spec fn index_of(v: AudioCardView) -> u32 {
        v.index
    }

    fn index(&self) -> (index: u32) {
        self.index
    }
}

} // verus!
