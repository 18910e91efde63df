//! The messages the processor consumes, and what it asks of its surroundings
//! in return.

use crate::records::{AudioCard, AudioSink, AudioSource, InputStream, OutputStream};
use vstd::prelude::*;

verus! {

/// Which part of the audio page is shown.
#[derive(Debug, Clone, Copy, Default, PartialEq, Eq, Structural)]
pub enum AudioVariant {
    Input,
    #[default]
    Output,
    Cards,
    Devices,
    InputAndOutput,
}

/// A message to the processor: a command that states what the user wants, or
/// an event that reports what the backend did.
///
/// The `Add..` events stand for additions and changes alike, since both carry
/// the full record; the `Remove..` events carry the index that went.
#[derive(Debug, Clone, PartialEq)]
pub enum AudioMsg {
    SetAudioVariant(AudioVariant),
    /// Index, channel count and the level for every channel.
    SetSinkVolume(u32, u16, u32),
    SetSinkMute(u32, bool),
    AddSink(AudioSink),
    RemoveSink(u32),
    SetDefaultSink(u32),
    /// Index, channel count and the level for every channel.
    SetSourceVolume(u32, u16, u32),
    SetSourceMute(u32, bool),
    AddSource(AudioSource),
    RemoveSource(u32),
    SetDefaultSource(u32),
    SetOutputStreamMute(u32, bool),
    /// Index, channel count and the level for every channel.
    SetOutputStreamVolume(u32, u16, u32),
    SetSourceOfOutputStream(OutputStream, AudioSource),
    AddOutputStream(OutputStream),
    RemoveOutputStream(u32),
    SetInputStreamMute(u32, bool),
    /// Index, channel count and the level for every channel.
    SetInputStreamVolume(u32, u16, u32),
    SetSinkOfInputStream(InputStream, AudioSink),
    AddInputStream(InputStream),
    RemoveInputStream(u32),
    AddAudioCard(AudioCard),
    RemoveAudioCard(u32),
    /// Card index and the name of the profile to activate.
    SetProfileOfCard(u32, String),
}

/// A mutating call that the backend is to receive.
#[derive(Debug, Clone, PartialEq)]
pub enum BackendCall {
    /// Index, channel count, level.
    SetSinkVolume(u32, u16, u32),
    SetSinkMute(u32, bool),
    /// The name of the sink that becomes the default.
    SetDefaultSink(String),
    /// Index, channel count, level.
    SetSourceVolume(u32, u16, u32),
    SetSourceMute(u32, bool),
    /// The name of the source that becomes the default.
    SetDefaultSource(String),
    /// Index, channel count, level.
    SetInputStreamVolume(u32, u16, u32),
    SetInputStreamMute(u32, bool),
    SetSinkOfInputStream(InputStream, AudioSink),
    /// Index, channel count, level.
    SetOutputStreamVolume(u32, u16, u32),
    SetOutputStreamMute(u32, bool),
    SetSourceOfOutputStream(OutputStream, AudioSource),
    /// Card index and profile name.
    SetCardProfileOfDevice(u32, String),
}

/// What the surroundings are to do after a message was processed.
#[derive(Debug, Clone, PartialEq)]
pub enum AudioReaction {
    /// Nothing further.
    Nothing,
    /// Show the audio page.
    ShowAudioPage,
    /// Forward the call to the backend.
    Call(BackendCall),
}

} // verus!
