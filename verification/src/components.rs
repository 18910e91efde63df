//! What the widgets of the audio page need from the registry: the titles
//! of a picker, where a row stands in its list, and for each kind of record
//! the messages, icons and title that its card uses.

use crate::messages::AudioMsg;
use crate::records::{AudioSink, AudioSource, InputStream, OutputStream};
use vstd::prelude::*;
use vstd::std_specs::convert::IntoSpec;

verus! {

/// The two lines of text at the head of a combined picker.
#[derive(Debug, PartialEq, Eq)]
pub struct ComboPickerTitle {
    pub title: String,
    pub subtitle: String,
}

impl ComboPickerTitle {
    /// The title made of the two given strings.
    pub fn with_text(title: String, subtitle: String) -> (picker_title: Self)
        ensures
            picker_title.title == title,
            picker_title.subtitle == subtitle,
    {
        ComboPickerTitle { title, subtitle }
    }

    /// The title made of what the two arguments convert into. What a
    /// conversion yields is known only as far as its type states it.
    pub fn new<A: Into<String>, B: Into<String>>(title: A, subtitle: B) -> (picker_title: Self)
        ensures
            <A as IntoSpec<String>>::obeys_into_spec() ==> picker_title.title == <A as IntoSpec<
                String,
            >>::into_spec(title),
            <B as IntoSpec<String>>::obeys_into_spec() ==> picker_title.subtitle == <B as IntoSpec<
                String,
            >>::into_spec(subtitle),
    {
        ComboPickerTitle::with_text(title.into(), subtitle.into())
    }
}

/// The two forms of a picker.
#[derive(Debug, PartialEq, Eq)]
pub enum PickerVariant {
    RegularPicker,
    ComboPicker(ComboPickerTitle),
}

/// Where a row stands among the rows of a list, which decides the corners
/// that are rounded.
#[derive(Debug, Clone, Copy, PartialEq, Eq, Structural)]
pub enum RowAt {
    Start,
    Between,
    End,
}

impl RowAt {
    /// The place of row `index` in a list of `length` rows: the first row is
    /// `End`, the last of several is `Start`, the others are `Between`.
    pub open spec fn place(index: int, length: int) -> RowAt {
        if index == 0 {
            RowAt::End
        } else if index == length - 1 {
            RowAt::Start
        } else {
            RowAt::Between
        }
    }

    /// The place of row `index` in a list of `length` rows.
    pub fn at(index: usize, length: usize) -> (place: RowAt)
        requires
            index == 0 || length > 0,
        ensures
            place == RowAt::place(index as int, length as int),
    {
        if index == 0 {
            RowAt::End
        } else if index == length - 1 {
            RowAt::Start
        } else {
            RowAt::Between
        }
    }
}

/// Where the selected option of a picker stands among its options.
#[derive(Debug, Clone, Copy, PartialEq, Eq, Structural)]
pub enum Selection {
    /// Nothing is selected.
    Nothing,
    /// The option at this place is selected.
    At(usize),
    /// What is selected is not among the options.
    Elsewhere,
}

/// The direction in which the wheel is turned over a closed picker.
#[derive(Debug, Clone, Copy, PartialEq, Eq, Structural)]
pub enum Scroll {
    /// Towards the options that follow.
    Forward,
    /// Towards the options that come before.
    Backward,
}

/// The option that a turn of the wheel selects among `count` options. With
/// nothing selected it is the first option going forward and the last going
/// backward; from a selected option it is the neighbour in that direction,
/// and none at the end of the list.
pub open spec fn scrolled_to(count: int, selection: Selection, scroll: Scroll) -> Option<int> {
    match (scroll, selection) {
        (_, Selection::Elsewhere) => None,
        (Scroll::Forward, Selection::Nothing) => if count > 0 {
            Some(0)
        } else {
            None
        },
        (Scroll::Backward, Selection::Nothing) => if count > 0 {
            Some(count - 1)
        } else {
            None
        },
        (Scroll::Forward, Selection::At(place)) => if place + 1 < count {
            Some(place + 1)
        } else {
            None
        },
        (Scroll::Backward, Selection::At(place)) => if 0 < place < count {
            Some(place - 1)
        } else {
            None
        },
    }
}

/// The option that a turn of the wheel selects.
pub fn scroll_choice(count: usize, selection: Selection, scroll: Scroll) -> (choice: Option<usize>)
    ensures
        match choice {
            Some(place) => scrolled_to(count as int, selection, scroll) == Some(place as int),
            None => scrolled_to(count as int, selection, scroll) is None,
        },
        choice matches Some(place) ==> place < count,
{
    match selection {
        Selection::Elsewhere => None,
        Selection::Nothing => {
            if count == 0 {
                None
            } else {
                match scroll {
                    Scroll::Forward => Some(0),
                    Scroll::Backward => Some(count - 1),
                }
            }
        },
        Selection::At(place) => match scroll {
            Scroll::Forward => if place < count && place + 1 < count {
                Some(place + 1)
            } else {
                None
            },
            Scroll::Backward => if 0 < place && place < count {
                Some(place - 1)
            } else {
                None
            },
        },
    }
}

/// The level of an entry in the sidebar.
#[derive(Debug, Clone, Copy, PartialEq, Eq, Structural)]
pub enum EntryButtonLevel {
    TopLevel,
    SubLevel,
}

/// The icons of the control panel.
#[derive(Debug, Clone, Copy, PartialEq, Eq, Structural)]
pub enum Icon {
    Audio,
    AudioDevices,
    AudioCards,
    MicMuted,
    Mic,
    Volume,
    VolumeMuted,
    Wifi,
    Wifi1Bar,
    Wifi2Bar,
    WifiDisabled,
    WifiSettings,
    Bluetooth,
    BluetoothConnected,
    BluetoothDisabled,
    ChevronLeft,
    ChevronRight,
}

/// What the card of a device needs: the commands it sends, its icons and
/// its title.
pub trait TCardUser {
    fn volume_fn(index: u32, channels: u16, volume: u32) -> AudioMsg;

    fn mute_fn(index: u32, muted: bool) -> AudioMsg;

    fn default_fn(index: u32) -> AudioMsg;

    fn muted_icon() -> Icon;

    fn unmuted_icon() -> Icon;

    fn title() -> String;
}

/// What the card of a stream needs; `C` is the kind of device that the
/// stream is routed through.
pub trait TStreamCardUser<C>: Sized {
    fn volume_fn(index: u32, channels: u16, volume: u32) -> AudioMsg;

    fn mute_fn(index: u32, muted: bool) -> AudioMsg;

    fn default_fn(self, obj: C) -> AudioMsg;

    fn muted_icon() -> Icon;

    fn unmuted_icon() -> Icon;

    fn title() -> String;

    fn obj_index(&self) -> u32;
}

impl TCardUser for AudioSink {
    fn volume_fn(index: u32, channels: u16, volume: u32) -> (msg: AudioMsg)
        ensures
            msg == AudioMsg::SetSinkVolume(index, channels, volume),
    {
        AudioMsg::SetSinkVolume(index, channels, volume)
    }

    fn mute_fn(index: u32, muted: bool) -> (msg: AudioMsg)
        ensures
            msg == AudioMsg::SetSinkMute(index, muted),
    {
        AudioMsg::SetSinkMute(index, muted)
    }

    fn default_fn(index: u32) -> (msg: AudioMsg)
        ensures
            msg == AudioMsg::SetDefaultSink(index),
    {
        AudioMsg::SetDefaultSink(index)
    }

    fn muted_icon() -> (icon: Icon)
        ensures
            icon == Icon::VolumeMuted,
    {
        Icon::VolumeMuted
    }

    fn unmuted_icon() -> (icon: Icon)
        ensures
            icon == Icon::Volume,
    {
        Icon::Volume
    }

    fn title() -> (title: String)
        ensures
            title@ == "Output"@,
    {
        "Output".to_owned()
    }
}

impl TCardUser for AudioSource {
    fn volume_fn(index: u32, channels: u16, volume: u32) -> (msg: AudioMsg)
        ensures
            msg == AudioMsg::SetSourceVolume(index, channels, volume),
    {
        AudioMsg::SetSourceVolume(index, channels, volume)
    }

    fn mute_fn(index: u32, muted: bool) -> (msg: AudioMsg)
        ensures
            msg == AudioMsg::SetSourceMute(index, muted),
    {
        AudioMsg::SetSourceMute(index, muted)
    }

    fn default_fn(index: u32) -> (msg: AudioMsg)
        ensures
            msg == AudioMsg::SetDefaultSource(index),
    {
        AudioMsg::SetDefaultSource(index)
    }

    fn muted_icon() -> (icon: Icon)
        ensures
            icon == Icon::MicMuted,
    {
        Icon::MicMuted
    }

    fn unmuted_icon() -> (icon: Icon)
        ensures
            icon == Icon::Mic,
    {
        Icon::Mic
    }

    fn title() -> (title: String)
        ensures
            title@ == "Input"@,
    {
        "Input".to_owned()
    }
}

impl TStreamCardUser<AudioSink> for InputStream {
    fn volume_fn(index: u32, channels: u16, volume: u32) -> (msg: AudioMsg)
        ensures
            msg == AudioMsg::SetInputStreamVolume(index, channels, volume),
    {
        AudioMsg::SetInputStreamVolume(index, channels, volume)
    }

    fn mute_fn(index: u32, muted: bool) -> (msg: AudioMsg)
        ensures
            msg == AudioMsg::SetInputStreamMute(index, muted),
    {
        AudioMsg::SetInputStreamMute(index, muted)
    }

    fn default_fn(self, obj: AudioSink) -> (msg: AudioMsg)
        ensures
            msg == AudioMsg::SetSinkOfInputStream(self, obj),
    {
        AudioMsg::SetSinkOfInputStream(self, obj)
    }

    fn muted_icon() -> (icon: Icon)
        ensures
            icon == Icon::VolumeMuted,
    {
        Icon::VolumeMuted
    }

    fn unmuted_icon() -> (icon: Icon)
        ensures
            icon == Icon::Volume,
    {
        Icon::Volume
    }

    fn title() -> (title: String)
        ensures
            title@ == "Output"@,
    {
        "Output".to_owned()
    }

    fn obj_index(&self) -> (index: u32)
        ensures
            index == self.sink_index,
    {
        self.sink_index
    }
}

impl TStreamCardUser<AudioSource> for OutputStream {
    fn volume_fn(index: u32, channels: u16, volume: u32) -> (msg: AudioMsg)
        ensures
            msg == AudioMsg::SetOutputStreamVolume(index, channels, volume),
    {
        AudioMsg::SetOutputStreamVolume(index, channels, volume)
    }

    fn mute_fn(index: u32, muted: bool) -> (msg: AudioMsg)
        ensures
            msg == AudioMsg::SetOutputStreamMute(index, muted),
    {
        AudioMsg::SetOutputStreamMute(index, muted)
    }

    fn default_fn(self, obj: AudioSource) -> (msg: AudioMsg)
        ensures
            msg == AudioMsg::SetSourceOfOutputStream(self, obj),
    {
        AudioMsg::SetSourceOfOutputStream(self, obj)
    }

    fn muted_icon() -> (icon: Icon)
        ensures
            icon == Icon::MicMuted,
    {
        Icon::MicMuted
    }

    fn unmuted_icon() -> (icon: Icon)
        ensures
            icon == Icon::Mic,
    {
        Icon::Mic
    }

    fn title() -> (title: String)
        ensures
            title@ == "Input"@,
    {
        "Input".to_owned()
    }

    fn obj_index(&self) -> (index: u32)
        ensures
            index == self.source_index,
    {
        self.source_index
    }
}

} // verus!
