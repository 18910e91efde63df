//! The pages of the control panel, one per domain, and the switch between
//! them.

use vstd::prelude::*;

verus! {

/// A domain of the control panel. One of them is active at a time.
#[derive(Debug, Clone, Copy, Default, PartialEq, Eq, Structural)]
pub enum PageId {
    #[default]
    Audio,
    Network,
    Bluetooth,
}

/// What a page asks for when it becomes active.
#[derive(Debug, Clone, Copy, PartialEq, Eq, Structural)]
pub enum PageTask {
    StartBluetoothListener,
}

impl PageId {
    /// The number that stands for this page in the shared flag that the
    /// worker polls.
    pub open spec fn code_of(self) -> u8 {
        match self {
            PageId::Audio => 0,
            PageId::Network => 1,
            PageId::Bluetooth => 2,
        }
    }

    /// The page that a number read back from a flag is taken for: 0 is the
    /// audio page, 1 the bluetooth page, and any other number the network
    /// page.
    pub open spec fn page_of(code: u8) -> PageId {
        if code == 0 {
            PageId::Audio
        } else if code == 1 {
            PageId::Bluetooth
        } else {
            PageId::Network
        }
    }

    /// True for the domains whose backend notifications a worker watches.
    pub open spec fn is_watched(self) -> bool {
        self == PageId::Audio || self == PageId::Bluetooth
    }

    pub fn code(self) -> (code: u8)
        ensures
            code == self.code_of(),
    {
        match self {
            PageId::Audio => 0,
            PageId::Network => 1,
            PageId::Bluetooth => 2,
        }
    }

    pub fn from_code(code: u8) -> (page: PageId)
        ensures
            page == PageId::page_of(code),
    {
        match code {
            0 => PageId::Audio,
            1 => PageId::Bluetooth,
            _ => PageId::Network,
        }
    }

    /// What the page asks for when it becomes active, if anything.
    pub fn task(&self) -> (task: Option<PageTask>)
        ensures
            task == (if *self == PageId::Bluetooth {
                Some(PageTask::StartBluetoothListener)
            } else {
                None
            }),
    {
        match self {
            PageId::Audio => None,
            PageId::Network => None,
            PageId::Bluetooth => Some(PageTask::StartBluetoothListener),
        }
    }

    pub fn has_worker(self) -> (watched: bool)
        ensures
            watched == self.is_watched(),
    {
        match self {
            PageId::Audio => true,
            PageId::Network => false,
            PageId::Bluetooth => true,
        }
    }
}

/// What is to happen after a request to show a page.
#[derive(Debug, Clone, Copy, PartialEq, Eq, Structural)]
pub struct PageSwitch {
    /// The task of the page that became active.
    pub task: Option<PageTask>,
    /// The page for which the worker is to be started.
    pub start_worker: Option<PageId>,
    /// True when the audio registry is to be rebuilt from a fresh full
    /// listing before it is shown.
    pub refresh_audio: bool,
}

/// Which page is shown, and whether the audio registry has gone stale.
#[derive(Debug, Clone, Copy, PartialEq, Eq, Structural)]
pub struct Navigation {
    pub current_page: PageId,
    /// Set when the worker lost its connection: what the registry holds may
    /// be out of date until it is listed anew.
    pub audio_stale: bool,
}

impl Navigation {
    /// The state after a request to show `page`, and what is to happen.
    /// Asking for the page that is shown already changes nothing and asks
    /// for nothing. A switch to the audio page of a stale registry asks for
    /// a fresh listing and clears the mark.
    pub open spec fn switched(self, page: PageId) -> (Navigation, PageSwitch) {
        if page == self.current_page {
            (self, PageSwitch { task: None, start_worker: None, refresh_audio: false })
        } else {
            let refresh = page == PageId::Audio && self.audio_stale;
            (
                Navigation { current_page: page, audio_stale: self.audio_stale && !refresh },
                PageSwitch {
                    task: if page == PageId::Bluetooth {
                        Some(PageTask::StartBluetoothListener)
                    } else {
                        None
                    },
                    start_worker: Some(page),
                    refresh_audio: refresh,
                },
            )
        }
    }

    /// The audio page is shown and nothing is stale.
    pub fn new() -> (navigation: Self)
        ensures
            navigation == (Navigation { current_page: PageId::Audio, audio_stale: false }),
    {
        Navigation { current_page: PageId::Audio, audio_stale: false }
    }

    /// Handles a request to show `page`.
    pub fn set_page(&mut self, page: PageId) -> (switch: PageSwitch)
        ensures
            (*final(self), switch) == old(self).switched(page),
    {
        if page == self.current_page {
            PageSwitch { task: None, start_worker: None, refresh_audio: false }
        } else {
            let refresh = page == PageId::Audio && self.audio_stale;
            self.current_page = page;
            if refresh {
                self.audio_stale = false;
            }
            PageSwitch { task: page.task(), start_worker: Some(page), refresh_audio: refresh }
        }
    }

    /// Records that the worker of `page` ended because its connection was
    /// lost. Only the audio registry is kept here, so only its loss is
    /// marked.
    pub fn worker_lost(&mut self, page: PageId)
        ensures
            *final(self) == (Navigation {
                current_page: old(self).current_page,
                audio_stale: old(self).audio_stale || page == PageId::Audio,
            }),
    {
        if page == PageId::Audio {
            self.audio_stale = true;
        }
    }
}

impl Default for Navigation {
    fn default() -> (navigation: Self)
        ensures
            navigation == (Navigation { current_page: PageId::Audio, audio_stale: false }),
    {
        Navigation::new()
    }
}

} // verus!
