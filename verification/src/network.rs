//! The network domain. It has one page, the wireless page, and no state of
//! its own yet.

use vstd::prelude::*;

verus! {

/// The pages of the network domain.
#[derive(Default, Debug, Clone, Copy, PartialEq, Eq, Structural)]
pub enum NetworkPageId {
    #[default]
    Wireless,
}

/// The model of the wireless page.
#[derive(Debug, Clone, Copy, PartialEq, Eq, Structural)]
pub struct WirelessModel {}

/// The messages of the wireless page: so far only one, which has no
/// effect.
#[derive(Debug, Clone, Copy, PartialEq, Eq, Structural)]
pub enum WirelessMsg {
    Noop,
}

impl WirelessModel {
    pub fn new() -> (model: Self)
        ensures
            model == (WirelessModel {  }),
    {
        WirelessModel {  }
    }

    /// Processes a message. None has an effect yet.
    pub fn update(&mut self, msg: WirelessMsg)
        ensures
            *final(self) == *old(self),
    {
        match msg {
            WirelessMsg::Noop => {},
        }
    }
}

impl Default for WirelessModel {
    fn default() -> (model: Self)
        ensures
            model == (WirelessModel {  }),
    {
        WirelessModel {  }
    }
}

/// The model of the network domain.
#[derive(Debug, Clone, Copy, PartialEq, Eq, Structural)]
pub struct NetworkModel {
    current_page: NetworkPageId,
    wireless_model: WirelessModel,
}

/// The messages of the network domain.
#[derive(Debug, Clone, Copy, PartialEq, Eq, Structural)]
pub enum NetworkMsg {
    SubMsgWireless(WirelessMsg),
}

impl NetworkModel {
    /// The page that is shown.
    pub closed spec fn page(&self) -> NetworkPageId {
        self.current_page
    }

    /// The model with the wireless page shown.
    pub fn new() -> (model: Self)
        ensures
            model.page() == NetworkPageId::Wireless,
    {
        NetworkModel { current_page: NetworkPageId::Wireless, wireless_model: WirelessModel::new() }
    }

    /// Hands a message on to the page it is meant for.
    pub fn update(&mut self, msg: NetworkMsg)
        ensures
            *final(self) == *old(self),
    {
        match msg {
            NetworkMsg::SubMsgWireless(wireless_msg) => self.wireless_model.update(wireless_msg),
        }
    }

    pub fn current_page(&self) -> (page: NetworkPageId)
        ensures
            page == self.page(),
    {
        self.current_page
    }
}

impl Default for NetworkModel {
    fn default() -> (model: Self)
        ensures
            model.page() == NetworkPageId::Wireless,
    {
        NetworkModel::new()
    }
}

} // verus!
