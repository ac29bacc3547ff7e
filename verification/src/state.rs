//! The session record: whether a device is connected, under which address,
//! and whether its controller takes joystick frames.

use vstd::prelude::*;
use vstd::string::*;

verus! {

/// What is known of the session with the arm. A new session is idle: not
/// connected, without an address, the controller not usable.
#[derive(Clone, Debug, PartialEq, Eq)]
pub struct AppState {
    pub is_connected: bool,
    pub connected_address: Option<String>,
    pub controller_usable: bool,
}

/// Mathematical value of an [`AppState`].
pub struct SessionModel {
    pub is_connected: bool,
    pub connected_address: Option<Seq<char>>,
    pub controller_usable: bool,
}

impl SessionModel {
    /// The session before any device was connected, and after a disconnect.
    pub open spec fn idle() -> SessionModel {
        SessionModel { is_connected: false, connected_address: None, controller_usable: false }
    }

    /// The address that a command records: none for the empty text.
    pub open spec fn address_of(text: Seq<char>) -> Option<Seq<char>> {
        if text.len() == 0 {
            None
        } else {
            Some(text)
        }
    }

    /// The session with another address.
    pub open spec fn with_address(self, address: Option<Seq<char>>) -> SessionModel {
        SessionModel { connected_address: address, ..self }
    }

    /// The session with another connection flag.
    pub open spec fn with_connected(self, connected: bool) -> SessionModel {
        SessionModel { is_connected: connected, ..self }
    }

    /// The session with another readiness of the controller.
    pub open spec fn with_controller_usable(self, usable: bool) -> SessionModel {
        SessionModel { controller_usable: usable, ..self }
    }

    /// The session after the device of this address was connected.
    pub open spec fn connected_to(self, address: Seq<char>) -> SessionModel {
        self.with_address(Self::address_of(address)).with_connected(true)
    }

    /// The address to show: the connected one, or a fixed text where there is
    /// none.
    pub open spec fn shown_address(self) -> Seq<char> {
        match self.connected_address {
            Some(address) => address,
            None => "No device connected"@,
        }
    }
}

impl View for AppState {
    type V = SessionModel;

    open spec fn view(&self) -> SessionModel {
        SessionModel {
            is_connected: self.is_connected,
            connected_address: match self.connected_address {
                Some(address) => Some(address@),
                None => None,
            },
            controller_usable: self.controller_usable,
        }
    }
}

impl Default for AppState {
    fn default() -> (state: Self)
        ensures
            state@ == SessionModel::idle(),
    {
        AppState { is_connected: false, connected_address: None, controller_usable: false }
    }
}

impl AppState {
    /// An idle session.
    pub fn new() -> (state: Self)
        ensures
            state@ == SessionModel::idle(),
    {
        AppState { is_connected: false, connected_address: None, controller_usable: false }
    }

    /// Records the connected address, or that there is none.
    pub fn set_address(&mut self, address: Option<String>)
        ensures
            final(self)@ == old(self)@.with_address(
                match address {
                    Some(text) => Some(text@),
                    None => None,
                },
            ),
    {
        self.connected_address = address;
    }

    /// The connected address, or `No device connected` where there is none.
    pub fn get_address(&self) -> (address: String)
        ensures
            address@ == self@.shown_address(),
    {
        match &self.connected_address {
            Some(address) => address.clone(),
            None => String::from_str("No device connected"),
        }
    }

    /// Records whether a device is connected.
    pub fn set_connected(&mut self, connected: bool)
        ensures
            final(self)@ == old(self)@.with_connected(connected),
    {
        self.is_connected = connected;
    }

    /// Records whether the controller takes joystick frames.
    pub fn set_controller_usable(&mut self, usable: bool)
        ensures
            final(self)@ == old(self)@.with_controller_usable(usable),
    {
        self.controller_usable = usable;
    }

    /// Whether the controller takes joystick frames, as last recorded.
    pub fn get_controller_usable(&self) -> (usable: bool)
        ensures
            usable == self@.controller_usable,
    {
        self.controller_usable
    }

    /// Records that the device of this address is connected. The empty
    /// address records a connection without an address.
    pub fn mark_connected(&mut self, address: String)
        ensures
            final(self)@ == old(self)@.connected_to(address@),
    {
        if address.as_str().is_empty() {
            self.connected_address = None;
        } else {
            self.connected_address = Some(address);
        }
        self.is_connected = true;
    }

    /// Makes the session idle again, whatever it was.
    pub fn reset(&mut self)
        ensures
            final(self)@ == SessionModel::idle(),
    {
        self.connected_address = None;
        self.is_connected = false;
        self.controller_usable = false;
    }
}

} // verus!
