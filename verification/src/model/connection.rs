//! Connection state types for the application model.

use vstd::prelude::*;

verus! {

/// Current connection state to WhatsApp servers.
#[derive(Debug, Clone, PartialEq, Eq)]
pub enum ConnectionState {
    /// Not connected
    Disconnected,
    /// Attempting to connect
    Connecting,
    /// Waiting for user to scan QR code
    WaitingForQr {
        /// The QR code data to display
        qr_code: String,
    },
    /// Waiting for user to enter pair code on phone
    WaitingForPairCode {
        /// The code to enter on phone
        code: String,
    },
    /// Connected and authenticated
    Connected,
    /// Connection lost, attempting to reconnect
    Reconnecting,
    /// User logged out (need to re-pair)
    LoggedOut,
}

impl Default for ConnectionState {
    fn default() -> (r: Self)
        ensures
            r is Disconnected,
    {
        ConnectionState::Disconnected
    }
}

/// The user has to act to pair the device.
pub open spec fn pairing_needed(s: ConnectionState) -> bool {
    s is WaitingForQr || s is WaitingForPairCode || s is LoggedOut
}

impl ConnectionState {
    /// Check if currently connected.
    pub fn is_connected(&self) -> (r: bool)
        ensures
            r == (*self is Connected),
    {
        match self {
            ConnectionState::Connected => true,
            _ => false,
        }
    }

    /// Check if the user has to act to pair.
    pub fn needs_pairing(&self) -> (r: bool)
        ensures
            r == pairing_needed(*self),
    {
        match self {
            ConnectionState::WaitingForQr { .. } => true,
            ConnectionState::WaitingForPairCode { .. } => true,
            ConnectionState::LoggedOut => true,
            _ => false,
        }
    }
}

/// Which view should be displayed.
#[derive(Debug, Clone, Copy, PartialEq, Eq, Structural)]
pub enum ViewState {
    /// Loading/initializing the application
    Loading,
    /// Pairing screen (QR code or pair code)
    Pairing,
    /// Main chat list and conversation view
    Chats,
    /// Settings screen
    Settings,
}

impl Default for ViewState {
    fn default() -> (r: Self)
        ensures
            r == ViewState::Loading,
    {
        ViewState::Loading
    }
}

} // verus!
