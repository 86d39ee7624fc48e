//! The application: its state and the title of its window.

use vstd::prelude::*;
use crate::clock::Timestamp;
use crate::controller::{self, followup_of, message_applied, Followup, Message};
use crate::model::{AppState, ConnectionState};
use crate::text::string_from;

verus! {

/// The application, holding its state.
pub struct App {
    pub state: AppState,
}

/// `WhatsApp Desktop`, the start of every window title.
pub open spec fn title_base() -> Seq<char> {
    seq!['W', 'h', 'a', 't', 's', 'A', 'p', 'p', ' ', 'D', 'e', 's', 'k', 't', 'o', 'p']
}

/// What the title adds for a connection state.
pub open spec fn title_suffix(c: ConnectionState) -> Seq<char> {
    match c {
        ConnectionState::Connected => Seq::empty(),
        ConnectionState::Connecting => seq![
            ' ', '-', ' ', 'C', 'o', 'n', 'n', 'e', 'c', 't', 'i', 'n', 'g', '.', '.', '.',
        ],
        ConnectionState::WaitingForQr { .. } => seq![
            ' ', '-', ' ', 'S', 'c', 'a', 'n', ' ', 'Q', 'R', ' ', 'C', 'o', 'd', 'e',
        ],
        ConnectionState::WaitingForPairCode { .. } => seq![
            ' ', '-', ' ', 'E', 'n', 't', 'e', 'r', ' ', 'C', 'o', 'd', 'e',
        ],
        ConnectionState::Reconnecting => seq![
            ' ', '-', ' ', 'R', 'e', 'c', 'o', 'n', 'n', 'e', 'c', 't', 'i', 'n', 'g', '.', '.', '.',
        ],
        ConnectionState::LoggedOut => seq![' ', '-', ' ', 'L', 'o', 'g', 'g', 'e', 'd', ' ', 'O', 'u', 't'],
        ConnectionState::Disconnected => seq![
            ' ', '-', ' ', 'D', 'i', 's', 'c', 'o', 'n', 'n', 'e', 'c', 't', 'e', 'd',
        ],
    }
}

impl App {
    /// The application in its initial state.
    pub fn new() -> (r: Self)
        ensures
            r.state.wf(),
            r.state.connection is Disconnected,
    {
        App { state: AppState::new() }
    }

    /// The window title: the application's name and the connection state.
    pub fn title(&self) -> (r: String)
        ensures
            r@ == title_base() + title_suffix(self.state.connection),
    {
        let mut v: Vec<char> = vec![
            'W', 'h', 'a', 't', 's', 'A', 'p', 'p', ' ', 'D', 'e', 's', 'k', 't', 'o', 'p',
        ];
        let mut suffix: Vec<char> = match &self.state.connection {
            ConnectionState::Connected => Vec::new(),
            ConnectionState::Connecting => vec![
                ' ', '-', ' ', 'C', 'o', 'n', 'n', 'e', 'c', 't', 'i', 'n', 'g', '.', '.', '.',
            ],
            ConnectionState::WaitingForQr { .. } => vec![
                ' ', '-', ' ', 'S', 'c', 'a', 'n', ' ', 'Q', 'R', ' ', 'C', 'o', 'd', 'e',
            ],
            ConnectionState::WaitingForPairCode { .. } => vec![
                ' ', '-', ' ', 'E', 'n', 't', 'e', 'r', ' ', 'C', 'o', 'd', 'e',
            ],
            ConnectionState::Reconnecting => vec![
                ' ', '-', ' ', 'R', 'e', 'c', 'o', 'n', 'n', 'e', 'c', 't', 'i', 'n', 'g', '.', '.', '.',
            ],
            ConnectionState::LoggedOut => vec![' ', '-', ' ', 'L', 'o', 'g', 'g', 'e', 'd', ' ', 'O', 'u', 't'],
            ConnectionState::Disconnected => vec![
                ' ', '-', ' ', 'D', 'i', 's', 'c', 'o', 'n', 'n', 'e', 'c', 't', 'e', 'd',
            ],
        };
        assert(suffix@ == title_suffix(self.state.connection));
        v.append(&mut suffix);
        string_from(v)
    }

    /// Processes a message; gives what the interface does next.
    pub fn update(&mut self, message: Message) -> (r: Followup)
        requires
            old(self).state.wf(),
        ensures
            final(self).state.wf(),
            r == followup_of(message, old(self).state),
            exists|now: Timestamp| #[trigger] message_applied(message, old(self).state, final(self).state, now),
    {
        controller::update(&mut self.state, message)
    }
}

} // verus!
