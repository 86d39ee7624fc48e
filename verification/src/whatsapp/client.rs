//! Commands for the WhatsApp client and the handle that carries them.

use vstd::prelude::*;
use futures::channel::mpsc::Sender;
use crate::whatsapp::types::Jid;

verus! {

/// Command to send to the WhatsApp client.
#[derive(Debug, Clone)]
pub enum WhatsAppCommand {
    /// Send a text message under a local id.
    SendMessage { local_id: String, chat_jid: Jid, text: String },
    /// Send a typing indicator.
    SendTyping { chat_jid: Jid, typing: bool },
    /// Mark the chat as read.
    MarkAsRead,
}

/// Connection handle for sending commands to WhatsApp.
#[derive(Clone)]
pub struct Connection {
    sender: Sender<WhatsAppCommand>,
    offered: Ghost<Seq<WhatsAppCommand>>,
}

impl Connection {
    /// The channel that the connection sends on.
    pub closed spec fn channel(&self) -> Sender<WhatsAppCommand> {
        self.sender
    }

    /// The commands offered to the channel through this connection, oldest
    /// first, whether or not the channel took them.
    pub closed spec fn offered(&self) -> Seq<WhatsAppCommand> {
        self.offered@
    }

    /// A connection over the given channel, that has offered nothing yet.
    pub fn new(sender: Sender<WhatsAppCommand>) -> (r: Self)
        ensures
            r.channel() == sender,
            r.offered() == Seq::<WhatsAppCommand>::empty(),
    {
        Connection { sender, offered: Ghost(Seq::empty()) }
    }

    /// Offers a command to the WhatsApp client with `Sender::try_send` of
    /// `futures`; returns whether the channel took it (it refuses when it is
    /// full or its receiver is gone). Trusted: the one call of `try_send` with
    /// `command` is recorded as the latest offered command.
    #[verifier::external_body]
    pub fn send(&mut self, command: WhatsAppCommand) -> (taken: bool)
        ensures
            final(self).offered() == old(self).offered().push(command),
    {
        self.sender.try_send(command).is_ok()
    }

    /// Sends a text message with a specific local id; returns whether the
    /// channel took it.
    pub fn send_message_with_id(&mut self, local_id: String, chat_jid: Jid, text: String) -> (taken: bool)
        ensures
            final(self).offered() == old(self).offered().push(WhatsAppCommand::SendMessage { local_id, chat_jid, text }),
    {
        self.send(WhatsAppCommand::SendMessage { local_id, chat_jid, text })
    }

    /// Sends a typing indicator; returns whether the channel took it.
    pub fn send_typing(&mut self, chat_jid: Jid, typing: bool) -> (taken: bool)
        ensures
            final(self).offered() == old(self).offered().push(WhatsAppCommand::SendTyping { chat_jid, typing }),
    {
        self.send(WhatsAppCommand::SendTyping { chat_jid, typing })
    }

    /// Marks a chat as read; returns whether the channel took it.
    pub fn mark_as_read(&mut self, _chat_jid: Jid) -> (taken: bool)
        ensures
            final(self).offered() == old(self).offered().push(WhatsAppCommand::MarkAsRead),
    {
        self.send(WhatsAppCommand::MarkAsRead)
    }
}

} // verus!
