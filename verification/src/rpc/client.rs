//! The handle through which the user interface sends requests to the service.

use vstd::prelude::*;
use futures::channel::mpsc::Sender;
use crate::clock;
use crate::rpc::{Jid, RpcRequest};
use crate::text::{concat, decimal_string, decimal_text};

verus! {

/// The sending half of a bounded `futures` channel.
#[verifier::external_type_specification]
#[verifier::external_body]
#[verifier::reject_recursive_types(T)]
pub struct ExSender<T>(Sender<T>);

/// `Sender::clone`: another handle on the same channel; nothing is stated of
/// the result beyond its type.
pub assume_specification<T>[ <Sender<T> as Clone>::clone ](sender: &Sender<T>) -> Sender<T>;

/// Handle for sending commands to the WhatsApp service from the user interface.
#[derive(Clone)]
pub struct RpcClientHandle {
    sender: Sender<RpcRequest>,
    offered: Ghost<Seq<RpcRequest>>,
}


/// `manual_`, the prefix of local ids of messages sent through the handle.
pub open spec fn manual_prefix() -> Seq<char> {
    seq!['m', 'a', 'n', 'u', 'a', 'l', '_']
}

/// `r` asks to send `text` to `chat_jid` under the local id `manual_` and
/// the clock's reading `millis` in milliseconds.
pub open spec fn manual_request(r: RpcRequest, chat_jid: Jid, text: String, millis: int) -> bool {
    r matches RpcRequest::SendMessage { local_id, chat_jid: j, text: t } && local_id@ == manual_prefix()
        + decimal_text(millis) && j == chat_jid && t == text
}

/// The request that `send_message` sends when the clock reads `now_millis`.
pub fn send_message_request(chat_jid: Jid, text: String, now_millis: i64) -> (r: RpcRequest)
    ensures
        manual_request(r, chat_jid, text, now_millis as int),
{
    let prefix = crate::text::string_from(vec!['m', 'a', 'n', 'u', 'a', 'l', '_']);
    let digits = decimal_string(now_millis);
    let local_id = concat(prefix.as_str(), digits.as_str());
    RpcRequest::SendMessage { local_id, chat_jid, text }
}

impl RpcClientHandle {
    /// The channel that the handle sends on.
    pub closed spec fn channel(&self) -> Sender<RpcRequest> {
        self.sender
    }

    /// The requests offered to the channel through this handle, oldest
    /// first, whether or not the channel took them.
    pub closed spec fn offered(&self) -> Seq<RpcRequest> {
        self.offered@
    }

    /// A handle over the given channel, that has offered nothing yet.
    pub fn from_sender(sender: Sender<RpcRequest>) -> (r: Self)
        ensures
            r.channel() == sender,
            r.offered() == Seq::<RpcRequest>::empty(),
    {
        RpcClientHandle { sender, offered: Ghost(Seq::empty()) }
    }

    /// Offers a request to the service with `Sender::try_send` of `futures`;
    /// a request that the channel does not take (full or closed) is dropped.
    /// Trusted: the one call of `try_send` with `request` is recorded as the
    /// handle's latest offered request; nothing is stated of whether the
    /// channel took it.
    #[verifier::external_body]
    pub fn send(&mut self, request: RpcRequest)
        ensures
            final(self).offered() == old(self).offered().push(request),
    {
        let _ = self.sender.try_send(request);
    }

    /// Sends a text message, under the local id `manual_` and the current
    /// time in milliseconds.
    pub fn send_message(&mut self, chat_jid: Jid, text: String)
        ensures
            final(self).offered().len() == old(self).offered().len() + 1,
            final(self).offered().drop_last() == old(self).offered(),
            exists|millis: int| #[trigger] manual_request(final(self).offered().last(), chat_jid, text, millis),
    {
        let now_millis = clock::millis(clock::now());
        let request = send_message_request(chat_jid, text, now_millis);
        let ghost sent = request;
        self.send(request);
        assert(self.offered().drop_last() =~= old(self).offered());
        assert(self.offered().last() == sent);
        assert(manual_request(self.offered().last(), chat_jid, text, now_millis as int));
    }

    /// Sends a typing indicator.
    pub fn send_typing(&mut self, chat_jid: Jid, typing: bool)
        ensures
            final(self).offered() == old(self).offered().push(RpcRequest::SendTyping { chat_jid, typing }),
    {
        self.send(RpcRequest::SendTyping { chat_jid, typing });
    }

    /// Marks a chat as read.
    pub fn mark_as_read(&mut self, chat_jid: Jid)
        ensures
            final(self).offered() == old(self).offered().push(RpcRequest::MarkAsRead { chat_jid }),
    {
        self.send(RpcRequest::MarkAsRead { chat_jid });
    }

    /// Asks for older history before the given message.
    pub fn fetch_history(
        &mut self,
        chat_jid: Jid,
        oldest_msg_id: String,
        oldest_msg_from_me: bool,
        oldest_msg_timestamp_ms: i64,
        count: i32,
    )
        ensures
            final(self).offered() == old(self).offered().push(
                RpcRequest::FetchHistory {
                    chat_jid,
                    oldest_msg_id,
                    oldest_msg_from_me,
                    oldest_msg_timestamp_ms,
                    count,
                },
            ),
    {
        self.send(
            RpcRequest::FetchHistory {
                chat_jid,
                oldest_msg_id,
                oldest_msg_from_me,
                oldest_msg_timestamp_ms,
                count,
            },
        );
    }

    /// Asks the service to disconnect.
    pub fn disconnect(&mut self)
        ensures
            final(self).offered() == old(self).offered().push(RpcRequest::Disconnect),
    {
        self.send(RpcRequest::Disconnect);
    }
}

/// The client side of the service connection; the subscription that runs it
/// lives with the application.
pub struct RpcClient;

} // verus!
