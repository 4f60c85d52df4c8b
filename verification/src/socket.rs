//! What a client sends over its socket, and where the server forwards it.
//!
//! Every text frame a client sends names a kind of event. The server does not
//! act on it directly: it hands the frame, unchanged, to the broker, tagged
//! with the pub/sub topic of its kind, so that every server instance sees it.
//! A frame that announces a user also registers the sender's socket with the
//! broker under that user's name.

use crate::broker::{Client, InterMsg, InterMsgType};
use crate::channel::PartialChannel;
use crate::message::PartialMessage;
use crate::User;
use vstd::prelude::*;
use vstd::string::*;

verus! {

/// The kinds of event a client can send.
#[derive(Debug, Clone, Copy, PartialEq, Eq)]
pub enum MsgType {
    UserConnection,
    NewChannel,
    RetrieveChannels,
    RetrieveChannelMessages,
    UpdateChannel,
    NewMessage,
    UpdateMessage,
    DeleteMessage,
}

/// A decoded socket frame: its kind, and whichever of a message, a channel
/// and a user the kind needs.
#[derive(Debug, Clone, PartialEq, Eq)]
pub struct SockMsg {
    pub _type: MsgType,
    pub message: Option<PartialMessage>,
    pub channel: Option<PartialChannel>,
    pub user: Option<User>,
}

/// The pub/sub topic on which events of kind `t` travel: user and channel
/// events on `channels`, message events on `messages`.
pub open spec fn topic(t: MsgType) -> Seq<char> {
    match t {
        MsgType::UserConnection => "channels"@,
        MsgType::NewChannel => "channels"@,
        MsgType::RetrieveChannels => "channels"@,
        MsgType::RetrieveChannelMessages => "channels"@,
        MsgType::UpdateChannel => "channels"@,
        MsgType::NewMessage => "messages"@,
        MsgType::UpdateMessage => "messages"@,
        MsgType::DeleteMessage => "messages"@,
    }
}

/// A frame can be forwarded unless it announces a user without naming one.
pub open spec fn forwardable(msg: SockMsg) -> bool {
    msg._type is UserConnection ==> msg.user is Some
}

/// `out` is what the server hands the broker for the frame `msg`, whose raw
/// text was `text`, received on the socket `handle`.
pub open spec fn routed<H>(msg: SockMsg, text: String, handle: H, out: InterMsg<H>) -> bool {
    &&& out.message == Some(text)
    &&& out.channel matches Some(c) && c@ == topic(msg._type)
    &&& if msg._type is UserConnection {
        &&& out._type == InterMsgType::Client
        &&& out.client == Some(Client { username: msg.user.unwrap().username, handle })
    } else {
        &&& out._type == InterMsgType::Message
        &&& out.client is None
    }
}

/// Tells whether `route_socket_message` accepts `msg`.
pub fn is_forwardable(msg: &SockMsg) -> (b: bool)
    ensures
        b == forwardable(*msg),
        !(msg._type is UserConnection) ==> b,
        msg._type is UserConnection ==> (b <==> msg.user is Some),
{
    match msg._type {
        MsgType::UserConnection => msg.user.is_some(),
        _ => true,
    }
}

/// The topic name for events of kind `t`.
pub fn topic_name(t: MsgType) -> (name: String)
    ensures
        name@ == topic(t),
{
    match t {
        MsgType::UserConnection
        | MsgType::NewChannel
        | MsgType::RetrieveChannels
        | MsgType::RetrieveChannelMessages
        | MsgType::UpdateChannel => String::from_str("channels"),
        MsgType::NewMessage | MsgType::UpdateMessage | MsgType::DeleteMessage => String::from_str(
            "messages",
        ),
    }
}

/// Builds what the broker receives for the decoded frame `msg`, whose raw
/// text was `text`, received on the socket `handle`: the raw text, unchanged,
/// tagged with the topic of the frame's kind; for a frame that announces a
/// user, also the socket, to be registered under the user's name.
pub fn route_socket_message<H>(msg: &SockMsg, text: String, handle: H) -> (out: InterMsg<H>)
    requires
        forwardable(*msg),
    ensures
        routed(*msg, text, handle, out),
        out.message == Some(text),
        out.channel is Some && out.channel.unwrap()@ == topic(msg._type),
{
    let channel = topic_name(msg._type);
    match msg._type {
        MsgType::UserConnection => {
            let username = match &msg.user {
                Some(user) => user.username.clone(),
                None => String::new(),
            };
            InterMsg {
                _type: InterMsgType::Client,
                channel: Some(channel),
                message: Some(text),
                client: Some(Client { username, handle }),
            }
        },
        _ => InterMsg {
            _type: InterMsgType::Message,
            channel: Some(channel),
            message: Some(text),
            client: None,
        },
    }
}

} // verus!
