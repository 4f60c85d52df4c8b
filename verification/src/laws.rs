//! What the library's operations are for, stated on their inputs and
//! results: each law pins the meaning of a predicate that the operations'
//! contracts use, so that any change to what an operation answers shows up
//! here as a broken law.

use crate::broker::{
    answers, everyone, handled, has_user, index_of, notifiable, payload_of, plannable, planned,
    recipients_of, registered, relay_step, relayable, Answer, Client, InterMsg, InterMsgType,
    Payload, Query, Relay,
};
use crate::channel::{Channel, PartialChannel};
use crate::message::{Message, PartialMessage};
use crate::socket::{forwardable, routed, topic, MsgType, SockMsg};
use crate::User;
use vstd::prelude::*;

verus! {

// ---------------------------------------------------------------------------
// Socket frames

/// Every frame that does not announce a user is forwarded, whatever its
/// payload holds; a user announcement is forwarded exactly when it names a
/// user.
pub proof fn law_frames_are_forwarded(msg: SockMsg)
    ensures
        !(msg._type is UserConnection) ==> forwardable(msg),
        msg._type is UserConnection ==> (forwardable(msg) <==> msg.user is Some),
{
}

/// User and channel events share one topic, message events another, and
/// the two topics differ.
pub proof fn law_topics(t: MsgType)
    ensures
        topic(t) == topic(MsgType::NewChannel) || topic(t) == topic(MsgType::NewMessage),
        topic(t) == topic(MsgType::NewMessage) <==> (t is NewMessage || t is UpdateMessage
            || t is DeleteMessage),
        topic(MsgType::UserConnection) == "channels"@,
        topic(MsgType::NewMessage) == "messages"@,
{
    reveal_strlit("channels");
    reveal_strlit("messages");
    assert("channels"@[0] != "messages"@[0]);
}

/// What the broker receives for a frame carries the frame's raw text
/// unchanged, on the frame's topic; only a user announcement carries a
/// client, namely the sending socket under the announced name.
pub proof fn law_routing_keeps_the_text<H>(msg: SockMsg, text: String, handle: H, out: InterMsg<H>)
    requires
        routed(msg, text, handle, out),
    ensures
        out.message == Some(text),
        out.channel is Some,
        out.channel.unwrap()@ == topic(msg._type),
        msg._type is UserConnection ==> out._type == InterMsgType::Client && out.client == Some(
            Client { username: msg.user.unwrap().username, handle },
        ),
        !(msg._type is UserConnection) ==> out._type == InterMsgType::Message && out.client
            is None,
{
}

// ---------------------------------------------------------------------------
// The roster

/// Registering keeps every client already on the roster where it was, puts
/// the name on the roster, and adds at most the new client at the end.
pub proof fn law_registration<H>(cs: Seq<Client<H>>, client: Client<H>)
    ensures
        has_user(cs, client.username@) ==> registered(cs, client) == cs,
        !has_user(cs, client.username@) ==> registered(cs, client) == cs.push(client),
        forall|i: int| 0 <= i < cs.len() ==> #[trigger] registered(cs, client)[i] == cs[i],
        has_user(registered(cs, client), client.username@),
        cs.len() <= registered(cs, client).len() <= cs.len() + 1,
{
    let after = registered(cs, client);
    if !has_user(cs, client.username@) {
        assert(after[cs.len() as int].username@ == client.username@);
    }
}

/// The position the broker gives for a name on the roster holds a client of
/// that name.
pub proof fn law_index_of<H>(cs: Seq<Client<H>>, name: Seq<char>)
    requires
        has_user(cs, name),
    ensures
        0 <= index_of(cs, name) < cs.len(),
        cs[index_of(cs, name)].username@ == name,
{
}

// ---------------------------------------------------------------------------
// Events from the sockets

/// The broker acts on a `Client` event exactly when it carries a client, and
/// on a `Message` event exactly when it carries both a topic and a payload.
pub proof fn law_relayable<H>(msg: InterMsg<H>)
    ensures
        msg._type == InterMsgType::Client ==> (relayable(msg) <==> msg.client is Some),
        msg._type == InterMsgType::Message ==> (relayable(msg) <==> msg.channel is Some
            && msg.message is Some),
{
}

/// A `Message` event is published on its own topic with its own payload and
/// leaves the roster alone; a `Client` event registers its client and comes
/// back once, as a `Message` event with the same topic and payload.
pub proof fn law_relay<H>(cs: Seq<Client<H>>, msg: InterMsg<H>)
    requires
        relayable(msg),
    ensures
        msg._type == InterMsgType::Message ==> relay_step(cs, msg) == (
            cs,
            Relay::<H>::Publish { channel: msg.channel.unwrap(), message: msg.message.unwrap() },
        ),
        msg._type == InterMsgType::Client ==> relay_step(cs, msg) == (
            registered(cs, msg.client.unwrap()),
            Relay::Resend(
                InterMsg::<H> {
                    _type: InterMsgType::Message,
                    channel: msg.channel,
                    message: msg.message,
                    client: None,
                },
            ),
        ),
{
}

// ---------------------------------------------------------------------------
// Events from the pub/sub topics

/// The broker acts on every event of the four handled kinds that carries
/// what its query needs and, for a user connection, names its user,
/// whatever the roster holds; it acts on a user connection that names no
/// user exactly while no client is connected; and it never acts on the
/// other four kinds.
pub proof fn law_handled_events<H>(cs: Seq<Client<H>>, msg: SockMsg)
    ensures
        msg._type is UserConnection && msg.user is Some ==> handled(cs, msg),
        msg._type is UserConnection && msg.user is None ==> (handled(cs, msg) <==> cs.len()
            == 0),
        msg._type is NewChannel ==> (handled(cs, msg) <==> msg.channel is Some),
        msg._type is RetrieveChannelMessages ==> (handled(cs, msg) <==> (msg.channel is Some
            && msg.channel.unwrap().id is Some)),
        msg._type is NewMessage ==> (handled(cs, msg) <==> msg.message is Some),
        (msg._type is RetrieveChannels || msg._type is UpdateChannel || msg._type is UpdateMessage
            || msg._type is DeleteMessage) ==> !handled(cs, msg) && !plannable(msg),
        handled(cs, msg) ==> plannable(msg),
{
}

/// A user connection asks for the channel list on behalf of the user it
/// names.
pub proof fn law_user_connection_query(msg: SockMsg, user: User)
    requires
        msg._type is UserConnection,
        msg.user == Some(user),
    ensures
        planned(msg) == (Query::ListChannels { requester: Some(user.username) }),
{
}

/// A user connection that names no user asks for the channel list on
/// behalf of nobody.
pub proof fn law_anonymous_connection_query(msg: SockMsg)
    requires
        msg._type is UserConnection,
        msg.user is None,
    ensures
        planned(msg) == (Query::ListChannels { requester: None }),
{
}

/// A new channel event asks to create exactly the channel it carries.
pub proof fn law_new_channel_query(msg: SockMsg, channel: PartialChannel)
    requires
        msg._type is NewChannel,
        msg.channel == Some(channel),
    ensures
        planned(msg) == (Query::CreateChannel { channel }),
{
}

/// A request for a channel's messages asks for the messages of that
/// channel's full identifier, and keeps the channel as it came.
pub proof fn law_channel_messages_query(msg: SockMsg, channel: PartialChannel, id: u128)
    requires
        msg._type is RetrieveChannelMessages,
        msg.channel == Some(channel),
        channel.id == Some(id),
    ensures
        planned(msg) == (Query::ListChannelMessages { channel, channel_id: id }),
{
}

/// A new message event asks to store exactly the message it carries.
pub proof fn law_new_message_query(msg: SockMsg, message: PartialMessage)
    requires
        msg._type is NewMessage,
        msg.message == Some(message),
    ensures
        planned(msg) == (Query::CreateMessage { message }),
{
}

/// Each query is answered by the store's answer of its own kind, and a
/// channel list asked for by a named user can always be told.
pub proof fn law_answers<H>(cs: Seq<Client<H>>, query: Query, answer: Answer)
    ensures
        query is ListChannels ==> (answers(query, answer) <==> answer is Channels),
        query is CreateChannel ==> (answers(query, answer) <==> answer is Channel),
        query is ListChannelMessages ==> (answers(query, answer) <==> answer is Messages),
        query is CreateMessage ==> (answers(query, answer) <==> answer is Message),
        notifiable(cs, query, answer) ==> answers(query, answer),
        (answers(query, answer) && !(query matches Query::ListChannels { requester: None }))
            ==> notifiable(cs, query, answer),
{
}

// ---------------------------------------------------------------------------
// Who is told

/// The positions `0, ..., n - 1`, each once, in order.
pub proof fn law_everyone(n: nat)
    ensures
        everyone(n).len() == n,
        forall|k: int| 0 <= k < n ==> #[trigger] everyone(n)[k] == k as usize,
{
}

/// News of anything but a channel list goes to every client on the roster,
/// each once, in roster order.
pub proof fn law_broadcasts_reach_everyone<H>(cs: Seq<Client<H>>, query: Query)
    requires
        !(query is ListChannels),
    ensures
        recipients_of(cs, query).len() == cs.len(),
        forall|k: int| 0 <= k < cs.len() ==> #[trigger] recipients_of(cs, query)[k] == k as usize,
{
}

/// A channel list goes to the client of the named user and to no one else
/// when that user is connected here, and to nobody otherwise (for any
/// roster that a `Vec` can hold).
pub proof fn law_channel_list_reaches_the_requester<H>(cs: Seq<Client<H>>, name: String)
    requires
        cs.len() <= usize::MAX,
    ensures
        has_user(cs, name@) ==> recipients_of(cs, Query::ListChannels { requester: Some(name) }).len()
            == 1 && cs[recipients_of(cs, Query::ListChannels { requester: Some(name) })[0] as int].username@
            == name@,
        !has_user(cs, name@) ==> recipients_of(
            cs,
            Query::ListChannels { requester: Some(name) },
        ).len() == 0,
        recipients_of(cs, Query::ListChannels { requester: None }).len() == 0,
{
    if has_user(cs, name@) {
        let i = index_of(cs, name@);
        assert(0 <= i < cs.len() && cs[i].username@ == name@);
    }
}

// ---------------------------------------------------------------------------
// What they are told

/// The channel list sent is every channel the store returned, in the order
/// it returned them.
pub proof fn law_channel_list_is_whole(query: Query, channels: Vec<Channel>, payload: Payload)
    requires
        query is ListChannels,
        payload_of(query, Answer::Channels(channels), payload),
    ensures
        payload == (Payload::ChannelList { channels }),
        payload->ChannelList_channels@ == channels@,
        payload->ChannelList_channels@.len() == channels@.len(),
{
}

/// A created channel is announced as the store returned it, with the line
/// `<name> channel has been created`.
pub proof fn law_created_channel_notice(query: Query, created: Channel, payload: Payload)
    requires
        query is CreateChannel,
        payload_of(query, Answer::Channel(created), payload),
    ensures
        payload is ChannelCreated,
        payload->ChannelCreated_channel == created,
        payload->ChannelCreated_msg@ == created.name@ + " channel has been created"@,
{
}

/// A channel's messages are sent whole, in the order the store returned
/// them, with the channel as it was asked for and the line `<name> channel
/// messages have been retrieved`.
pub proof fn law_channel_messages_are_whole(
    channel: PartialChannel,
    channel_id: u128,
    messages: Vec<Message>,
    payload: Payload,
)
    requires
        payload_of(
            Query::ListChannelMessages { channel, channel_id },
            Answer::Messages(messages),
            payload,
        ),
    ensures
        payload is ChannelMessages,
        payload->ChannelMessages_messages == messages,
        payload->ChannelMessages_messages@ == messages@,
        payload->ChannelMessages_messages@.len() == messages@.len(),
        payload->ChannelMessages_channel == channel,
        payload->ChannelMessages_msg@ == channel.name@ + " channel messages have been retrieved"@,
{
}

/// A stored message is announced as the store returned it, under the
/// channel the client sent it to, with the line `New message recieved`.
pub proof fn law_new_message_notice(sent: PartialMessage, stored: Message, payload: Payload)
    requires
        payload_of(Query::CreateMessage { message: sent }, Answer::Message(stored), payload),
    ensures
        payload is NewMessage,
        payload->NewMessage_message == stored,
        payload->NewMessage_channel_id == sent.channel_id,
        payload->NewMessage_msg@ == "New message recieved"@,
{
}

} // verus!
