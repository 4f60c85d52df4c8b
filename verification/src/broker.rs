//! The broker between the sockets of one server and the shared pub/sub
//! topics.
//!
//! The broker keeps a roster of the clients connected to this server, at most
//! one per user name. It receives two streams of events: what the server's
//! own socket handlers hand it (`InterMsg`), and what arrives on the pub/sub
//! topics from every server (`SockMsg`). For the first it decides what to
//! publish; for the second it decides which store query to run and, once the
//! store has answered, whom to tell what.
//!
//! The socket handle of a client is carried through as an opaque `H`.

use crate::channel::{Channel, PartialChannel};
use crate::message::{Message, PartialMessage};
use crate::socket::{routed, topic, MsgType, SockMsg};
use vstd::prelude::*;
use vstd::string::*;

verus! {

/// The two kinds of event a socket handler hands the broker.
#[derive(Debug, Clone, Copy, PartialEq, Eq)]
pub enum InterMsgType {
    Message,
    Client,
}

/// An event from a socket handler: a payload to publish on a topic and, for
/// a `Client` event, the client to register.
#[derive(Debug, Clone, PartialEq, Eq)]
pub struct InterMsg<H> {
    pub _type: InterMsgType,
    pub channel: Option<String>,
    pub message: Option<String>,
    pub client: Option<Client<H>>,
}

/// A connected client: the user's name and the socket to reach it on.
#[derive(Debug, Clone, PartialEq, Eq)]
pub struct Client<H> {
    pub username: String,
    pub handle: H,
}

/// What the broker does with an event from a socket handler.
#[derive(Debug, Clone, PartialEq, Eq)]
pub enum Relay<H> {
    /// Feed this event back to the broker.
    Resend(InterMsg<H>),
    /// Publish `message` on the topic `channel`.
    Publish { channel: String, message: String },
}

/// No two clients in `cs` carry the same user name.
pub open spec fn distinct_usernames<H>(cs: Seq<Client<H>>) -> bool {
    forall|i: int, j: int|
        0 <= i < j < cs.len() ==> #[trigger] cs[i].username@ != #[trigger] cs[j].username@
}

/// Some client in `cs` carries the user name `name`.
pub open spec fn has_user<H>(cs: Seq<Client<H>>, name: Seq<char>) -> bool {
    exists|i: int| 0 <= i < cs.len() && #[trigger] cs[i].username@ == name
}

/// The position of a client named `name` in `cs` (meaningful when
/// `has_user(cs, name)`).
pub open spec fn index_of<H>(cs: Seq<Client<H>>, name: Seq<char>) -> int {
    choose|i: int| 0 <= i < cs.len() && #[trigger] cs[i].username@ == name
}

/// The roster after `client` connects: unchanged if its user name is already
/// on it, else with `client` appended.
pub open spec fn registered<H>(cs: Seq<Client<H>>, client: Client<H>) -> Seq<Client<H>> {
    if has_user(cs, client.username@) {
        cs
    } else {
        cs.push(client)
    }
}

/// The broker can act on `msg`: a `Client` event carries a client, and a
/// `Message` event carries both a topic and a payload.
pub open spec fn relayable<H>(msg: InterMsg<H>) -> bool {
    match msg._type {
        InterMsgType::Client => msg.client is Some,
        InterMsgType::Message => msg.channel is Some && msg.message is Some,
    }
}

/// The roster and the action after the broker handles `msg` with roster `cs`:
/// a `Client` event registers its client and comes back as a `Message` event
/// with the same topic and payload; a `Message` event is published as is.
pub open spec fn relay_step<H>(cs: Seq<Client<H>>, msg: InterMsg<H>) -> (Seq<Client<H>>, Relay<H>) {
    match msg._type {
        InterMsgType::Client => (
            registered(cs, msg.client.unwrap()),
            Relay::Resend(
                InterMsg {
                    _type: InterMsgType::Message,
                    channel: msg.channel,
                    message: msg.message,
                    client: None,
                },
            ),
        ),
        InterMsgType::Message => (
            cs,
            Relay::Publish { channel: msg.channel.unwrap(), message: msg.message.unwrap() },
        ),
    }
}

/// The store query that a pub/sub event asks for.
#[derive(Debug, Clone, PartialEq, Eq)]
pub enum Query {
    /// All channels, to be sent to the client of `requester` only (to
    /// nobody when the event named no user).
    ListChannels { requester: Option<String> },
    /// Create `channel`, then tell every client.
    CreateChannel { channel: PartialChannel },
    /// The messages of the channel `channel_id` (the id of `channel`), then
    /// tell every client.
    ListChannelMessages { channel: PartialChannel, channel_id: u128 },
    /// Store `message`, then tell every client.
    CreateMessage { message: PartialMessage },
}

/// What the store answered to a `Query`.
#[derive(Debug, Clone, PartialEq, Eq)]
pub enum Answer {
    Channels(Vec<Channel>),
    Channel(Channel),
    Messages(Vec<Message>),
    Message(Message),
}

/// What the clients are sent after a query: one variant per kind of query.
#[derive(Debug, Clone, PartialEq, Eq)]
pub enum Payload {
    /// The list of all channels.
    ChannelList { channels: Vec<Channel> },
    /// A channel was created.
    ChannelCreated { msg: String, channel: Channel },
    /// The messages of a channel.
    ChannelMessages { msg: String, channel: PartialChannel, messages: Vec<Message> },
    /// A message was stored in the channel `channel`.
    NewMessage { msg: String, channel_id: u128, message: Message },
}

/// A payload and the positions, in the broker's roster, of the clients to
/// send it to.
#[derive(Debug, Clone, PartialEq, Eq)]
pub struct Notification {
    pub recipients: Vec<usize>,
    pub payload: Payload,
}

/// The pub/sub event `msg` is of one of the four kinds the broker acts on,
/// and carries what its query needs (a user connection needs nothing: the
/// user is only looked for once the channel list is in).
pub open spec fn plannable(msg: SockMsg) -> bool {
    match msg._type {
        MsgType::UserConnection => true,
        MsgType::NewChannel => msg.channel is Some,
        MsgType::RetrieveChannelMessages => msg.channel is Some && msg.channel.unwrap().id is Some,
        MsgType::NewMessage => msg.message is Some,
        _ => false,
    }
}

/// The broker with roster `cs` acts on the pub/sub event `msg`: a plannable
/// event, where a user connection that names no user is acted on only while
/// no client is connected (then there is nobody to look the user up among).
pub open spec fn handled<H>(cs: Seq<Client<H>>, msg: SockMsg) -> bool {
    &&& plannable(msg)
    &&& (msg._type is UserConnection && msg.user is None) ==> cs.len() == 0
}

/// The user name a pub/sub event names, if any.
pub open spec fn requester_of(msg: SockMsg) -> Option<String> {
    match msg.user {
        Some(u) => Some(u.username),
        None => None,
    }
}

/// The query that the handled event `msg` asks for.
pub open spec fn planned(msg: SockMsg) -> Query {
    match msg._type {
        MsgType::UserConnection => Query::ListChannels { requester: requester_of(msg) },
        MsgType::NewChannel => Query::CreateChannel { channel: msg.channel.unwrap() },
        MsgType::RetrieveChannelMessages => Query::ListChannelMessages {
            channel: msg.channel.unwrap(),
            channel_id: msg.channel.unwrap().id.unwrap(),
        },
        _ => Query::CreateMessage { message: msg.message.unwrap() },
    }
}

/// The broker with roster `cs` can tell its clients about `answer` to
/// `query`: the answer is of the kind asked for, and a channel list asked
/// for without a user name comes while no client is connected.
pub open spec fn notifiable<H>(cs: Seq<Client<H>>, query: Query, answer: Answer) -> bool {
    &&& answers(query, answer)
    &&& query matches Query::ListChannels { requester: None } ==> cs.len() == 0
}

/// `answer` is of the kind that `query` asks the store for.
pub open spec fn answers(query: Query, answer: Answer) -> bool {
    match query {
        Query::ListChannels { .. } => answer is Channels,
        Query::CreateChannel { .. } => answer is Channel,
        Query::ListChannelMessages { .. } => answer is Messages,
        Query::CreateMessage { .. } => answer is Message,
    }
}

/// The positions `0, 1, ..., n - 1`.
pub open spec fn everyone(n: nat) -> Seq<usize> {
    Seq::new(n, |i: int| i as usize)
}

/// Whom the broker with roster `cs` tells about the answer to `query`: for a
/// channel list, the client of the requesting user if it is connected here,
/// else nobody; for anything else, every client.
pub open spec fn recipients_of<H>(cs: Seq<Client<H>>, query: Query) -> Seq<usize> {
    match query {
        Query::ListChannels { requester } => match requester {
            Some(name) => if has_user(cs, name@) {
                seq![index_of(cs, name@) as usize]
            } else {
                Seq::empty()
            },
            None => Seq::empty(),
        },
        _ => everyone(cs.len()),
    }
}

/// The broker only ever addresses clients on its roster, and never one
/// twice (for any roster that a `Vec` can hold).
pub proof fn lemma_recipients_are_on_the_roster<H>(cs: Seq<Client<H>>, query: Query)
    requires
        cs.len() <= usize::MAX,
    ensures
        forall|k: int|
            0 <= k < recipients_of(cs, query).len() ==> #[trigger] recipients_of(cs, query)[k]
                < cs.len(),
        forall|k: int, l: int|
            0 <= k < l < recipients_of(cs, query).len() ==> #[trigger] recipients_of(cs, query)[k]
                != #[trigger] recipients_of(cs, query)[l],
{
    assert forall|k: int, l: int|
        0 <= k < l < recipients_of(cs, query).len() implies #[trigger] recipients_of(cs, query)[k]
        != #[trigger] recipients_of(cs, query)[l] by {
        if !(query is ListChannels) {
            assert(recipients_of(cs, query)[k] == k as usize);
            assert(recipients_of(cs, query)[l] == l as usize);
        }
    }
}

/// `payload` is what the clients are sent when `answer` answers `query`.
pub open spec fn payload_of(query: Query, answer: Answer, payload: Payload) -> bool {
    match query {
        Query::ListChannels { .. } => payload == Payload::ChannelList {
            channels: answer->Channels_0,
        },
        Query::CreateChannel { .. } => payload matches Payload::ChannelCreated { msg, channel }
            && channel == answer->Channel_0 && msg@ == channel.name@
            + " channel has been created"@,
        Query::ListChannelMessages { channel: asked, .. } => payload matches Payload::ChannelMessages {
            msg,
            channel,
            messages,
        } && channel == asked && messages == answer->Messages_0 && msg@ == asked.name@
            + " channel messages have been retrieved"@,
        Query::CreateMessage { message: sent } => payload matches Payload::NewMessage {
            msg,
            channel_id,
            message,
        } && channel_id == sent.channel_id && message == answer->Message_0 && msg@
            == "New message recieved"@,
    }
}

/// Tells whether `Intermediary::handle_internal` accepts `msg`.
pub fn is_relayable<H>(msg: &InterMsg<H>) -> (b: bool)
    ensures
        b == relayable(*msg),
{
    match msg._type {
        InterMsgType::Client => msg.client.is_some(),
        InterMsgType::Message => msg.channel.is_some() && msg.message.is_some(),
    }
}

/// Tells whether `plan_query` accepts `msg`.
pub fn is_plannable(msg: &SockMsg) -> (b: bool)
    ensures
        b == plannable(*msg),
{
    match msg._type {
        MsgType::UserConnection => true,
        MsgType::NewChannel => msg.channel.is_some(),
        MsgType::RetrieveChannelMessages => match &msg.channel {
            Some(c) => c.id.is_some(),
            None => false,
        },
        MsgType::NewMessage => msg.message.is_some(),
        _ => false,
    }
}

/// The store query that the pub/sub event `msg` asks for: the channel list
/// for a user that connected, the creation of a new channel, the messages of
/// a channel, or the storing of a new message.
pub fn plan_query(msg: SockMsg) -> (query: Query)
    requires
        plannable(msg),
    ensures
        query == planned(msg),
        msg._type is UserConnection && msg.user is Some ==> query == (Query::ListChannels {
            requester: Some(msg.user.unwrap().username),
        }),
        msg._type is UserConnection && msg.user is None ==> query == (Query::ListChannels {
            requester: None,
        }),
        msg._type is NewChannel ==> query == (Query::CreateChannel {
            channel: msg.channel.unwrap(),
        }),
        msg._type is RetrieveChannelMessages ==> query == (Query::ListChannelMessages {
            channel: msg.channel.unwrap(),
            channel_id: msg.channel.unwrap().id.unwrap(),
        }),
        msg._type is NewMessage ==> query == (Query::CreateMessage {
            message: msg.message.unwrap(),
        }),
{
    let SockMsg { _type, message, channel, user } = msg;
    match _type {
        MsgType::UserConnection => Query::ListChannels {
            requester: match user {
                Some(u) => Some(u.username),
                None => None,
            },
        },
        MsgType::NewChannel => match channel {
            Some(c) => Query::CreateChannel { channel: c },
            None => Query::ListChannels { requester: None },
        },
        MsgType::RetrieveChannelMessages => match channel {
            Some(c) => {
                let channel_id = match c.id {
                    Some(id) => id,
                    None => 0,
                };
                Query::ListChannelMessages { channel: c, channel_id }
            },
            None => Query::ListChannels { requester: None },
        },
        _ => match message {
            Some(m) => Query::CreateMessage { message: m },
            None => Query::ListChannels { requester: None },
        },
    }
}

/// A client that connects again under a name already on the roster changes
/// nothing: the first registration stands.
pub proof fn lemma_reconnect_keeps_roster<H>(cs: Seq<Client<H>>, first: Client<H>, again: Client<H>)
    requires
        again.username@ == first.username@,
    ensures
        registered(registered(cs, first), again) == registered(cs, first),
{
    let once = registered(cs, first);
    if !has_user(cs, first.username@) {
        assert(once[cs.len() as int].username@ == again.username@);
    }
    assert(has_user(once, again.username@));
}

/// Registering a client never puts two clients of one user name on the
/// roster.
pub proof fn lemma_register_keeps_names_distinct<H>(cs: Seq<Client<H>>, client: Client<H>)
    requires
        distinct_usernames(cs),
    ensures
        distinct_usernames(registered(cs, client)),
{
    if !has_user(cs, client.username@) {
        let after = cs.push(client);
        assert forall|i: int, j: int| 0 <= i < j < after.len() implies #[trigger] after[i].username@
            != #[trigger] after[j].username@ by {
            if j == cs.len() {
                assert(after[i] == cs[i]);
            } else {
                assert(after[i] == cs[i] && after[j] == cs[j]);
            }
        }
    }
}

/// Whatever text a client sends over its socket is published, unchanged, on
/// the topic of its kind: at once for every kind but a user announcement;
/// a user announcement first registers the sending socket under the user's
/// name and comes back to the broker once, then is published the same way.
pub proof fn lemma_socket_text_is_published<H>(
    cs: Seq<Client<H>>,
    msg: SockMsg,
    text: String,
    handle: H,
    event: InterMsg<H>,
)
    requires
        routed(msg, text, handle, event),
    ensures
        relayable(event),
        !(msg._type is UserConnection) ==> ({
            let (after, relay) = relay_step(cs, event);
            &&& after == cs
            &&& relay matches Relay::Publish { channel, message } && channel@ == topic(msg._type)
                && message == text
        }),
        msg._type is UserConnection ==> ({
            let (after, relay) = relay_step(cs, event);
            &&& after == registered(cs, Client { username: msg.user.unwrap().username, handle })
            &&& relay matches Relay::Resend(back) && relayable(back) && ({
                let (after_back, relay_back) = relay_step(after, back);
                &&& after_back == after
                &&& relay_back matches Relay::Publish { channel, message } && channel@ == topic(
                    msg._type,
                ) && message == text
            })
        }),
{
}

/// The broker's state: the clients connected to this server.
pub struct Intermediary<H> {
    clients: Vec<Client<H>>,
}

impl<H> View for Intermediary<H> {
    type V = Seq<Client<H>>;

    closed spec fn view(&self) -> Seq<Client<H>> {
        self.clients@
    }
}

impl<H> Intermediary<H> {
    #[verifier::type_invariant]
    spec fn roster_is_unique(self) -> bool {
        distinct_usernames(self.clients@)
    }

    /// A broker with no client connected.
    pub fn new() -> (inter: Self)
        ensures
            inter@ == Seq::<Client<H>>::empty(),
    {
        Intermediary { clients: Vec::new() }
    }

    /// The connected clients, in the order they registered.
    pub fn clients(&self) -> (cs: &Vec<Client<H>>)
        ensures
            cs@ == self@,
            distinct_usernames(self@),
    {
        proof {
            use_type_invariant(self);
        }
        &self.clients
    }

    /// The position of the client registered under `username`, if any.
    pub fn find_client(&self, username: &String) -> (found: Option<usize>)
        ensures
            distinct_usernames(self@),
            match found {
                Some(i) => i < self@.len() && self@[i as int].username@ == username@ && i
                    == index_of(self@, username@),
                None => !has_user(self@, username@),
            },
    {
        proof {
            use_type_invariant(self);
        }
        let mut i: usize = 0;
        while i < self.clients.len()
            invariant
                i <= self.clients@.len(),
                distinct_usernames(self.clients@),
                forall|j: int| 0 <= j < i ==> #[trigger] self.clients@[j].username@ != username@,
            decreases self.clients@.len() - i,
        {
            if self.clients[i].username == *username {
                proof {
                    let k = index_of(self.clients@, username@);
                    assert(self.clients@[i as int].username@ == username@);
                    if k != i {
                        if k < i {
                            assert(self.clients@[k].username@ != self.clients@[i as int].username@);
                        } else {
                            assert(self.clients@[i as int].username@ != self.clients@[k].username@);
                        }
                    }
                }
                return Some(i);
            }
            i = i + 1;
        }
        None
    }

    /// Registers `client` unless a client of the same user name is already
    /// registered, in which case the roster, and the socket kept for that
    /// user, stay as they were. Returns whether `client` was added.
    pub fn register_client(&mut self, client: Client<H>) -> (added: bool)
        ensures
            added == !has_user(old(self)@, client.username@),
            final(self)@ == registered(old(self)@, client),
            distinct_usernames(final(self)@),
    {
        match self.find_client(&client.username) {
            Some(_) => false,
            None => {
                let mut clients = Vec::new();
                std::mem::swap(&mut clients, &mut self.clients);
                clients.push(client);
                proof {
                    assert forall|i: int, j: int|
                        0 <= i < j < clients@.len() implies #[trigger] clients@[i].username@
                        != #[trigger] clients@[j].username@ by {
                        if j == clients@.len() - 1 {
                            assert(old(self)@[i] == clients@[i]);
                        }
                    }
                }
                self.clients = clients;
                true
            },
        }
    }

    /// Handles an event from a socket handler: a `Client` event registers
    /// its client and is fed back as a `Message` event with the same topic
    /// and payload; a `Message` event is published on its topic.
    pub fn handle_internal(&mut self, msg: InterMsg<H>) -> (relay: Relay<H>)
        requires
            relayable(msg),
        ensures
            (final(self)@, relay) == relay_step(old(self)@, msg),
            msg._type == InterMsgType::Message ==> final(self)@ == old(self)@ && relay == (
            Relay::<H>::Publish { channel: msg.channel.unwrap(), message: msg.message.unwrap() }),
            msg._type == InterMsgType::Client ==> final(self)@ == registered(
                old(self)@,
                msg.client.unwrap(),
            ),
            distinct_usernames(final(self)@),
    {
        proof {
            use_type_invariant(&*self);
        }
        let InterMsg { _type, channel, message, client } = msg;
        match _type {
            InterMsgType::Client => {
                match client {
                    Some(c) => {
                        self.register_client(c);
                    },
                    None => {},
                }
                Relay::Resend(
                    InterMsg { _type: InterMsgType::Message, channel, message, client: None },
                )
            },
            InterMsgType::Message => match (channel, message) {
                (Some(channel), Some(message)) => Relay::Publish { channel, message },
                (channel, message) => Relay::Resend(
                    InterMsg { _type: InterMsgType::Message, channel, message, client: None },
                ),
            },
        }
    }

    /// Tells whether the broker acts on the pub/sub event `msg` now.
    pub fn is_handled(&self, msg: &SockMsg) -> (b: bool)
        ensures
            b == handled(self@, *msg),
            msg._type is UserConnection && msg.user is Some ==> b,
            msg._type is UserConnection && msg.user is None ==> (b <==> self@.len() == 0),
            msg._type is NewChannel ==> (b <==> msg.channel is Some),
            msg._type is RetrieveChannelMessages ==> (b <==> (msg.channel is Some
                && msg.channel.unwrap().id is Some)),
            msg._type is NewMessage ==> (b <==> msg.message is Some),
    {
        is_plannable(msg) && match msg._type {
            MsgType::UserConnection => msg.user.is_some() || self.clients.len() == 0,
            _ => true,
        }
    }

    /// The positions of all registered clients, in order.
    fn all_positions(&self) -> (ps: Vec<usize>)
        ensures
            ps@ == everyone(self@.len()),
    {
        let n = self.clients.len();
        let mut ps: Vec<usize> = Vec::new();
        let mut i: usize = 0;
        while i < n
            invariant
                n == self.clients@.len(),
                i <= n,
                ps@ == everyone(i as nat),
            decreases n - i,
        {
            ps.push(i);
            proof {
                assert(ps@ =~= everyone((i + 1) as nat));
            }
            i = i + 1;
        }
        ps
    }

    /// What to send, and to whom, once the store has answered `query` with
    /// `answer`: the channel list goes to the requesting user's client alone
    /// (to nobody if that user is not connected here); news of a created
    /// channel, of a channel's messages and of a stored message goes to every
    /// client, with a line of text naming the channel or the event.
    pub fn notify(&self, query: Query, answer: Answer) -> (n: Notification)
        requires
            notifiable(self@, query, answer),
        ensures
            n.recipients@ == recipients_of(self@, query),
            payload_of(query, answer, n.payload),
            !(query is ListChannels) ==> n.recipients@.len() == self@.len() && forall|k: int|
                0 <= k < self@.len() ==> #[trigger] n.recipients@[k] == k as usize,
            query is ListChannels ==> n.payload == (Payload::ChannelList {
                channels: answer->Channels_0,
            }),
            query is CreateChannel ==> n.payload is ChannelCreated
                && n.payload->ChannelCreated_channel == answer->Channel_0
                && n.payload->ChannelCreated_msg@ == answer->Channel_0.name@
                + " channel has been created"@,
            query is ListChannelMessages ==> n.payload is ChannelMessages
                && n.payload->ChannelMessages_messages == answer->Messages_0
                && n.payload->ChannelMessages_channel == query->ListChannelMessages_channel
                && n.payload->ChannelMessages_msg@ == query->ListChannelMessages_channel.name@
                + " channel messages have been retrieved"@,
            query is CreateMessage ==> n.payload is NewMessage && n.payload->NewMessage_message
                == answer->Message_0 && n.payload->NewMessage_channel_id
                == query->CreateMessage_message.channel_id && n.payload->NewMessage_msg@
                == "New message recieved"@,
    {
        match query {
            Query::ListChannels { requester } => {
                let recipients = match requester {
                    Some(name) => match self.find_client(&name) {
                        Some(i) => {
                            let mut v: Vec<usize> = Vec::new();
                            v.push(i);
                            proof {
                                assert(v@ =~= seq![i]);
                            }
                            v
                        },
                        None => Vec::new(),
                    },
                    None => Vec::new(),
                };
                let channels = match answer {
                    Answer::Channels(cs) => cs,
                    _ => Vec::new(),
                };
                Notification { recipients, payload: Payload::ChannelList { channels } }
            },
            Query::CreateChannel { .. } => {
                let recipients = self.all_positions();
                let payload = match answer {
                    Answer::Channel(channel) => {
                        let mut msg = channel.name.clone();
                        msg.append(" channel has been created");
                        Payload::ChannelCreated { msg, channel }
                    },
                    _ => Payload::ChannelList { channels: Vec::new() },
                };
                Notification { recipients, payload }
            },
            Query::ListChannelMessages { channel, .. } => {
                let recipients = self.all_positions();
                let payload = match answer {
                    Answer::Messages(messages) => {
                        let mut msg = channel.name.clone();
                        msg.append(" channel messages have been retrieved");
                        Payload::ChannelMessages { msg, channel, messages }
                    },
                    _ => Payload::ChannelList { channels: Vec::new() },
                };
                Notification { recipients, payload }
            },
            Query::CreateMessage { message: sent } => {
                let recipients = self.all_positions();
                let payload = match answer {
                    Answer::Message(message) => Payload::NewMessage {
                        msg: String::from_str("New message recieved"),
                        channel_id: sent.channel_id,
                        message,
                    },
                    _ => Payload::ChannelList { channels: Vec::new() },
                };
                Notification { recipients, payload }
            },
        }
    }
}

} // verus!
