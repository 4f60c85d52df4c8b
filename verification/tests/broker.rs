use api::broker::{
    is_plannable, is_relayable, plan_query, Answer, Client, InterMsg, InterMsgType, Intermediary,
    Payload, Query, Relay,
};
use api::channel::{Channel, PartialChannel};
use api::message::{Message, PartialMessage};
use api::socket::{route_socket_message, MsgType, SockMsg};
use api::{Timestamp, User};

fn at(secs: i64) -> Timestamp {
    Timestamp { secs, nanos: 123_456_789 }
}

fn client(name: &str, handle: u32) -> Client<u32> {
    Client { username: name.to_string(), handle }
}

fn names(inter: &Intermediary<u32>) -> Vec<String> {
    inter.clients().iter().map(|c| c.username.clone()).collect()
}

fn partial_channel(name: &str, id: Option<u128>) -> PartialChannel {
    PartialChannel { id, idx: None, name: name.to_string(), created_at: None, updated_at: None }
}

fn stored_channel(name: &str) -> Channel {
    Channel { id: 11, idx: 1, name: name.to_string(), created_at: at(100), updated_at: at(100) }
}

fn partial_message(channel_id: u128) -> PartialMessage {
    PartialMessage {
        id: None,
        idx: None,
        username: "ann".to_string(),
        content: "hello".to_string(),
        channel_id,
        created_at: None,
        updated_at: None,
    }
}

fn stored_message(channel_id: u128) -> Message {
    Message {
        id: 5,
        idx: 2,
        username: "ann".to_string(),
        content: "hello".to_string(),
        channel_id,
        created_at: at(200),
        updated_at: at(200),
    }
}

#[test]
fn a_new_broker_has_no_clients() {
    let inter: Intermediary<u32> = Intermediary::new();
    assert!(inter.clients().is_empty());
}

#[test]
fn registering_adds_new_names_in_order() {
    let mut inter = Intermediary::new();
    assert!(inter.register_client(client("ann", 1)));
    assert!(inter.register_client(client("bob", 2)));
    assert_eq!(names(&inter), vec!["ann".to_string(), "bob".to_string()]);
}

#[test]
fn reconnecting_under_a_known_name_keeps_the_first_socket() {
    let mut inter = Intermediary::new();
    assert!(inter.register_client(client("ann", 1)));
    assert!(!inter.register_client(client("ann", 2)));
    assert_eq!(inter.clients().len(), 1);
    assert_eq!(inter.clients()[0].handle, 1);
}

#[test]
fn find_client_gives_the_position_of_the_name() {
    let mut inter = Intermediary::new();
    inter.register_client(client("ann", 1));
    inter.register_client(client("bob", 2));
    assert_eq!(inter.find_client(&"bob".to_string()), Some(1));
    assert_eq!(inter.find_client(&"ann".to_string()), Some(0));
    assert_eq!(inter.find_client(&"eve".to_string()), None);
}

#[test]
fn a_client_event_registers_and_comes_back_as_a_message_event() {
    let mut inter = Intermediary::new();
    let event = InterMsg {
        _type: InterMsgType::Client,
        channel: Some("channels".to_string()),
        message: Some("frame".to_string()),
        client: Some(client("ann", 4)),
    };
    let relay = inter.handle_internal(event);
    assert_eq!(
        relay,
        Relay::Resend(InterMsg {
            _type: InterMsgType::Message,
            channel: Some("channels".to_string()),
            message: Some("frame".to_string()),
            client: None,
        })
    );
    assert_eq!(names(&inter), vec!["ann".to_string()]);
}

#[test]
fn a_message_event_is_published_as_is() {
    let mut inter: Intermediary<u32> = Intermediary::new();
    let relay = inter.handle_internal(InterMsg {
        _type: InterMsgType::Message,
        channel: Some("messages".to_string()),
        message: Some("payload".to_string()),
        client: None,
    });
    assert_eq!(
        relay,
        Relay::Publish { channel: "messages".to_string(), message: "payload".to_string() }
    );
    assert!(inter.clients().is_empty());
}

#[test]
fn relayable_needs_the_fields_that_are_unwrapped() {
    let m: InterMsg<u32> =
        InterMsg { _type: InterMsgType::Message, channel: None, message: Some("x".to_string()), client: None };
    assert!(!is_relayable(&m));
    let m: InterMsg<u32> =
        InterMsg { _type: InterMsgType::Message, channel: Some("x".to_string()), message: None, client: None };
    assert!(!is_relayable(&m));
    let c: InterMsg<u32> =
        InterMsg { _type: InterMsgType::Client, channel: None, message: None, client: None };
    assert!(!is_relayable(&c));
    let c = InterMsg { _type: InterMsgType::Client, channel: None, message: None, client: Some(client("a", 1)) };
    assert!(is_relayable(&c));
}

#[test]
fn socket_text_ends_up_published_on_its_topic() {
    let mut inter = Intermediary::new();
    let msg = SockMsg {
        _type: MsgType::UserConnection,
        message: None,
        channel: None,
        user: Some(User { id: 1, username: "ann".to_string() }),
    };
    let first = inter.handle_internal(route_socket_message(&msg, "raw".to_string(), 8u32));
    let back = match first {
        Relay::Resend(back) => back,
        other => panic!("unexpected {:?}", other),
    };
    assert_eq!(
        inter.handle_internal(back),
        Relay::Publish { channel: "channels".to_string(), message: "raw".to_string() }
    );
    assert_eq!(inter.clients()[0], client("ann", 8));

    let msg = SockMsg { _type: MsgType::DeleteMessage, message: None, channel: None, user: None };
    assert_eq!(
        inter.handle_internal(route_socket_message(&msg, "del".to_string(), 9u32)),
        Relay::Publish { channel: "messages".to_string(), message: "del".to_string() }
    );
    assert_eq!(inter.clients().len(), 1);
}

#[test]
fn only_four_kinds_are_handled() {
    for kind in [
        MsgType::RetrieveChannels,
        MsgType::UpdateChannel,
        MsgType::UpdateMessage,
        MsgType::DeleteMessage,
    ] {
        let msg = SockMsg {
            _type: kind,
            message: Some(partial_message(1)),
            channel: Some(partial_channel("c", Some(1))),
            user: Some(User { id: 1, username: "a".to_string() }),
        };
        assert!(!is_plannable(&msg));
        assert!(!roster().is_handled(&msg));
    }
}

#[test]
fn handled_kinds_need_their_payload() {
    let inter = roster();
    let none = |kind| SockMsg { _type: kind, message: None, channel: None, user: None };
    assert!(!inter.is_handled(&none(MsgType::UserConnection)));
    assert!(!inter.is_handled(&none(MsgType::NewChannel)));
    assert!(!inter.is_handled(&none(MsgType::RetrieveChannelMessages)));
    assert!(!inter.is_handled(&none(MsgType::NewMessage)));
    let mut no_id = none(MsgType::RetrieveChannelMessages);
    no_id.channel = Some(partial_channel("c", None));
    assert!(!inter.is_handled(&no_id));
    no_id.channel = Some(partial_channel("c", Some(3)));
    assert!(inter.is_handled(&no_id));
}

#[test]
fn queries_follow_the_event() {
    let msg = SockMsg {
        _type: MsgType::UserConnection,
        message: None,
        channel: None,
        user: Some(User { id: 1, username: "ann".to_string() }),
    };
    assert_eq!(plan_query(msg), Query::ListChannels { requester: Some("ann".to_string()) });

    let msg = SockMsg {
        _type: MsgType::NewChannel,
        message: None,
        channel: Some(partial_channel("general", None)),
        user: None,
    };
    assert_eq!(plan_query(msg), Query::CreateChannel { channel: partial_channel("general", None) });

    let msg = SockMsg {
        _type: MsgType::RetrieveChannelMessages,
        message: None,
        channel: Some(partial_channel("general", Some(77))),
        user: None,
    };
    assert_eq!(
        plan_query(msg),
        Query::ListChannelMessages { channel: partial_channel("general", Some(77)), channel_id: 77 }
    );

    let msg = SockMsg {
        _type: MsgType::NewMessage,
        message: Some(partial_message(9)),
        channel: None,
        user: None,
    };
    assert_eq!(plan_query(msg), Query::CreateMessage { message: partial_message(9) });
}

fn roster() -> Intermediary<u32> {
    let mut inter = Intermediary::new();
    inter.register_client(client("ann", 1));
    inter.register_client(client("bob", 2));
    inter.register_client(client("cy", 3));
    inter
}

#[test]
fn the_channel_list_goes_to_the_requester_only() {
    let inter = roster();
    let n = inter.notify(
        Query::ListChannels { requester: Some("bob".to_string()) },
        Answer::Channels(vec![stored_channel("general")]),
    );
    assert_eq!(n.recipients, vec![1]);
    assert_eq!(n.payload, Payload::ChannelList { channels: vec![stored_channel("general")] });
}

#[test]
fn the_channel_list_of_an_absent_user_goes_nowhere() {
    let inter = roster();
    let n = inter.notify(
        Query::ListChannels { requester: Some("eve".to_string()) },
        Answer::Channels(vec![]),
    );
    assert!(n.recipients.is_empty());
}

#[test]
fn a_created_channel_is_announced_to_everyone() {
    let inter = roster();
    let n = inter.notify(
        Query::CreateChannel { channel: partial_channel("general", None) },
        Answer::Channel(stored_channel("general")),
    );
    assert_eq!(n.recipients, vec![0, 1, 2]);
    assert_eq!(
        n.payload,
        Payload::ChannelCreated {
            msg: "general channel has been created".to_string(),
            channel: stored_channel("general"),
        }
    );
}

#[test]
fn channel_messages_are_sent_to_everyone() {
    let inter = roster();
    let n = inter.notify(
        Query::ListChannelMessages { channel: partial_channel("random", Some(4)), channel_id: 4 },
        Answer::Messages(vec![stored_message(4)]),
    );
    assert_eq!(n.recipients, vec![0, 1, 2]);
    assert_eq!(
        n.payload,
        Payload::ChannelMessages {
            msg: "random channel messages have been retrieved".to_string(),
            channel: partial_channel("random", Some(4)),
            messages: vec![stored_message(4)],
        }
    );
}

#[test]
fn a_new_message_is_sent_to_everyone() {
    let inter = roster();
    let n = inter.notify(
        Query::CreateMessage { message: partial_message(6) },
        Answer::Message(stored_message(6)),
    );
    assert_eq!(n.recipients, vec![0, 1, 2]);
    assert_eq!(
        n.payload,
        Payload::NewMessage {
            msg: "New message recieved".to_string(),
            channel_id: 6,
            message: stored_message(6),
        }
    );
}

#[test]
fn a_broadcast_to_an_empty_roster_reaches_nobody() {
    let inter: Intermediary<u32> = Intermediary::new();
    let n = inter.notify(
        Query::CreateMessage { message: partial_message(6) },
        Answer::Message(stored_message(6)),
    );
    assert!(n.recipients.is_empty());
}

#[test]
fn a_user_less_connection_is_handled_only_while_nobody_is_connected() {
    let msg = SockMsg { _type: MsgType::UserConnection, message: None, channel: None, user: None };
    assert!(is_plannable(&msg));
    assert!(!roster().is_handled(&msg));
    let empty: Intermediary<u32> = Intermediary::new();
    assert!(empty.is_handled(&msg));
    let query = plan_query(msg);
    assert_eq!(query, Query::ListChannels { requester: None });
    let n = empty.notify(query, Answer::Channels(vec![stored_channel("general")]));
    assert!(n.recipients.is_empty());
    assert_eq!(n.payload, Payload::ChannelList { channels: vec![stored_channel("general")] });
}

#[test]
fn sent_timestamps_are_echoed_to_the_nanosecond() {
    let mut channel = partial_channel("random", Some(4));
    channel.created_at = Some(Timestamp { secs: 1_700_000_000, nanos: 987_654_321 });
    let n = roster().notify(
        Query::ListChannelMessages { channel: channel.clone(), channel_id: 4 },
        Answer::Messages(vec![]),
    );
    match n.payload {
        Payload::ChannelMessages { channel: echoed, .. } => assert_eq!(echoed, channel),
        other => panic!("unexpected {:?}", other),
    }
}
