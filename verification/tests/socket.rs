use api::broker::{Client, InterMsgType};
use api::channel::PartialChannel;
use api::message::PartialMessage;
use api::socket::{is_forwardable, route_socket_message, topic_name, MsgType, SockMsg};
use api::User;

fn bare(kind: MsgType) -> SockMsg {
    SockMsg { _type: kind, message: None, channel: None, user: None }
}

#[test]
fn channel_kinds_go_to_the_channels_topic() {
    for kind in [
        MsgType::UserConnection,
        MsgType::NewChannel,
        MsgType::RetrieveChannels,
        MsgType::RetrieveChannelMessages,
        MsgType::UpdateChannel,
    ] {
        assert_eq!(topic_name(kind), "channels");
    }
}

#[test]
fn message_kinds_go_to_the_messages_topic() {
    for kind in [MsgType::NewMessage, MsgType::UpdateMessage, MsgType::DeleteMessage] {
        assert_eq!(topic_name(kind), "messages");
    }
}

#[test]
fn a_new_message_is_forwarded_unchanged_on_the_messages_topic() {
    let msg = SockMsg {
        _type: MsgType::NewMessage,
        message: Some(PartialMessage {
            id: None,
            idx: None,
            username: "ann".to_string(),
            content: "hello".to_string(),
            channel_id: 42,
            created_at: None,
            updated_at: None,
        }),
        channel: None,
        user: None,
    };
    let text = r#"{"_type":"NewMessage","message":{"content":"hello"}}"#.to_string();
    let out = route_socket_message(&msg, text.clone(), 7u8);
    assert_eq!(out._type, InterMsgType::Message);
    assert_eq!(out.channel, Some("messages".to_string()));
    assert_eq!(out.message, Some(text));
    assert_eq!(out.client, None);
}

#[test]
fn a_new_channel_is_forwarded_on_the_channels_topic() {
    let mut msg = bare(MsgType::NewChannel);
    msg.channel = Some(PartialChannel {
        id: None,
        idx: None,
        name: "general".to_string(),
        created_at: None,
        updated_at: None,
    });
    let out = route_socket_message(&msg, "frame".to_string(), ());
    assert_eq!(out._type, InterMsgType::Message);
    assert_eq!(out.channel, Some("channels".to_string()));
    assert_eq!(out.message, Some("frame".to_string()));
    assert_eq!(out.client, None);
}

#[test]
fn a_user_connection_carries_the_socket_under_the_user_name() {
    let mut msg = bare(MsgType::UserConnection);
    msg.user = Some(User { id: 3, username: "bob".to_string() });
    let out = route_socket_message(&msg, "hi".to_string(), 99u32);
    assert_eq!(out._type, InterMsgType::Client);
    assert_eq!(out.channel, Some("channels".to_string()));
    assert_eq!(out.message, Some("hi".to_string()));
    assert_eq!(out.client, Some(Client { username: "bob".to_string(), handle: 99u32 }));
}

#[test]
fn a_user_connection_without_a_user_is_not_forwardable() {
    assert!(!is_forwardable(&bare(MsgType::UserConnection)));
    let mut msg = bare(MsgType::UserConnection);
    msg.user = Some(User { id: 1, username: "a".to_string() });
    assert!(is_forwardable(&msg));
}

#[test]
fn every_other_kind_is_forwardable_without_payload() {
    for kind in [
        MsgType::NewChannel,
        MsgType::RetrieveChannels,
        MsgType::RetrieveChannelMessages,
        MsgType::UpdateChannel,
        MsgType::NewMessage,
        MsgType::UpdateMessage,
        MsgType::DeleteMessage,
    ] {
        assert!(is_forwardable(&bare(kind)));
    }
}
