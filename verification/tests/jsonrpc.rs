use deltachat_core::chat::{ChatVisibility, Chattype, MuteDuration as CoreMuteDuration, Reaction, Timer};
use deltachat_core::contact::{fingerprint_human_readable, ContactId};
use deltachat_core::jsonrpc::{
    seen_recently_contact, BasicChat, CallState, ChatSnapshot, FullChat, JsonrpcCallState,
    JsonrpcChatType, JsonrpcChatVisibility, JsonrpcReactions, MuteDuration, MuteDurationError, ReactionCount,
    Reactions, qr_object_from, Qr, QrObject,
};

fn snapshot(chat_type: Chattype, visibility: ChatVisibility) -> ChatSnapshot {
    ChatSnapshot {
        id: 10,
        name: "Bob".to_string(),
        is_encrypted: true,
        profile_image: None,
        visibility,
        chat_type,
        is_unpromoted: false,
        is_self_talk: false,
        color: 0x00ff80,
        is_contact_request: false,
        is_device_chat: false,
        is_muted: true,
        mailing_list_address: None,
    }
}

#[test]
fn full_chat_from_parts() {
    let ids = vec![ContactId::new(12), ContactId::SELF()];
    assert_eq!(seen_recently_contact(Chattype::Single, &ids), Some(ContactId::new(12)));
    assert_eq!(seen_recently_contact(Chattype::Group, &ids), None);
    let chat = FullChat::from_parts(
        snapshot(Chattype::Single, ChatVisibility::Pinned),
        ids,
        vec![ContactId::new(13)],
        4,
        Timer::Enabled { duration: 3600 },
        true,
        true,
    );
    assert_eq!(chat.contact_ids, vec![12, 1]);
    assert_eq!(chat.past_contact_ids, vec![13]);
    assert!(chat.self_in_group);
    assert!(chat.pinned && !chat.archived);
    assert_eq!(chat.color, "#00ff80");
    assert_eq!(chat.ephemeral_timer, 3600);
    assert!(chat.was_seen_recently);
    assert_eq!(chat.chat_type, JsonrpcChatType::Single);
    let chat = FullChat::from_parts(
        snapshot(Chattype::Group, ChatVisibility::Archived),
        vec![ContactId::new(12)],
        vec![],
        0,
        Timer::Disabled,
        false,
        true,
    );
    assert!(!chat.was_seen_recently);
    assert!(!chat.self_in_group);
    assert!(chat.archived);
    assert_eq!(chat.ephemeral_timer, 0);
}

#[test]
fn basic_chat_from_snapshot() {
    let chat = BasicChat::from_snapshot(snapshot(Chattype::Mailinglist, ChatVisibility::Normal));
    assert_eq!(chat.id, 10);
    assert_eq!(chat.color, "#00ff80");
    assert_eq!(chat.chat_type, JsonrpcChatType::Mailinglist);
    assert!(!chat.archived && !chat.pinned);
}

#[test]
fn chat_types_convert_both_ways() {
    for t in [
        Chattype::Single,
        Chattype::Group,
        Chattype::Mailinglist,
        Chattype::OutBroadcast,
        Chattype::InBroadcast,
    ] {
        assert_eq!(Chattype::from(JsonrpcChatType::from(t)), t);
    }
    assert_eq!(JsonrpcChatVisibility::Archived.into_core_type(), ChatVisibility::Archived);
}

#[test]
fn mute_durations() {
    assert_eq!(MuteDuration::NotMuted.try_into_core_type(100), Ok(CoreMuteDuration::NotMuted));
    assert_eq!(MuteDuration::Forever.try_into_core_type(100), Ok(CoreMuteDuration::Forever));
    assert_eq!(
        MuteDuration::Until { duration: 60 }.try_into_core_type(100),
        Ok(CoreMuteDuration::Until(160))
    );
    assert_eq!(
        MuteDuration::Until { duration: 0 }.try_into_core_type(100),
        Err(MuteDurationError::NotPositive)
    );
    assert_eq!(
        MuteDuration::Until { duration: i64::MAX }.try_into_core_type(100),
        Ok(CoreMuteDuration::Forever)
    );
}

#[test]
fn call_states() {
    assert_eq!(
        JsonrpcCallState::from_call_state(CallState::Completed { duration: 42 }),
        JsonrpcCallState::Completed { duration: 42 }
    );
    assert_eq!(JsonrpcCallState::from_call_state(CallState::Missed), JsonrpcCallState::Missed);
}

#[test]
fn reactions_for_clients() {
    let thumbs = Reaction { text: "👍".to_string() };
    let heart = Reaction { text: "❤".to_string() };
    let r = JsonrpcReactions::from_reactions(Reactions {
        by_contact: vec![(ContactId::new(12), thumbs.clone()), (ContactId::new(13), heart.clone())],
        frequencies: vec![
            ReactionCount { reaction: thumbs, count: 1, is_from_self: false },
            ReactionCount { reaction: heart, count: 1, is_from_self: true },
        ],
    });
    assert_eq!(r.reactions_by_contact.get(&12), Some(&vec!["👍".to_string()]));
    assert_eq!(r.reactions_by_contact.get(&13), Some(&vec!["❤".to_string()]));
    assert_eq!(r.reactions_by_contact.len(), 2);
    assert_eq!(r.reactions.len(), 2);
    assert_eq!(r.reactions[1].emoji, "❤");
    assert!(r.reactions[1].is_from_self);
}

#[test]
fn qr_objects_for_clients() {
    let fpr = "123456789ABCDEF0123456789ABCDEF012345678";
    assert_eq!(fingerprint_human_readable(fpr), "1234 5678 9ABC DEF0 1234\n5678 9ABC DEF0 1234 5678");
    match qr_object_from(Qr::AskVerifyGroup {
        grpname: "Team".to_string(),
        grpid: "g1".to_string(),
        contact_id: ContactId::new(12),
        fingerprint: fpr.to_string(),
        invitenumber: "inv".to_string(),
        authcode: "auth".to_string(),
        is_v3: true,
    }) {
        QrObject::AskVerifyGroup { grpname, grpid, contact_id, fingerprint, invitenumber, authcode, is_v3 } => {
            assert_eq!(grpname, "Team");
            assert_eq!(grpid, "g1");
            assert_eq!(contact_id, 12);
            assert_eq!(fingerprint, "1234 5678 9ABC DEF0 1234\n5678 9ABC DEF0 1234 5678");
            assert_eq!(invitenumber, "inv");
            assert_eq!(authcode, "auth");
            assert!(is_v3);
        }
        other => panic!("unexpected {other:?}"),
    }
    match qr_object_from(Qr::FprWithoutAddr { fingerprint: fpr.to_string() }) {
        QrObject::FprWithoutAddr { fingerprint } => assert_eq!(fingerprint, fpr),
        other => panic!("unexpected {other:?}"),
    }
    match qr_object_from(Qr::FprMismatch { contact_id: Some(ContactId::new(7)) }) {
        QrObject::FprMismatch { contact_id } => assert_eq!(contact_id, Some(7)),
        other => panic!("unexpected {other:?}"),
    }
    match qr_object_from(Qr::Backup2 { node_addr: None, auth_token: "tok".to_string() }) {
        QrObject::Backup2 { auth_token, node_addr } => {
            assert_eq!(auth_token, "tok");
            assert_eq!(node_addr, "");
        }
        other => panic!("unexpected {other:?}"),
    }
    match qr_object_from(Qr::Proxy { url: "socks5://h:1080".to_string(), host: "h".to_string(), port: 1080 }) {
        QrObject::Proxy { url, host, port } => {
            assert_eq!(url, "socks5://h:1080");
            assert_eq!(host, "h");
            assert_eq!(port, 1080);
        }
        other => panic!("unexpected {other:?}"),
    }
    assert!(matches!(qr_object_from(Qr::BackupTooNew), QrObject::BackupTooNew));
}
