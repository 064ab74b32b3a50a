use deltachat_core::chat::{ChatId, Chattype, MsgId, Reaction, StatusUpdateSerial, Timer};
use deltachat_core::contact::ContactId;
use deltachat_core::events::{EventData, EventType};

#[test]
fn warnings_and_errors() {
    let w = EventType::Warning("careful".to_string());
    assert_eq!(w.get_warn(), Some(&"careful".to_string()));
    assert_eq!(w.get_error(), None);
    let e = EventType::Error("bad".to_string());
    assert_eq!(e.get_error(), Some(&"bad".to_string()));
    let e = EventType::ErrorSelfNotInGroup("not in group".to_string());
    assert_eq!(e.get_error(), Some(&"not in group".to_string()));
    assert_eq!(EventType::Info("x".to_string()).get_warn(), None);
}

#[test]
fn event_ids() {
    assert_eq!(EventType::Info(String::new()).id(), 100);
    assert_eq!(EventType::Warning(String::new()).id(), 300);
    assert_eq!(EventType::Error(String::new()).id(), 400);
    assert_eq!(EventType::ImapInboxIdle.id(), 106);
    assert_eq!(
        EventType::MsgsChanged { chat_id: ChatId::new(1), msg_id: MsgId::new(2) }.id(),
        2000
    );
    assert_eq!(EventType::ContactsChanged(None).id(), 2030);
    assert_eq!(EventType::EventChannelOverflow { n: 3 }.id(), 2400);
    assert_eq!(EventType::TransportsModified.id(), 2600);
}

#[test]
fn event_integer_data() {
    let e = EventType::MsgsChanged { chat_id: ChatId::new(10), msg_id: MsgId::new(20) };
    assert_eq!(e.data1_int(), 10);
    assert_eq!(e.data2_int(), 20);
    let e = EventType::ContactsChanged(Some(ContactId::new(7)));
    assert_eq!(e.data1_int(), 7);
    assert_eq!(EventType::ContactsChanged(None).data1_int(), 0);
    let e = EventType::ChatEphemeralTimerModified {
        chat_id: ChatId::new(3),
        timer: Timer::Enabled { duration: 60 },
    };
    assert_eq!(e.data1_int(), 3);
    assert_eq!(e.data2_int(), 60);
    let e = EventType::SecurejoinInviterProgress {
        contact_id: ContactId::new(11),
        chat_id: ChatId::new(12),
        chat_type: Chattype::Group,
        progress: 400,
    };
    assert_eq!(e.data1_int(), 11);
    assert_eq!(e.data2_int(), 400);
    let e = EventType::WebxdcStatusUpdate {
        msg_id: MsgId::new(5),
        status_update_serial: StatusUpdateSerial::new(9),
    };
    assert_eq!((e.data1_int(), e.data2_int()), (5, 9));
    let e = EventType::WebxdcRealtimeData { msg_id: MsgId::new(5), data: vec![1, 2, 3] };
    assert_eq!(e.data2_int(), 3);
    let e = EventType::IncomingCall {
        msg_id: MsgId::new(8),
        chat_id: ChatId::new(4),
        place_call_info: "offer".to_string(),
        has_video: true,
    };
    assert_eq!((e.data1_int(), e.data2_int()), (8, 1));
    assert_eq!(EventType::EventChannelOverflow { n: 5 }.data1_int(), 5);
    assert_eq!(EventType::ChatlistItemChanged { chat_id: None }.data1_int(), 0);
}

#[test]
fn event_string_data() {
    assert_eq!(
        EventType::Info("hello".to_string()).data2_str(),
        Some(EventData::Text("hello".to_string()))
    );
    assert_eq!(EventType::ImapInboxIdle.data2_str(), None);
    let e = EventType::ConfigureProgress { progress: 10, comment: None };
    assert_eq!(e.data2_str(), None);
    let e = EventType::ConfigureProgress { progress: 10, comment: Some("c".to_string()) };
    assert_eq!(e.data2_str(), Some(EventData::Text("c".to_string())));
    let e = EventType::WebxdcRealtimeData { msg_id: MsgId::new(5), data: vec![1, 2, 3] };
    assert_eq!(e.data2_str(), Some(EventData::Bytes(vec![1, 2, 3])));
    let e = EventType::IncomingReaction {
        chat_id: ChatId::new(1),
        contact_id: ContactId::new(12),
        msg_id: MsgId::new(2),
        reaction: Reaction { text: "👍".to_string() },
    };
    assert_eq!(e.data2_str(), Some(EventData::Text("👍".to_string())));
    let e = EventType::IncomingWebxdcNotify {
        chat_id: ChatId::new(1),
        contact_id: ContactId::new(12),
        msg_id: MsgId::new(2),
        text: "look".to_string(),
        href: Some("#here".to_string()),
    };
    assert_eq!(e.data1_str(), Some("#here".to_string()));
    assert_eq!(e.data2_str(), Some(EventData::Text("look".to_string())));
    assert_eq!(EventType::Info("x".to_string()).data1_str(), None);
}
