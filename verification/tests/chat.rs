use deltachat_core::chat::{
    mute_duration_from_seconds, remaining_mute_seconds, ChatId, ChatVisibility, MuteDuration, Timer,
};

#[test]
fn chat_visibility_numbers() {
    for v in [ChatVisibility::Normal, ChatVisibility::Archived, ChatVisibility::Pinned] {
        assert_eq!(ChatVisibility::from_i32(v.to_i32()), Some(v));
    }
    assert_eq!(ChatVisibility::Pinned.to_i32(), 2);
    assert_eq!(ChatVisibility::from_i32(3), None);
}

#[test]
fn mute_durations_from_numbers() {
    assert_eq!(mute_duration_from_seconds(0, 100), Some(MuteDuration::NotMuted));
    assert_eq!(mute_duration_from_seconds(-1, 100), Some(MuteDuration::Forever));
    assert_eq!(mute_duration_from_seconds(60, 100), Some(MuteDuration::Until(160)));
    assert_eq!(mute_duration_from_seconds(i64::MAX, 100), Some(MuteDuration::Forever));
    assert_eq!(mute_duration_from_seconds(-2, 100), None);
    assert_eq!(remaining_mute_seconds(true, MuteDuration::Until(160), 100), 60);
    assert_eq!(remaining_mute_seconds(true, MuteDuration::Until(60), 100), 0);
    assert_eq!(remaining_mute_seconds(true, MuteDuration::Forever, 100), -1);
    assert_eq!(remaining_mute_seconds(false, MuteDuration::Forever, 100), 0);
}

#[test]
fn ids_and_timers() {
    assert_eq!(ChatId::new(7).to_u32(), 7);
    assert_eq!(ChatId::default().to_u32(), 0);
    assert_eq!(Timer::Disabled.to_u32(), 0);
    assert_eq!(Timer::Enabled { duration: 5 }.to_u32(), 5);
}
