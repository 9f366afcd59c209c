use ruey::engine::{AppState, AppStateDiff, ConnectError, EngineAction, ToastKind, TwitchAccount};
use ruey::events::{
    ClearChatAction, ClearChatMessage, ClearMsgMessage, FollowersOnlyMode, JoinMessage,
    PingMessage, PrivmsgMessage, RoomStateMessage, ServerMessage, TwitchEvent, TwitchUser,
};

fn msg(id: &str, sender_id: &str, sender_login: &str, text: &str) -> TwitchEvent {
    TwitchEvent::Privmsg(PrivmsgMessage {
        message_id: id.to_string(),
        channel_login: "foo".to_string(),
        sender: TwitchUser {
            id: sender_id.to_string(),
            login: sender_login.to_string(),
            name: sender_login.to_string(),
        },
        badges: Vec::new(),
        message_text: text.to_string(),
        server_timestamp: 0,
        first_message: false,
        deleted: false,
        timed_out: false,
        banned: false,
    })
}

fn clear_chat(action: ClearChatAction) -> TwitchEvent {
    TwitchEvent::ClearChat(ClearChatMessage {
        channel_login: "foo".to_string(),
        action,
    })
}

fn timeout_event(login: &str, id: &str, seconds: u64) -> TwitchEvent {
    clear_chat(ClearChatAction::UserTimedOut {
        user_login: login.to_string(),
        user_id: id.to_string(),
        timeout_seconds: seconds,
    })
}

fn ban_event(login: &str, id: &str) -> TwitchEvent {
    clear_chat(ClearChatAction::UserBanned {
        user_login: login.to_string(),
        user_id: id.to_string(),
    })
}

fn privmsg_at(s: &AppState, i: usize) -> &PrivmsgMessage {
    match &s.chat.events[i] {
        TwitchEvent::Privmsg(p) => p,
        e => panic!("expected a chat message at {i}, found {e:?}"),
    }
}

fn notice_text_at(s: &AppState, i: usize) -> &str {
    match &s.chat.events[i] {
        TwitchEvent::Notice(n) => n.message_text.as_str(),
        e => panic!("expected a notice at {i}, found {e:?}"),
    }
}

#[test]
fn connect_rejects_blank_names() {
    let mut s = AppState::new();
    assert_eq!(s.connect_channel(&String::new()), Err(ConnectError::Empty));
    assert_eq!(s.connect_channel(&"  \t ".to_string()), Err(ConnectError::Empty));
    assert!(s.twitch_irc_worker.is_none());
    assert!(s.connected_channel_name.is_none());
}

#[test]
fn connect_supersedes_previous_worker() {
    let mut s = AppState::new();
    let w1 = s.connect_channel(&"foo".to_string()).unwrap();
    s.register_worker_event(w1, msg("1", "u1", "bob", "hi"));
    assert_eq!(s.chat.events.len(), 1);

    let w2 = s.connect_channel(&"bar".to_string()).unwrap();
    assert_ne!(w1, w2);
    assert_eq!(s.twitch_irc_worker, Some(w2));
    assert_eq!(s.connected_channel_name.as_deref(), Some("bar"));
    assert_eq!(s.chat.events.len(), 0, "history is cleared on channel change");

    // P1: whatever the superseded worker still delivers is dropped.
    s.register_worker_event(w1, msg("2", "u1", "bob", "late"));
    s.register_worker_event(w1, msg("3", "u1", "bob", "later"));
    assert_eq!(s.chat.events.len(), 0);
    s.register_worker_event(w2, msg("4", "u2", "eve", "fresh"));
    assert_eq!(s.chat.events.len(), 1);
}

#[test]
fn clear_msg_targets_exactly_one_message() {
    // P2: two messages with different ids from the same sender.
    let mut s = AppState::new();
    let w = s.connect_channel(&"foo".to_string()).unwrap();
    s.register_worker_event(w, msg("a", "u1", "bob", "first"));
    s.register_worker_event(w, msg("b", "u1", "bob", "second"));
    s.register_worker_event(
        w,
        TwitchEvent::ClearMsg(ClearMsgMessage {
            channel_login: "foo".to_string(),
            sender_login: "bob".to_string(),
            message_id: "a".to_string(),
            message_text: "first".to_string(),
        }),
    );
    assert!(privmsg_at(&s, 0).deleted);
    assert!(!privmsg_at(&s, 1).deleted);
}

#[test]
fn short_timeout_marks_deleted_never_timed_out() {
    // P3: a two-second timeout deletes the user's unannotated messages.
    let mut s = AppState::new();
    let w = s.connect_channel(&"foo".to_string()).unwrap();
    s.register_worker_event(w, msg("a", "u1", "bob", "one"));
    s.register_worker_event(w, msg("b", "u1", "bob", "two"));
    s.register_worker_event(w, msg("c", "u2", "eve", "other"));
    s.register_worker_event(w, timeout_event("bob", "u1", 2));
    assert_eq!(s.chat.events.len(), 3, "a short timeout appends no notice");
    for i in [0, 1] {
        assert!(privmsg_at(&s, i).deleted);
        assert!(!privmsg_at(&s, i).timed_out);
    }
    assert!(!privmsg_at(&s, 2).deleted);
}

#[test]
fn long_timeout_marks_all_and_appends_notice() {
    // P4: a 600 second timeout.
    let mut s = AppState::new();
    let w = s.connect_channel(&"foo".to_string()).unwrap();
    s.register_worker_event(w, msg("a", "u1", "bob", "one"));
    s.register_worker_event(w, msg("b", "u1", "bob", "two"));
    s.register_worker_event(w, timeout_event("bob", "u1", 600));
    assert_eq!(s.chat.events.len(), 3);
    assert!(privmsg_at(&s, 0).timed_out);
    assert!(privmsg_at(&s, 1).timed_out);
    assert_eq!(notice_text_at(&s, 2), "bob has been timed out for 600 seconds.");
}

#[test]
fn ban_adds_to_existing_annotations() {
    // P5: timed-out then banned means both flags.
    let mut s = AppState::new();
    let w = s.connect_channel(&"foo".to_string()).unwrap();
    s.register_worker_event(w, msg("a", "u1", "bob", "one"));
    s.register_worker_event(w, timeout_event("bob", "u1", 600));
    s.register_worker_event(w, ban_event("bob", "u1"));
    let p = privmsg_at(&s, 0);
    assert!(p.timed_out && p.banned);
    assert_eq!(notice_text_at(&s, 2), "bob has been banned.");
}

#[test]
fn chat_cleared_retains_messages() {
    // P6: the message count is unchanged; exactly one notice is appended.
    let mut s = AppState::new();
    let w = s.connect_channel(&"foo".to_string()).unwrap();
    s.register_worker_event(w, msg("a", "u1", "bob", "one"));
    s.register_worker_event(w, msg("b", "u2", "eve", "two"));
    let before = s.chat.events.len();
    s.register_worker_event(w, clear_chat(ClearChatAction::ChatCleared));
    assert_eq!(s.chat.events.len(), before + 1);
    assert!(matches!(&s.chat.events[0], TwitchEvent::Privmsg(_)));
    assert!(matches!(&s.chat.events[1], TwitchEvent::Privmsg(_)));
    assert_eq!(notice_text_at(&s, 2), "Chat has been cleared.");
}

#[test]
fn commands_never_directly_mutate_history() {
    // P7: building the ban command changes nothing; only the later
    // ClearChat event does.
    let mut s = AppState::new();
    let w = s.connect_channel(&"foo".to_string()).unwrap();
    s.register_worker_event(w, msg("a", "u1", "bob", "one"));

    let account = Some(TwitchAccount {
        user_id: "me".to_string(),
        login: "mod".to_string(),
        access_token: "SECRET-REDACTED".to_string(),
        refresh_token: None,
    });
    let channel = Some(ruey::engine::ChannelInfo {
        broadcaster_id: "chan".to_string(),
        broadcaster_login: "foo".to_string(),
        title: "t".to_string(),
    });
    let cmd = ruey::dispatcher::twitch_ban_user(&account, &channel, &Some("u1".to_string()));
    assert!(cmd.is_ok());
    assert!(!privmsg_at(&s, 0).banned, "no history change until the event is ingested");
    assert_eq!(s.chat.events.len(), 1);

    s.register_worker_event(w, ban_event("bob", "u1"));
    assert!(privmsg_at(&s, 0).banned);
}

#[test]
fn end_to_end_scenario() {
    // P8: connect, room state, delete, short timeout, reconnect.
    let mut s = AppState::new();
    let w1 = s.connect_channel(&"foo".to_string()).unwrap();
    assert_eq!(s.connected_channel_name.as_deref(), Some("foo"));

    s.register_worker_event(
        w1,
        TwitchEvent::RoomState(RoomStateMessage {
            channel_login: "foo".to_string(),
            slow_mode: Some(0),
            emote_only: None,
            followers_only: None,
            subscribers_only: None,
        }),
    );
    assert_eq!(s.chat.is_slow_mode, None, "a zero delay clears slow mode");

    s.register_worker_event(w1, msg("1", "u_bob", "bob", "hello"));
    s.register_worker_event(
        w1,
        TwitchEvent::ClearMsg(ClearMsgMessage {
            channel_login: "foo".to_string(),
            sender_login: "bob".to_string(),
            message_id: "1".to_string(),
            message_text: "hello".to_string(),
        }),
    );
    assert!(privmsg_at(&s, 0).deleted);

    let before = s.chat.events.len();
    s.register_worker_event(w1, timeout_event("bob", "u_bob", 3));
    assert_eq!(s.chat.events.len(), before, "nothing left unannotated, nothing appended");

    let w2 = s.connect_channel(&"bar".to_string()).unwrap();
    assert_ne!(w1, w2);
    assert_eq!(s.chat.events.len(), 0);
    assert_eq!(s.twitch_irc_worker, Some(w2));
    assert_eq!(s.connected_channel_name.as_deref(), Some("bar"));
}

#[test]
fn room_state_updates_only_mentioned_modes() {
    let mut s = AppState::new();
    let w = s.connect_channel(&"foo".to_string()).unwrap();
    s.register_worker_event(
        w,
        TwitchEvent::RoomState(RoomStateMessage {
            channel_login: "foo".to_string(),
            slow_mode: Some(30),
            emote_only: Some(true),
            followers_only: Some(FollowersOnlyMode::Enabled(600)),
            subscribers_only: Some(true),
        }),
    );
    assert_eq!(s.chat.is_slow_mode, Some(30));
    assert!(s.chat.is_emote_only);
    assert_eq!(s.chat.is_follow_only, Some(600));
    assert!(s.chat.is_subscriber_only);

    // A snapshot mentioning nothing changes nothing.
    s.register_worker_event(
        w,
        TwitchEvent::RoomState(RoomStateMessage {
            channel_login: "foo".to_string(),
            slow_mode: None,
            emote_only: None,
            followers_only: None,
            subscribers_only: None,
        }),
    );
    assert_eq!(s.chat.is_slow_mode, Some(30));

    // Follower-only enabled with zero duration counts as disabled.
    s.register_worker_event(
        w,
        TwitchEvent::RoomState(RoomStateMessage {
            channel_login: "foo".to_string(),
            slow_mode: None,
            emote_only: None,
            followers_only: Some(FollowersOnlyMode::Enabled(0)),
            subscribers_only: None,
        }),
    );
    assert_eq!(s.chat.is_follow_only, None);
}

#[test]
fn keepalives_leave_no_trace() {
    let mut s = AppState::new();
    let w = s.connect_channel(&"foo".to_string()).unwrap();
    s.register_worker_event(w, TwitchEvent::Ping(PingMessage {}));
    assert_eq!(s.chat.events.len(), 0);
}

#[test]
fn normalizer_drops_unmodeled_messages() {
    let raw = ServerMessage::Generic("unmodeled".to_string());
    assert!(TwitchEvent::try_from(raw).is_err());
    let join = ServerMessage::Join(JoinMessage {
        channel_login: "foo".to_string(),
        user_login: "me".to_string(),
    });
    assert!(matches!(TwitchEvent::try_from(join), Ok(TwitchEvent::Join(_))));
}

#[test]
fn account_linked_raises_toast_and_fetch() {
    let mut s = AppState::new();
    let w = s.connect_channel(&"foo".to_string()).unwrap();
    s.register_worker_event(
        w,
        TwitchEvent::Join(JoinMessage {
            channel_login: "foo".to_string(),
            user_login: "me".to_string(),
        }),
    );
    assert!(s.did_we_join);
    let action = s.apply_diff(AppStateDiff::AccountLinked(TwitchAccount {
        user_id: "me".to_string(),
        login: "mod".to_string(),
        access_token: "SECRET-REDACTED".to_string(),
        refresh_token: None,
    }));
    assert_eq!(action, Some(EngineAction::FetchChannelInfo("foo".to_string())));
    let toast = s.toasts.last().unwrap();
    assert_eq!(toast.kind, ToastKind::Success);
    assert_eq!(toast.text, "Logged in as mod.");
}

#[test]
fn rejected_join_ends_disconnected() {
    let mut s = AppState::new();
    s.connect_channel(&"foo".to_string()).unwrap();
    s.apply_diff(AppStateDiff::SetSettingsChannelError("Invalid channel name.".to_string()));
    assert!(s.twitch_irc_worker.is_none());
    assert!(s.connected_channel_name.is_none());
    assert_eq!(s.settings.channel_name_error.as_deref(), Some("Invalid channel name."));
}
