use ruey::chat::ChatState;
use ruey::dispatcher::{
    command_failed_toast, twitch_ban_user, twitch_delete_all_messages, twitch_patch_chat_settings,
    twitch_send_message, twitch_timeout_user, ApiCommand, ChatSettingsPatch, CommandError,
};
use ruey::engine::{ChannelInfo, ToastKind, TwitchAccount};
use ruey::events::{Badge, NoticeMessage, PrivmsgMessage, TwitchEvent, TwitchUser};
use ruey::tabs::{DocsState, SettingsState, Tabs};

#[test]
fn tabs_have_fixed_titles_and_stay_open() {
    assert_eq!(Tabs::Chat.title(), "Chat");
    assert_eq!(Tabs::Docs.title(), "Docs");
    assert!(!Tabs::Settings.is_closeable());
    let _docs = DocsState::default();
    let settings = SettingsState::default();
    assert_eq!(settings.channel_name, "");
    assert!(settings.channel_name_error.is_none());
}

fn chat_message(sender_name: &str, text: &str, badge: Option<&str>) -> TwitchEvent {
    let mut badges = Vec::new();
    if let Some(name) = badge {
        badges.push(Badge {
            name: name.to_string(),
            version: "1".to_string(),
        });
    }
    TwitchEvent::Privmsg(PrivmsgMessage {
        message_id: "m".to_string(),
        channel_login: "foo".to_string(),
        sender: TwitchUser {
            id: "u".to_string(),
            login: sender_name.to_lowercase(),
            name: sender_name.to_string(),
        },
        badges,
        message_text: text.to_string(),
        server_timestamp: 0,
        first_message: false,
        deleted: false,
        timed_out: false,
        banned: false,
    })
}

fn account() -> Option<TwitchAccount> {
    Some(TwitchAccount {
        user_id: "me".to_string(),
        login: "mod".to_string(),
        access_token: "SECRET-REDACTED".to_string(),
        refresh_token: None,
    })
}

fn channel() -> Option<ChannelInfo> {
    Some(ChannelInfo {
        broadcaster_id: "chan".to_string(),
        broadcaster_login: "foo".to_string(),
        title: "title".to_string(),
    })
}

#[test]
fn filter_by_kind_and_role() {
    let mut c = ChatState::default();
    let notice = TwitchEvent::Notice(NoticeMessage {
        channel_login: None,
        message_id: None,
        message_text: "note".to_string(),
    });
    assert!(c.event_passes_filter(&notice));
    c.show_notices = false;
    assert!(!c.event_passes_filter(&notice));

    let modline = chat_message("Alice", "hello", Some("moderator"));
    assert!(c.event_passes_filter(&modline));
    c.show_messages_by_moderator = false;
    assert!(!c.event_passes_filter(&modline));

    let plain = chat_message("Carol", "hello", None);
    assert!(c.event_passes_filter(&plain));
    c.show_messages_by_regular_viewer = false;
    assert!(!c.event_passes_filter(&plain));

    c.show_messages = false;
    assert!(!c.event_passes_filter(&chat_message("Alice", "x", Some("vip"))));
}

#[test]
fn search_queries_are_case_insensitive() {
    // The match is case-insensitive, so the search really went through
    // the expression engine rather than comparing the raw strings.
    let mut c = ChatState::default();
    c.user_query = "ALICE".to_string();
    assert!(c.event_passes_filter(&chat_message("alice", "hello", None)));
    assert!(!c.event_passes_filter(&chat_message("bob", "hello", None)));

    c.user_query = String::new();
    c.message_query = "b.b".to_string();
    assert!(c.event_passes_filter(&chat_message("alice", "bob!", None)));
    assert!(!c.event_passes_filter(&chat_message("alice", "bb", None)));
}

#[test]
fn ill_formed_query_constrains_nothing() {
    let mut c = ChatState::default();
    c.user_query = "(".to_string();
    c.refresh_query_validity();
    assert!(!c.user_query_valid);
    assert!(c.message_query_valid);
    assert!(c.event_passes_filter(&chat_message("anyone", "anything", None)));
}

#[test]
fn command_builders_check_the_session() {
    let text = " hi there ".to_string();
    assert_eq!(
        twitch_send_message(&None, &channel(), &text),
        Err(CommandError::NotLinked)
    );
    assert_eq!(
        twitch_send_message(&account(), &None, &text),
        Err(CommandError::NotConnected)
    );
    match twitch_send_message(&account(), &channel(), &text) {
        Ok(ApiCommand::SendMessage {
            broadcaster_id,
            sender_id,
            text,
        }) => {
            assert_eq!(broadcaster_id, "chan");
            assert_eq!(sender_id, "me");
            assert_eq!(text, "hi there");
        }
        other => panic!("unexpected result {other:?}"),
    }
}

#[test]
fn by_name_commands_abort_on_missing_user() {
    assert_eq!(
        twitch_ban_user(&account(), &channel(), &None),
        Err(CommandError::UserNotFound)
    );
    let r = twitch_timeout_user(&account(), &channel(), &Some("u7".to_string()), 600);
    assert_eq!(
        r,
        Ok(ApiCommand::BanUser {
            broadcaster_id: "chan".to_string(),
            moderator_id: "me".to_string(),
            target_user_id: "u7".to_string(),
            timeout_seconds: Some(600),
        })
    );
}

#[test]
fn remaining_builders_and_toasts() {
    let r = twitch_delete_all_messages(&account(), &channel());
    assert_eq!(
        r,
        Ok(ApiCommand::DeleteAllMessages {
            broadcaster_id: "chan".to_string(),
            moderator_id: "me".to_string(),
        })
    );
    let patch = ChatSettingsPatch {
        emote_mode: Some(true),
        ..ChatSettingsPatch::default()
    };
    let r = twitch_patch_chat_settings(&account(), &channel(), patch.clone());
    assert_eq!(
        r,
        Ok(ApiCommand::UpdateChatSettings {
            broadcaster_id: "chan".to_string(),
            moderator_id: "me".to_string(),
            patch,
        })
    );
    let toast = command_failed_toast(&ApiCommand::BanUser {
        broadcaster_id: "chan".to_string(),
        moderator_id: "me".to_string(),
        target_user_id: "u7".to_string(),
        timeout_seconds: Some(600),
    });
    assert_eq!(toast.kind, ToastKind::Error);
    assert_eq!(toast.text, "Failed to timeout user.");
}
