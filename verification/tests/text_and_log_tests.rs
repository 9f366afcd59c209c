use ruey::events::{
    Badge, JoinMessage, NoticeMessage, PrivmsgMessage, PrivmsgMessageExt, TwitchEvent, TwitchUser,
};
use ruey::log::render_event_for_log;
use ruey::text::{clock_string, decimal_string, is_blank, trimmed};

fn bob_message(text: &str) -> PrivmsgMessage {
    PrivmsgMessage {
        message_id: "m1".to_string(),
        channel_login: "foo".to_string(),
        sender: TwitchUser {
            id: "u1".to_string(),
            login: "bob".to_string(),
            name: "Bob".to_string(),
        },
        badges: Vec::new(),
        message_text: text.to_string(),
        server_timestamp: 3661,
        first_message: false,
        deleted: false,
        timed_out: false,
        banned: false,
    }
}

#[test]
fn decimal_renders_exactly() {
    assert_eq!(decimal_string(0), "0");
    assert_eq!(decimal_string(7), "7");
    assert_eq!(decimal_string(600), "600");
    assert_eq!(decimal_string(18446744073709551615), "18446744073709551615");
}

#[test]
fn clock_renders_time_of_day() {
    assert_eq!(clock_string(0), "00:00:00");
    assert_eq!(clock_string(3661), "01:01:01");
    assert_eq!(clock_string(86399), "23:59:59");
    assert_eq!(clock_string(86400 + 45296), "12:34:56");
}

#[test]
fn trimming_and_blank_tests() {
    assert_eq!(trimmed("  chat line \n"), "chat line");
    assert_eq!(trimmed("\t\r\n "), "");
    assert_eq!(trimmed("word"), "word");
    assert!(is_blank(""));
    assert!(is_blank(" \t\n\r"));
    assert!(!is_blank(" x "));
}

#[test]
fn log_renders_join_and_notice() {
    let mut buffer = String::new();
    render_event_for_log(
        &mut buffer,
        &TwitchEvent::Join(JoinMessage {
            channel_login: "foo".to_string(),
            user_login: "me".to_string(),
        }),
    );
    render_event_for_log(
        &mut buffer,
        &TwitchEvent::Notice(NoticeMessage {
            channel_login: None,
            message_id: None,
            message_text: "  all quiet \n".to_string(),
        }),
    );
    assert_eq!(buffer, "Joined channel foo.\nall quiet\n");
}

#[test]
fn log_renders_message_with_tags() {
    let mut p = bob_message("hello there");
    p.badges.push(Badge {
        name: "moderator".to_string(),
        version: "1".to_string(),
    });
    p.mark_timeouted();
    let mut buffer = String::new();
    render_event_for_log(&mut buffer, &TwitchEvent::Privmsg(p));
    assert_eq!(buffer, "01:01:01 [TIMED OUT] MOD Bob: hello there\n");
}

#[test]
fn log_ignores_other_event_kinds() {
    let mut buffer = String::from("before");
    render_event_for_log(&mut buffer, &TwitchEvent::Ping(ruey::events::PingMessage {}));
    assert_eq!(buffer, "before");
}

#[test]
fn message_role_queries_follow_badges() {
    let mut p = bob_message("hi");
    assert!(p.is_by_regular_viewer());
    p.badges.push(Badge {
        name: "vip".to_string(),
        version: "1".to_string(),
    });
    assert!(p.is_by_vip());
    assert!(!p.is_by_mod());
    assert!(!p.is_by_regular_viewer());
    p.mark_deleted();
    p.mark_banned();
    assert!(p.is_deleted() && p.is_banned() && !p.is_timeouted());
}
