//! The normalized protocol events.
//!
//! Every event carries plain values only: identifiers and logins as strings,
//! timestamps as seconds since the epoch, durations as whole seconds. A raw
//! protocol line is first classified as a [`ServerMessage`]; the normalizer
//! [`TwitchEvent::try_from`] keeps the message kinds the engine models and
//! drops the rest.

use vstd::prelude::*;

verus! {

/// The spec-level image of an optional string.
pub open spec fn opt_view(o: Option<String>) -> Option<Seq<char>> {
    match o {
        Some(s) => Some(s@),
        None => None,
    }
}

/// A role badge attached to a message sender, such as `moderator` or `vip`.
#[derive(Debug, Clone, PartialEq, Eq)]
pub struct Badge {
    pub name: String,
    pub version: String,
}

#[verifier::ext_equal]
pub struct BadgeV {
    pub name: Seq<char>,
    pub version: Seq<char>,
}

impl View for Badge {
    type V = BadgeV;

    open spec fn view(&self) -> BadgeV {
        BadgeV { name: self.name@, version: self.version@ }
    }
}

/// A user as the protocol identifies one: stable id, login, display name.
#[derive(Debug, Clone, PartialEq, Eq)]
pub struct TwitchUser {
    pub id: String,
    pub login: String,
    pub name: String,
}

#[verifier::ext_equal]
pub struct TwitchUserV {
    pub id: Seq<char>,
    pub login: Seq<char>,
    pub name: Seq<char>,
}

impl View for TwitchUser {
    type V = TwitchUserV;

    open spec fn view(&self) -> TwitchUserV {
        TwitchUserV { id: self.id@, login: self.login@, name: self.name@ }
    }
}

/// A chat message, together with its moderation annotation flags.
///
/// The flags are derived state: they start out false and are set by the
/// reconciliation of later `ClearMsg` / `ClearChat` events. They are additive
/// and are never cleared; the message text is retained regardless.
#[derive(Debug, Clone, PartialEq, Eq)]
pub struct PrivmsgMessage {
    pub message_id: String,
    pub channel_login: String,
    pub sender: TwitchUser,
    pub badges: Vec<Badge>,
    pub message_text: String,
    /// Seconds since the epoch, as the server stamped the message.
    pub server_timestamp: u64,
    /// Whether the server flagged this as the sender's first message here.
    pub first_message: bool,
    pub deleted: bool,
    pub timed_out: bool,
    pub banned: bool,
}

#[verifier::ext_equal]
pub struct PrivmsgV {
    pub message_id: Seq<char>,
    pub channel_login: Seq<char>,
    pub sender: TwitchUserV,
    pub badges: Seq<BadgeV>,
    pub message_text: Seq<char>,
    pub server_timestamp: u64,
    pub first_message: bool,
    pub deleted: bool,
    pub timed_out: bool,
    pub banned: bool,
}

impl View for PrivmsgMessage {
    type V = PrivmsgV;

    open spec fn view(&self) -> PrivmsgV {
        PrivmsgV {
            message_id: self.message_id@,
            channel_login: self.channel_login@,
            sender: self.sender@,
            badges: self.badges@.map_values(|b: Badge| b@),
            message_text: self.message_text@,
            server_timestamp: self.server_timestamp,
            first_message: self.first_message,
            deleted: self.deleted,
            timed_out: self.timed_out,
            banned: self.banned,
        }
    }
}

/// A human-readable server or engine notice.
#[derive(Debug, Clone, PartialEq, Eq)]
pub struct NoticeMessage {
    pub channel_login: Option<String>,
    pub message_id: Option<String>,
    pub message_text: String,
}

#[verifier::ext_equal]
pub struct NoticeV {
    pub channel_login: Option<Seq<char>>,
    pub message_id: Option<Seq<char>>,
    pub message_text: Seq<char>,
}

impl View for NoticeMessage {
    type V = NoticeV;

    open spec fn view(&self) -> NoticeV {
        NoticeV {
            channel_login: opt_view(self.channel_login),
            message_id: opt_view(self.message_id),
            message_text: self.message_text@,
        }
    }
}

/// The follower-only mode of a channel: off, or on with a minimum follow age.
#[derive(Debug, Clone, Copy, PartialEq, Eq)]
pub enum FollowersOnlyMode {
    Disabled,
    /// Enabled, with the required follow age in seconds.
    Enabled(u64),
}

/// A snapshot of the channel's chat modes. A field of `None` means the
/// snapshot does not mention that mode.
#[derive(Debug, Clone, PartialEq, Eq)]
pub struct RoomStateMessage {
    pub channel_login: String,
    /// Slow mode delay in seconds; zero means slow mode is off.
    pub slow_mode: Option<u64>,
    pub emote_only: Option<bool>,
    pub followers_only: Option<FollowersOnlyMode>,
    pub subscribers_only: Option<bool>,
}

#[verifier::ext_equal]
pub struct RoomStateV {
    pub channel_login: Seq<char>,
    pub slow_mode: Option<u64>,
    pub emote_only: Option<bool>,
    pub followers_only: Option<FollowersOnlyMode>,
    pub subscribers_only: Option<bool>,
}

impl View for RoomStateMessage {
    type V = RoomStateV;

    open spec fn view(&self) -> RoomStateV {
        RoomStateV {
            channel_login: self.channel_login@,
            slow_mode: self.slow_mode,
            emote_only: self.emote_only,
            followers_only: self.followers_only,
            subscribers_only: self.subscribers_only,
        }
    }
}

/// The action a `ClearChat` event reports.
#[derive(Debug, Clone, PartialEq, Eq)]
pub enum ClearChatAction {
    ChatCleared,
    UserTimedOut { user_login: String, user_id: String, timeout_seconds: u64 },
    UserBanned { user_login: String, user_id: String },
}

#[verifier::ext_equal]
pub enum ClearChatActionV {
    ChatCleared,
    UserTimedOut { user_login: Seq<char>, user_id: Seq<char>, timeout_seconds: u64 },
    UserBanned { user_login: Seq<char>, user_id: Seq<char> },
}

impl View for ClearChatAction {
    type V = ClearChatActionV;

    open spec fn view(&self) -> ClearChatActionV {
        match self {
            ClearChatAction::ChatCleared => ClearChatActionV::ChatCleared,
            ClearChatAction::UserTimedOut { user_login, user_id, timeout_seconds } => (
            ClearChatActionV::UserTimedOut {
                user_login: user_login@,
                user_id: user_id@,
                timeout_seconds: *timeout_seconds,
            }),
            ClearChatAction::UserBanned { user_login, user_id } => (ClearChatActionV::UserBanned {
                user_login: user_login@,
                user_id: user_id@,
            }),
        }
    }
}

/// A bulk moderation event: chat cleared, or one user timed out or banned.
#[derive(Debug, Clone, PartialEq, Eq)]
pub struct ClearChatMessage {
    pub channel_login: String,
    pub action: ClearChatAction,
}

#[verifier::ext_equal]
pub struct ClearChatV {
    pub channel_login: Seq<char>,
    pub action: ClearChatActionV,
}

impl View for ClearChatMessage {
    type V = ClearChatV;

    open spec fn view(&self) -> ClearChatV {
        ClearChatV { channel_login: self.channel_login@, action: self.action@ }
    }
}

/// Invalidation of a single message, identified by its message id.
#[derive(Debug, Clone, PartialEq, Eq)]
pub struct ClearMsgMessage {
    pub channel_login: String,
    pub sender_login: String,
    pub message_id: String,
    pub message_text: String,
}

#[verifier::ext_equal]
pub struct ClearMsgV {
    pub channel_login: Seq<char>,
    pub sender_login: Seq<char>,
    pub message_id: Seq<char>,
    pub message_text: Seq<char>,
}

impl View for ClearMsgMessage {
    type V = ClearMsgV;

    open spec fn view(&self) -> ClearMsgV {
        ClearMsgV {
            channel_login: self.channel_login@,
            sender_login: self.sender_login@,
            message_id: self.message_id@,
            message_text: self.message_text@,
        }
    }
}

/// Confirmation that a channel has been joined.
#[derive(Debug, Clone, PartialEq, Eq)]
pub struct JoinMessage {
    pub channel_login: String,
    pub user_login: String,
}

#[verifier::ext_equal]
pub struct JoinV {
    pub channel_login: Seq<char>,
    pub user_login: Seq<char>,
}

impl View for JoinMessage {
    type V = JoinV;

    open spec fn view(&self) -> JoinV {
        JoinV { channel_login: self.channel_login@, user_login: self.user_login@ }
    }
}

/// Notification that a user has left the channel.
#[derive(Debug, Clone, PartialEq, Eq)]
pub struct PartMessage {
    pub channel_login: String,
    pub user_login: String,
}

#[verifier::ext_equal]
pub struct PartV {
    pub channel_login: Seq<char>,
    pub user_login: Seq<char>,
}

impl View for PartMessage {
    type V = PartV;

    open spec fn view(&self) -> PartV {
        PartV { channel_login: self.channel_login@, user_login: self.user_login@ }
    }
}

/// A keepalive probe from the server.
#[derive(Debug, Clone, PartialEq, Eq)]
pub struct PingMessage {}

/// The answer to a keepalive probe.
#[derive(Debug, Clone, PartialEq, Eq)]
pub struct PongMessage {}

/// The server's request to reconnect.
#[derive(Debug, Clone, PartialEq, Eq)]
pub struct ReconnectMessage {}

/// The identity snapshot of the connected user across all channels.
#[derive(Debug, Clone, PartialEq, Eq)]
pub struct GlobalUserStateMessage {
    pub user_id: String,
    pub user_name: String,
}

#[verifier::ext_equal]
pub struct GlobalUserStateV {
    pub user_id: Seq<char>,
    pub user_name: Seq<char>,
}

impl View for GlobalUserStateMessage {
    type V = GlobalUserStateV;

    open spec fn view(&self) -> GlobalUserStateV {
        GlobalUserStateV { user_id: self.user_id@, user_name: self.user_name@ }
    }
}

/// The identity snapshot of the connected user within the joined channel.
#[derive(Debug, Clone, PartialEq, Eq)]
pub struct UserStateMessage {
    pub user_name: String,
}

#[verifier::ext_equal]
pub struct UserStateV {
    pub user_name: Seq<char>,
}

impl View for UserStateMessage {
    type V = UserStateV;

    open spec fn view(&self) -> UserStateV {
        UserStateV { user_name: self.user_name@ }
    }
}

/// An announcement-style event such as a subscription or a raid.
#[derive(Debug, Clone, PartialEq, Eq)]
pub struct UserNoticeMessage {
    pub channel_login: String,
    pub sender_login: String,
    pub message_text: String,
}

#[verifier::ext_equal]
pub struct UserNoticeV {
    pub channel_login: Seq<char>,
    pub sender_login: Seq<char>,
    pub message_text: Seq<char>,
}

impl View for UserNoticeMessage {
    type V = UserNoticeV;

    open spec fn view(&self) -> UserNoticeV {
        UserNoticeV {
            channel_login: self.channel_login@,
            sender_login: self.sender_login@,
            message_text: self.message_text@,
        }
    }
}

/// A private message addressed to the connected user.
#[derive(Debug, Clone, PartialEq, Eq)]
pub struct WhisperMessage {
    pub sender_login: String,
    pub message_text: String,
}

#[verifier::ext_equal]
pub struct WhisperV {
    pub sender_login: Seq<char>,
    pub message_text: Seq<char>,
}

impl View for WhisperMessage {
    type V = WhisperV;

    open spec fn view(&self) -> WhisperV {
        WhisperV { sender_login: self.sender_login@, message_text: self.message_text@ }
    }
}

/// A normalized protocol event. Exactly one variant is populated; protocol
/// message kinds the engine does not model never become events.
#[derive(Debug, Clone, PartialEq, Eq)]
pub enum TwitchEvent {
    ClearChat(ClearChatMessage),
    ClearMsg(ClearMsgMessage),
    GlobalUserState(GlobalUserStateMessage),
    Join(JoinMessage),
    Notice(NoticeMessage),
    Part(PartMessage),
    Ping(PingMessage),
    Pong(PongMessage),
    Privmsg(PrivmsgMessage),
    Reconnect(ReconnectMessage),
    RoomState(RoomStateMessage),
    UserNotice(UserNoticeMessage),
    UserState(UserStateMessage),
    Whisper(WhisperMessage),
}

#[verifier::ext_equal]
pub enum TwitchEventV {
    ClearChat(ClearChatV),
    ClearMsg(ClearMsgV),
    GlobalUserState(GlobalUserStateV),
    Join(JoinV),
    Notice(NoticeV),
    Part(PartV),
    Ping,
    Pong,
    Privmsg(PrivmsgV),
    Reconnect,
    RoomState(RoomStateV),
    UserNotice(UserNoticeV),
    UserState(UserStateV),
    Whisper(WhisperV),
}

impl View for TwitchEvent {
    type V = TwitchEventV;

    open spec fn view(&self) -> TwitchEventV {
        match self {
            TwitchEvent::ClearChat(m) => TwitchEventV::ClearChat(m@),
            TwitchEvent::ClearMsg(m) => TwitchEventV::ClearMsg(m@),
            TwitchEvent::GlobalUserState(m) => TwitchEventV::GlobalUserState(m@),
            TwitchEvent::Join(m) => TwitchEventV::Join(m@),
            TwitchEvent::Notice(m) => TwitchEventV::Notice(m@),
            TwitchEvent::Part(m) => TwitchEventV::Part(m@),
            TwitchEvent::Ping(_) => TwitchEventV::Ping,
            TwitchEvent::Pong(_) => TwitchEventV::Pong,
            TwitchEvent::Privmsg(m) => TwitchEventV::Privmsg(m@),
            TwitchEvent::Reconnect(_) => TwitchEventV::Reconnect,
            TwitchEvent::RoomState(m) => TwitchEventV::RoomState(m@),
            TwitchEvent::UserNotice(m) => TwitchEventV::UserNotice(m@),
            TwitchEvent::UserState(m) => TwitchEventV::UserState(m@),
            TwitchEvent::Whisper(m) => TwitchEventV::Whisper(m@),
        }
    }
}

/// Whether some badge in the sequence carries the given name.
pub open spec fn has_badge(badges: Seq<BadgeV>, name: Seq<char>) -> bool {
    exists|i: int| 0 <= i < badges.len() && badges[i].name == name
}

/// Whether a message carries the role badge with the given name.
pub fn has_badge_named(badges: &Vec<Badge>, name: &String) -> (r: bool)
    ensures
        r == has_badge(badges@.map_values(|b: Badge| b@), name@),
{
    let ghost bv = badges@.map_values(|b: Badge| b@);
    let mut i: usize = 0;
    while i < badges.len()
        invariant
            bv == badges@.map_values(|b: Badge| b@),
            0 <= i <= badges.len(),
            forall|j: int| 0 <= j < i ==> bv[j].name != name@,
        decreases badges.len() - i,
    {
        if badges[i].name == *name {
            assert(bv[i as int].name == name@);
            return true;
        }
        i = i + 1;
    }
    false
}

/// The role and annotation queries of a chat message, and the annotation
/// updates the reconciliation applies. Annotations are additive: each
/// `mark` call sets one flag and leaves everything else as it was.
pub trait PrivmsgMessageExt: Sized {
    spec fn spec_by_broadcaster(&self) -> bool;

    spec fn spec_by_lead_mod(&self) -> bool;

    spec fn spec_by_mod(&self) -> bool;

    spec fn spec_by_vip(&self) -> bool;

    spec fn spec_by_subscriber(&self) -> bool;

    spec fn spec_first_message(&self) -> bool;

    spec fn spec_deleted(&self) -> bool;

    spec fn spec_timed_out(&self) -> bool;

    spec fn spec_banned(&self) -> bool;

    spec fn spec_with_deleted(&self) -> Self;

    spec fn spec_with_timed_out(&self) -> Self;

    spec fn spec_with_banned(&self) -> Self;

    fn is_by_broadcaster(&self) -> (r: bool)
        ensures
            r == self.spec_by_broadcaster(),
    ;

    fn is_by_lead_mod(&self) -> (r: bool)
        ensures
            r == self.spec_by_lead_mod(),
    ;

    fn is_by_mod(&self) -> (r: bool)
        ensures
            r == self.spec_by_mod(),
    ;

    fn is_by_vip(&self) -> (r: bool)
        ensures
            r == self.spec_by_vip(),
    ;

    fn is_by_subscriber(&self) -> (r: bool)
        ensures
            r == self.spec_by_subscriber(),
    ;

    fn is_by_regular_viewer(&self) -> (r: bool)
        ensures
            r == (!self.spec_by_broadcaster() && !self.spec_by_mod() && !self.spec_by_vip()
                && !self.spec_by_subscriber()),
    ;

    fn is_first_message(&self) -> (r: bool)
        ensures
            r == self.spec_first_message(),
    ;

    fn is_deleted(&self) -> (r: bool)
        ensures
            r == self.spec_deleted(),
    ;

    fn is_timeouted(&self) -> (r: bool)
        ensures
            r == self.spec_timed_out(),
    ;

    fn is_banned(&self) -> (r: bool)
        ensures
            r == self.spec_banned(),
    ;

    fn mark_deleted(&mut self)
        ensures
            *final(self) == old(self).spec_with_deleted(),
    ;

    fn mark_timeouted(&mut self)
        ensures
            *final(self) == old(self).spec_with_timed_out(),
    ;

    fn mark_banned(&mut self)
        ensures
            *final(self) == old(self).spec_with_banned(),
    ;
}

impl PrivmsgMessageExt for PrivmsgMessage {
    open spec fn spec_by_broadcaster(&self) -> bool {
        has_badge(self@.badges, "broadcaster"@)
    }

    open spec fn spec_by_lead_mod(&self) -> bool {
        has_badge(self@.badges, "lead_moderator"@)
    }

    open spec fn spec_by_mod(&self) -> bool {
        has_badge(self@.badges, "moderator"@)
    }

    open spec fn spec_by_vip(&self) -> bool {
        has_badge(self@.badges, "vip"@)
    }

    open spec fn spec_by_subscriber(&self) -> bool {
        has_badge(self@.badges, "subscriber"@)
    }

    open spec fn spec_first_message(&self) -> bool {
        self.first_message
    }

    open spec fn spec_deleted(&self) -> bool {
        self.deleted
    }

    open spec fn spec_timed_out(&self) -> bool {
        self.timed_out
    }

    open spec fn spec_banned(&self) -> bool {
        self.banned
    }

    open spec fn spec_with_deleted(&self) -> PrivmsgMessage {
        PrivmsgMessage { deleted: true, ..(*self) }
    }

    open spec fn spec_with_timed_out(&self) -> PrivmsgMessage {
        PrivmsgMessage { timed_out: true, ..(*self) }
    }

    open spec fn spec_with_banned(&self) -> PrivmsgMessage {
        PrivmsgMessage { banned: true, ..(*self) }
    }

    fn is_by_broadcaster(&self) -> (r: bool) {
        let key = String::from_str("broadcaster");
        has_badge_named(&self.badges, &key)
    }

    fn is_by_lead_mod(&self) -> (r: bool) {
        let key = String::from_str("lead_moderator");
        has_badge_named(&self.badges, &key)
    }

    fn is_by_mod(&self) -> (r: bool) {
        let key = String::from_str("moderator");
        has_badge_named(&self.badges, &key)
    }

    fn is_by_vip(&self) -> (r: bool) {
        let key = String::from_str("vip");
        has_badge_named(&self.badges, &key)
    }

    fn is_by_subscriber(&self) -> (r: bool) {
        let key = String::from_str("subscriber");
        has_badge_named(&self.badges, &key)
    }

    fn is_by_regular_viewer(&self) -> (r: bool) {
        !self.is_by_broadcaster() && !self.is_by_mod() && !self.is_by_vip()
            && !self.is_by_subscriber()
    }

    fn is_first_message(&self) -> (r: bool) {
        self.first_message
    }

    fn is_deleted(&self) -> (r: bool) {
        self.deleted
    }

    fn is_timeouted(&self) -> (r: bool) {
        self.timed_out
    }

    fn is_banned(&self) -> (r: bool) {
        self.banned
    }

    fn mark_deleted(&mut self) {
        self.deleted = true;
    }

    fn mark_timeouted(&mut self) {
        self.timed_out = true;
    }

    fn mark_banned(&mut self) {
        self.banned = true;
    }
}

/// A raw protocol message as the connection layer hands it over. The
/// `Generic` variant stands for every message kind the engine does not model
/// and carries the raw line unparsed.
#[derive(Debug, Clone, PartialEq, Eq)]
pub enum ServerMessage {
    ClearChat(ClearChatMessage),
    ClearMsg(ClearMsgMessage),
    GlobalUserState(GlobalUserStateMessage),
    Join(JoinMessage),
    Notice(NoticeMessage),
    Part(PartMessage),
    Ping(PingMessage),
    Pong(PongMessage),
    Privmsg(PrivmsgMessage),
    Reconnect(ReconnectMessage),
    RoomState(RoomStateMessage),
    UserNotice(UserNoticeMessage),
    UserState(UserStateMessage),
    Whisper(WhisperMessage),
    Generic(String),
}

impl TwitchEvent {
    /// Normalizes a raw protocol message: every supported message kind maps
    /// one to one onto an event; unsupported kinds are dropped with a unit
    /// error, which callers treat as a silent skip.
    pub fn try_from(message: ServerMessage) -> (r: Result<TwitchEvent, ()>)
        ensures
            r == match message {
                ServerMessage::ClearChat(m) => Ok::<TwitchEvent, ()>(TwitchEvent::ClearChat(m)),
                ServerMessage::ClearMsg(m) => Ok(TwitchEvent::ClearMsg(m)),
                ServerMessage::GlobalUserState(m) => Ok(TwitchEvent::GlobalUserState(m)),
                ServerMessage::Join(m) => Ok(TwitchEvent::Join(m)),
                ServerMessage::Notice(m) => Ok(TwitchEvent::Notice(m)),
                ServerMessage::Part(m) => Ok(TwitchEvent::Part(m)),
                ServerMessage::Ping(m) => Ok(TwitchEvent::Ping(m)),
                ServerMessage::Pong(m) => Ok(TwitchEvent::Pong(m)),
                ServerMessage::Privmsg(m) => Ok(TwitchEvent::Privmsg(m)),
                ServerMessage::Reconnect(m) => Ok(TwitchEvent::Reconnect(m)),
                ServerMessage::RoomState(m) => Ok(TwitchEvent::RoomState(m)),
                ServerMessage::UserNotice(m) => Ok(TwitchEvent::UserNotice(m)),
                ServerMessage::UserState(m) => Ok(TwitchEvent::UserState(m)),
                ServerMessage::Whisper(m) => Ok(TwitchEvent::Whisper(m)),
                ServerMessage::Generic(_) => Err(()),
            },
    {
        match message {
            ServerMessage::ClearChat(m) => Ok(TwitchEvent::ClearChat(m)),
            ServerMessage::ClearMsg(m) => Ok(TwitchEvent::ClearMsg(m)),
            ServerMessage::GlobalUserState(m) => Ok(TwitchEvent::GlobalUserState(m)),
            ServerMessage::Join(m) => Ok(TwitchEvent::Join(m)),
            ServerMessage::Notice(m) => Ok(TwitchEvent::Notice(m)),
            ServerMessage::Part(m) => Ok(TwitchEvent::Part(m)),
            ServerMessage::Ping(m) => Ok(TwitchEvent::Ping(m)),
            ServerMessage::Pong(m) => Ok(TwitchEvent::Pong(m)),
            ServerMessage::Privmsg(m) => Ok(TwitchEvent::Privmsg(m)),
            ServerMessage::Reconnect(m) => Ok(TwitchEvent::Reconnect(m)),
            ServerMessage::RoomState(m) => Ok(TwitchEvent::RoomState(m)),
            ServerMessage::UserNotice(m) => Ok(TwitchEvent::UserNotice(m)),
            ServerMessage::UserState(m) => Ok(TwitchEvent::UserState(m)),
            ServerMessage::Whisper(m) => Ok(TwitchEvent::Whisper(m)),
            ServerMessage::Generic(_) => Err(()),
        }
    }
}

} // verus!
