//! The reconciliation engine: the single owner of the event history, the
//! channel session and the account session.
//!
//! All asynchronous producers (the ingestion worker, command completions,
//! timers) are reduced by the caller to plain values and handed to the
//! methods here one at a time, in arrival order; this loop is the only
//! place that mutates the shared state. Each method's contract pins the
//! new state component by component; the history transition itself is the
//! spec function [`events_after_event`]. Where a transition asks for
//! outside work, the method returns an [`EngineAction`] for the caller to
//! perform.

use vstd::prelude::*;

use crate::chat::ChatState;
use crate::events::{
    ClearChatAction, ClearChatActionV, FollowersOnlyMode, NoticeMessage, NoticeV, RoomStateV,
    TwitchEvent, TwitchEventV,
};
use crate::history::{
    ban_all_from, delete_all_unannotated_from, delete_message, delete_message_by_id, hview,
    lemma_hview_push, mark_all_banned, mark_all_timed_out, mark_unannotated_deleted,
    timeout_all_from,
};
use crate::tabs::SettingsState;
use crate::text::{all_blank, decimal_string, is_blank, spec_decimal};

verus! {

/// Timeouts shorter than this many seconds are the platform's idiom for
/// removing messages and are reclassified as deletions.
pub const SHORT_TIMEOUT_SECS: u64 = 5;

/// The linked account: the identity of the logged-in user and the bearer
/// credentials the command dispatcher sends with each call.
#[derive(Debug, Clone, PartialEq, Eq)]
pub struct TwitchAccount {
    pub user_id: String,
    pub login: String,
    pub access_token: String,
    pub refresh_token: Option<String>,
}

/// The last fetched snapshot of the connected channel.
#[derive(Debug, Clone, PartialEq, Eq)]
pub struct ChannelInfo {
    pub broadcaster_id: String,
    pub broadcaster_login: String,
    pub title: String,
}

/// The severity of a user-visible notice.
#[derive(Debug, Clone, Copy, PartialEq, Eq)]
pub enum ToastKind {
    Info,
    Success,
    Error,
}

/// A short user-visible notice.
#[derive(Debug, Clone, PartialEq, Eq)]
pub struct Toast {
    pub kind: ToastKind,
    pub text: String,
}

#[verifier::ext_equal]
pub struct ToastV {
    pub kind: ToastKind,
    pub text: Seq<char>,
}

impl View for Toast {
    type V = ToastV;

    open spec fn view(&self) -> ToastV {
        ToastV { kind: self.kind, text: self.text@ }
    }
}

/// Why a connect request was refused: the name was empty or whitespace
/// only, or the protocol layer rejected the join.
#[derive(Debug, Clone, Copy, PartialEq, Eq)]
pub enum ConnectError {
    Empty,
    Rejected,
}

/// Outside work a transition asks the caller to perform.
#[derive(Debug, Clone, PartialEq, Eq)]
pub enum EngineAction {
    /// Persist the settings.
    SaveSettings,
    /// Restore the default window layout.
    ResetLayout,
    /// Fetch the channel information of the given login and post the
    /// result back as a `ChannelInfoUpdated` diff.
    FetchChannelInfo(String),
}

/// A message on the diff channel: how asynchronous producers (timers,
/// command completions, the account flows) reach the engine.
#[derive(Debug, Clone, PartialEq, Eq)]
pub enum AppStateDiff {
    InternetConnected,
    InternetDisconnected,
    SaveSettings,
    ResetLayout,
    ShowToast(Toast),
    AccountLinked(TwitchAccount),
    ChannelInfoUpdated(ChannelInfo),
    SetSettingsChannelError(String),
}

/// The engine state: everything the reconciliation loop owns.
pub struct AppState {
    pub connected_to_internet: bool,
    /// Whether a join was requested for the current session.
    pub did_we_try_to_join: bool,
    /// Whether the current session's join has been confirmed.
    pub did_we_join: bool,
    /// The identifier of the live ingestion worker, if one is installed.
    pub twitch_irc_worker: Option<u64>,
    /// The identifier the next worker will receive; never reused.
    pub next_worker_id: u64,
    pub connected_channel_name: Option<String>,
    pub connected_channel_info: Option<ChannelInfo>,
    pub twitch_account: Option<TwitchAccount>,
    /// User-visible notices in the order they were raised; the caller
    /// drains and displays them.
    pub toasts: Vec<Toast>,
    pub chat: ChatState,
    pub settings: SettingsState,
}

/// An engine-made notice event with the given text.
pub open spec fn notice_event(text: Seq<char>) -> TwitchEventV {
    TwitchEventV::Notice(NoticeV { channel_login: None, message_id: None, message_text: text })
}

/// The notice appended when a user is timed out.
pub open spec fn timeout_notice_text(user_login: Seq<char>, seconds: u64) -> Seq<char> {
    user_login + " has been timed out for "@ + spec_decimal(seconds as int) + " seconds."@
}

/// The notice appended when a user is banned.
pub open spec fn ban_notice_text(user_login: Seq<char>) -> Seq<char> {
    user_login + " has been banned."@
}

/// The notice appended when the chat is cleared.
pub open spec fn chat_cleared_notice_text() -> Seq<char> {
    "Chat has been cleared."@
}

/// The toast raised when an account is linked.
pub open spec fn login_toast(login: Seq<char>) -> ToastV {
    ToastV { kind: ToastKind::Success, text: "Logged in as "@ + login + "."@ }
}

/// The event application algorithm, seen on the history alone: keepalives
/// and room-state snapshots leave it as it is, `ClearMsg` deletes the
/// newest matching message, `ClearChat` annotates the affected messages
/// and appends the notice the operator should see (retaining every
/// message: this is a moderation tool, wiping the log would defeat it),
/// and every other event is appended verbatim.
pub open spec fn events_after_event(h: Seq<TwitchEventV>, e: TwitchEventV) -> Seq<TwitchEventV> {
    match e {
        TwitchEventV::Ping => h,
        TwitchEventV::Pong => h,
        TwitchEventV::RoomState(_) => h,
        TwitchEventV::ClearMsg(cm) => delete_message_by_id(h, cm.message_id),
        TwitchEventV::ClearChat(cc) => match cc.action {
            ClearChatActionV::ChatCleared => h.push(notice_event(chat_cleared_notice_text())),
            ClearChatActionV::UserTimedOut { user_login, user_id, timeout_seconds } => if
            timeout_seconds < SHORT_TIMEOUT_SECS {
                mark_unannotated_deleted(h, user_id)
            } else {
                mark_all_timed_out(h, user_id).push(
                    notice_event(timeout_notice_text(user_login, timeout_seconds)),
                )
            },
            ClearChatActionV::UserBanned { user_login, user_id } => mark_all_banned(
                h,
                user_id,
            ).push(notice_event(ban_notice_text(user_login))),
        },
        _ => h.push(e),
    }
}

/// The channel's mode flags, taken together.
pub struct ChatModes {
    pub slow_mode: Option<u64>,
    pub emote_only: bool,
    pub follow_only: Option<u64>,
    pub subscriber_only: bool,
}

pub open spec fn modes_of(c: ChatState) -> ChatModes {
    ChatModes {
        slow_mode: c.is_slow_mode,
        emote_only: c.is_emote_only,
        follow_only: c.is_follow_only,
        subscriber_only: c.is_subscriber_only,
    }
}

/// How a room-state snapshot overwrites the mode flags: only the modes
/// the snapshot mentions change; a zero slow-mode delay clears slow mode;
/// a follower-only mode enabled with zero duration counts as disabled.
pub open spec fn room_state_modes(m: ChatModes, rs: RoomStateV) -> ChatModes {
    ChatModes {
        slow_mode: match rs.slow_mode {
            Some(d) => if d == 0 {
                None
            } else {
                Some(d)
            },
            None => m.slow_mode,
        },
        emote_only: match rs.emote_only {
            Some(b) => b,
            None => m.emote_only,
        },
        follow_only: match rs.followers_only {
            Some(FollowersOnlyMode::Enabled(d)) => if d == 0 {
                None
            } else {
                Some(d)
            },
            Some(FollowersOnlyMode::Disabled) => None,
            None => m.follow_only,
        },
        subscriber_only: match rs.subscribers_only {
            Some(b) => b,
            None => m.subscriber_only,
        },
    }
}

/// The event application algorithm, seen on the mode flags alone.
pub open spec fn modes_after_event(m: ChatModes, e: TwitchEventV) -> ChatModes {
    match e {
        TwitchEventV::RoomState(rs) => room_state_modes(m, rs),
        _ => m,
    }
}

pub open spec fn is_join(e: TwitchEventV) -> bool {
    e is Join
}

/// The display filter settings, which reconciliation never touches.
pub open spec fn same_chat_filters(a: ChatState, b: ChatState) -> bool {
    &&& a.show_messages_by_broadcaster == b.show_messages_by_broadcaster
    &&& a.show_messages_by_moderator == b.show_messages_by_moderator
    &&& a.show_messages_by_vip == b.show_messages_by_vip
    &&& a.show_messages_by_subscriber == b.show_messages_by_subscriber
    &&& a.show_messages_by_regular_viewer == b.show_messages_by_regular_viewer
    &&& a.show_notices == b.show_notices
    &&& a.show_messages == b.show_messages
    &&& a.show_follows == b.show_follows
    &&& a.show_subscriptions == b.show_subscriptions
    &&& a.show_bits == b.show_bits
    &&& a.show_raids == b.show_raids
    &&& a.user_query == b.user_query
    &&& a.user_query_valid == b.user_query_valid
    &&& a.message_query == b.message_query
    &&& a.message_query_valid == b.message_query_valid
    &&& a.message_input == b.message_input
}

pub open spec fn same_chat_modes(a: ChatState, b: ChatState) -> bool {
    modes_of(a) == modes_of(b)
}

/// The supervisor state: the worker bookkeeping and the channel session.
pub open spec fn same_supervisor(a: AppState, b: AppState) -> bool {
    &&& a.did_we_try_to_join == b.did_we_try_to_join
    &&& a.twitch_irc_worker == b.twitch_irc_worker
    &&& a.next_worker_id == b.next_worker_id
    &&& a.connected_channel_name == b.connected_channel_name
    &&& a.connected_channel_info == b.connected_channel_info
}

pub open spec fn same_session_state(a: AppState, b: AppState) -> bool {
    &&& same_supervisor(a, b)
    &&& a.did_we_join == b.did_we_join
}

/// Everything around the chat state: connectivity, account, toasts,
/// settings.
pub open spec fn same_surroundings(a: AppState, b: AppState) -> bool {
    &&& a.connected_to_internet == b.connected_to_internet
    &&& a.twitch_account == b.twitch_account
    &&& a.toasts == b.toasts
    &&& a.settings == b.settings
}

/// A transition that changes the event history and nothing else.
pub open spec fn only_events_changed(pre: AppState, post: AppState) -> bool {
    &&& same_chat_modes(post.chat, pre.chat)
    &&& same_chat_filters(post.chat, pre.chat)
    &&& post.did_we_join == pre.did_we_join
    &&& same_supervisor(post, pre)
    &&& same_surroundings(post, pre)
}

/// What one ingested event does to the whole engine state.
pub open spec fn register_event_rel(pre: AppState, post: AppState, e: TwitchEventV) -> bool {
    &&& hview(post.chat.events@) == events_after_event(hview(pre.chat.events@), e)
    &&& modes_of(post.chat) == modes_after_event(modes_of(pre.chat), e)
    &&& post.did_we_join == (pre.did_we_join || is_join(e))
    &&& same_chat_filters(post.chat, pre.chat)
    &&& same_supervisor(post, pre)
    &&& same_surroundings(post, pre)
}

/// The channel-information fetch that follows a confirmed join when an
/// account is linked.
pub open spec fn fetch_action_of(s: AppState, r: Option<EngineAction>) -> bool {
    match (s.twitch_account, s.connected_channel_name) {
        (Some(_), Some(n)) => r == Some(EngineAction::FetchChannelInfo(n)),
        _ => r is None,
    }
}

/// The outside work one ingested event asks for.
pub open spec fn register_action_rel(pre: AppState, e: TwitchEventV, r: Option<
    EngineAction,
>) -> bool {
    if is_join(e) {
        fetch_action_of(pre, r)
    } else {
        r is None
    }
}

/// The outside work one diff asks for.
pub open spec fn diff_action_rel(pre: AppState, diff: AppStateDiff, r: Option<
    EngineAction,
>) -> bool {
    match diff {
        AppStateDiff::SaveSettings => r == Some(EngineAction::SaveSettings),
        AppStateDiff::ResetLayout => r == Some(EngineAction::ResetLayout),
        AppStateDiff::AccountLinked(_) => match pre.connected_channel_name {
            Some(n) => if pre.did_we_join {
                r == Some(EngineAction::FetchChannelInfo(n))
            } else {
                r is None
            },
            None => r is None,
        },
        _ => r is None,
    }
}

fn make_notice(text: String) -> (e: TwitchEvent)
    ensures
        e@ == notice_event(text@),
{
    let e = TwitchEvent::Notice(
        NoticeMessage { channel_login: None, message_id: None, message_text: text },
    );
    proof {
        assert(e@ =~= notice_event(text@));
    }
    e
}

fn timeout_notice(user_login: &String, seconds: u64) -> (t: String)
    ensures
        t@ == timeout_notice_text(user_login@, seconds),
{
    let mut t = user_login.clone();
    t.append(" has been timed out for ");
    let d = decimal_string(seconds);
    t.append(d.as_str());
    t.append(" seconds.");
    t
}

fn ban_notice(user_login: &String) -> (t: String)
    ensures
        t@ == ban_notice_text(user_login@),
{
    let mut t = user_login.clone();
    t.append(" has been banned.");
    t
}

fn mk_login_toast(login: &String) -> (t: Toast)
    ensures
        t@ == login_toast(login@),
{
    let mut text = String::from_str("Logged in as ");
    text.append(login.as_str());
    text.append(".");
    Toast { kind: ToastKind::Success, text }
}

impl AppState {
    /// A fresh engine: disconnected, unlinked, empty history.
    pub fn new() -> (s: AppState)
        ensures
            s.connected_to_internet == true,
            !s.did_we_try_to_join,
            !s.did_we_join,
            s.twitch_irc_worker is None,
            s.next_worker_id == 0,
            s.connected_channel_name is None,
            s.connected_channel_info is None,
            s.twitch_account is None,
            s.toasts@ == Seq::<Toast>::empty(),
            crate::chat::chat_is_default(s.chat),
            s.settings.channel_name@ == Seq::<char>::empty(),
            s.settings.channel_name_error is None,
    {
        AppState {
            connected_to_internet: true,
            did_we_try_to_join: false,
            did_we_join: false,
            twitch_irc_worker: None,
            next_worker_id: 0,
            connected_channel_name: None,
            connected_channel_info: None,
            twitch_account: None,
            toasts: Vec::new(),
            chat: ChatState::default(),
            settings: SettingsState::default(),
        }
    }

    /// Appends one event verbatim to the history.
    fn append_event(&mut self, event: TwitchEvent)
        ensures
            hview(final(self).chat.events@) == hview(old(self).chat.events@).push(event@),
            only_events_changed(*old(self), *final(self)),
    {
        let ghost pre = self.chat.events@;
        self.chat.events.push(event);
        proof {
            lemma_hview_push(pre, self.chat.events@.last());
        }
    }

    /// Overwrites the mode flags with a room-state snapshot.
    #[verifier::rlimit(100)]
    fn apply_room_state_event(&mut self, rs: crate::events::RoomStateMessage)
        ensures
            final(self).chat == (ChatState {
                is_slow_mode: room_state_modes(modes_of(old(self).chat), rs@).slow_mode,
                is_emote_only: room_state_modes(modes_of(old(self).chat), rs@).emote_only,
                is_follow_only: room_state_modes(modes_of(old(self).chat), rs@).follow_only,
                is_subscriber_only: room_state_modes(modes_of(old(self).chat), rs@).subscriber_only,
                ..old(self).chat
            }),
            final(self).did_we_join == old(self).did_we_join,
            same_supervisor(*final(self), *old(self)),
            same_surroundings(*final(self), *old(self)),
    {
        let new_slow_mode: Option<u64> = match rs.slow_mode {
            Some(d) => if d == 0 {
                None
            } else {
                Some(d)
            },
            None => self.chat.is_slow_mode,
        };
        let new_emote_only: bool = match rs.emote_only {
            Some(b) => b,
            None => self.chat.is_emote_only,
        };
        let new_follow_only: Option<u64> = match rs.followers_only {
            Some(FollowersOnlyMode::Enabled(d)) => if d == 0 {
                None
            } else {
                Some(d)
            },
            Some(FollowersOnlyMode::Disabled) => None,
            None => self.chat.is_follow_only,
        };
        let new_subscriber_only: bool = match rs.subscribers_only {
            Some(b) => b,
            None => self.chat.is_subscriber_only,
        };
        self.chat.is_slow_mode = new_slow_mode;
        self.chat.is_emote_only = new_emote_only;
        self.chat.is_follow_only = new_follow_only;
        self.chat.is_subscriber_only = new_subscriber_only;
    }

    /// A chat-cleared event: the messages are retained; one informational
    /// notice is appended.
    fn apply_chat_cleared(&mut self)
        ensures
            hview(final(self).chat.events@) == hview(old(self).chat.events@).push(
                notice_event(chat_cleared_notice_text()),
            ),
            only_events_changed(*old(self), *final(self)),
    {
        let text = String::from_str("Chat has been cleared.");
        let notice = make_notice(text);
        self.append_event(notice);
    }

    /// A timeout event: short ones delete the user's unannotated messages
    /// and say nothing, real ones mark all of the user's messages timed
    /// out and append a notice stating the duration in seconds.
    fn apply_user_timeout(&mut self, user_login: &String, user_id: &String, timeout_seconds: u64)
        ensures
            hview(final(self).chat.events@) == (if timeout_seconds < SHORT_TIMEOUT_SECS {
                mark_unannotated_deleted(hview(old(self).chat.events@), user_id@)
            } else {
                mark_all_timed_out(hview(old(self).chat.events@), user_id@).push(
                    notice_event(timeout_notice_text(user_login@, timeout_seconds)),
                )
            }),
            only_events_changed(*old(self), *final(self)),
    {
        if timeout_seconds < SHORT_TIMEOUT_SECS {
            delete_all_unannotated_from(&mut self.chat.events, user_id);
        } else {
            timeout_all_from(&mut self.chat.events, user_id);
            let text = timeout_notice(user_login, timeout_seconds);
            let notice = make_notice(text);
            self.append_event(notice);
        }
    }

    /// A ban event: all of the user's messages are marked banned and a
    /// notice is appended.
    fn apply_user_ban(&mut self, user_login: &String, user_id: &String)
        ensures
            hview(final(self).chat.events@) == mark_all_banned(
                hview(old(self).chat.events@),
                user_id@,
            ).push(notice_event(ban_notice_text(user_login@))),
            only_events_changed(*old(self), *final(self)),
    {
        ban_all_from(&mut self.chat.events, user_id);
        let text = ban_notice(user_login);
        let notice = make_notice(text);
        self.append_event(notice);
    }

    /// Applies one ingested event to the owned state, in arrival order:
    /// the event application algorithm of the reconciliation loop.
    pub fn register_new_event(&mut self, event: TwitchEvent) -> (r: Option<EngineAction>)
        ensures
            register_event_rel(*old(self), *final(self), event@),
            register_action_rel(*old(self), event@, r),
    {
        match event {
            TwitchEvent::Ping(_) => None,
            TwitchEvent::Pong(_) => None,
            TwitchEvent::Join(j) => {
                self.did_we_join = true;
                let r = if self.twitch_account.is_some() {
                    match &self.connected_channel_name {
                        Some(name) => Some(EngineAction::FetchChannelInfo(name.clone())),
                        None => None,
                    }
                } else {
                    None
                };
                self.append_event(TwitchEvent::Join(j));
                r
            },
            TwitchEvent::RoomState(rs) => {
                self.apply_room_state_event(rs);
                None
            },
            TwitchEvent::ClearMsg(cm) => {
                delete_message(&mut self.chat.events, &cm.message_id);
                None
            },
            TwitchEvent::ClearChat(cc) => {
                match cc.action {
                    ClearChatAction::ChatCleared => self.apply_chat_cleared(),
                    ClearChatAction::UserTimedOut { user_login, user_id, timeout_seconds } => self
                        .apply_user_timeout(&user_login, &user_id, timeout_seconds),
                    ClearChatAction::UserBanned { user_login, user_id } => self.apply_user_ban(
                        &user_login,
                        &user_id,
                    ),
                }
                None
            },
            other => {
                self.append_event(other);
                None
            },
        }
    }

    /// Accepts an event from the worker that delivered it. Only the live
    /// worker reaches the state; whatever a superseded worker still
    /// delivers changes nothing at all.
    pub fn register_worker_event(&mut self, worker: u64, event: TwitchEvent) -> (r: Option<
        EngineAction,
    >)
        ensures
            old(self).twitch_irc_worker == Some(worker) ==> register_event_rel(
                *old(self),
                *final(self),
                event@,
            ) && register_action_rel(*old(self), event@, r),
            old(self).twitch_irc_worker != Some(worker) ==> *final(self) == *old(self) && r
                is None,
    {
        let live = match self.twitch_irc_worker {
            Some(w) => w == worker,
            None => false,
        };
        if live {
            self.register_new_event(event)
        } else {
            None
        }
    }

    /// A connect request. An empty or whitespace-only name is refused
    /// outright, touching nothing. Otherwise any previous worker is
    /// superseded, the history is cleared, and a fresh worker identifier
    /// bound to the new channel is installed and returned for the caller
    /// to start; the caller reports a rejected join back as a
    /// `SetSettingsChannelError` diff, which ends in the disconnected
    /// state.
    pub fn connect_channel(&mut self, name: &String) -> (r: Result<u64, ConnectError>)
        requires
            old(self).next_worker_id < u64::MAX,
        ensures
            all_blank(name@) ==> r == Err::<u64, ConnectError>(ConnectError::Empty) && *final(self)
                == *old(self),
            !all_blank(name@) ==> ({
                &&& r == Ok::<u64, ConnectError>(old(self).next_worker_id)
                &&& final(self).twitch_irc_worker == Some(old(self).next_worker_id)
                &&& final(self).next_worker_id == old(self).next_worker_id + 1
                &&& final(self).did_we_try_to_join
                &&& !final(self).did_we_join
                &&& final(self).connected_channel_name == Some(*name)
                &&& final(self).connected_channel_info is None
                &&& final(self).chat.events@ == Seq::<TwitchEvent>::empty()
                &&& same_chat_modes(final(self).chat, old(self).chat)
                &&& same_chat_filters(final(self).chat, old(self).chat)
                &&& final(self).settings.channel_name == *name
                &&& final(self).settings.channel_name_error is None
                &&& final(self).connected_to_internet == old(self).connected_to_internet
                &&& final(self).twitch_account == old(self).twitch_account
                &&& final(self).toasts == old(self).toasts
            }),
    {
        if is_blank(name.as_str()) {
            return Err(ConnectError::Empty);
        }
        let id = self.next_worker_id;
        self.next_worker_id = id + 1;
        self.twitch_irc_worker = Some(id);
        self.did_we_try_to_join = true;
        self.did_we_join = false;
        self.connected_channel_name = Some(name.clone());
        self.connected_channel_info = None;
        self.chat.events.clear();
        self.settings.channel_name = name.clone();
        self.settings.channel_name_error = None;
        Ok(id)
    }

    /// A disconnect request: the session is destroyed and the history
    /// cleared.
    pub fn disconnect_channel(&mut self)
        ensures
            !final(self).did_we_try_to_join,
            !final(self).did_we_join,
            final(self).twitch_irc_worker is None,
            final(self).next_worker_id == old(self).next_worker_id,
            final(self).connected_channel_name is None,
            final(self).connected_channel_info is None,
            final(self).chat.events@ == Seq::<TwitchEvent>::empty(),
            same_chat_modes(final(self).chat, old(self).chat),
            same_chat_filters(final(self).chat, old(self).chat),
            final(self).connected_to_internet == old(self).connected_to_internet,
            final(self).twitch_account == old(self).twitch_account,
            final(self).toasts == old(self).toasts,
            final(self).settings == old(self).settings,
    {
        self.did_we_try_to_join = false;
        self.did_we_join = false;
        self.twitch_irc_worker = None;
        self.connected_channel_name = None;
        self.connected_channel_info = None;
        self.chat.events.clear();
    }

    /// Applies one diff-channel message. Diffs update the sessions, the
    /// connectivity flag and the toast list; no diff ever touches the
    /// chat state: the history reflects only what the platform confirms.
    pub fn apply_diff(&mut self, diff: AppStateDiff) -> (r: Option<EngineAction>)
        ensures
            final(self).chat == old(self).chat,
            final(self).next_worker_id == old(self).next_worker_id,
            diff_action_rel(*old(self), diff, r),
            match diff {
                AppStateDiff::InternetConnected => ({
                    &&& final(self).connected_to_internet == true
                    &&& same_session_state(*final(self), *old(self))
                    &&& final(self).twitch_account == old(self).twitch_account
                    &&& final(self).toasts == old(self).toasts
                    &&& final(self).settings == old(self).settings
                }),
                AppStateDiff::InternetDisconnected => ({
                    &&& final(self).connected_to_internet == false
                    &&& same_session_state(*final(self), *old(self))
                    &&& final(self).twitch_account == old(self).twitch_account
                    &&& final(self).toasts == old(self).toasts
                    &&& final(self).settings == old(self).settings
                }),
                AppStateDiff::SaveSettings => *final(self) == *old(self),
                AppStateDiff::ResetLayout => *final(self) == *old(self),
                AppStateDiff::ShowToast(t) => ({
                    &&& final(self).toasts@ == old(self).toasts@.push(t)
                    &&& same_session_state(*final(self), *old(self))
                    &&& final(self).connected_to_internet == old(self).connected_to_internet
                    &&& final(self).twitch_account == old(self).twitch_account
                    &&& final(self).settings == old(self).settings
                }),
                AppStateDiff::AccountLinked(a) => ({
                    &&& final(self).twitch_account == Some(a)
                    &&& final(self).toasts@.len() == old(self).toasts@.len() + 1
                    &&& final(self).toasts@.last()@ == login_toast(a.login@)
                    &&& (forall|i: int|
                        0 <= i < old(self).toasts@.len() ==> final(self).toasts@[i] == old(
                            self,
                        ).toasts@[i])
                    &&& same_session_state(*final(self), *old(self))
                    &&& final(self).connected_to_internet == old(self).connected_to_internet
                    &&& final(self).settings == old(self).settings
                }),
                AppStateDiff::ChannelInfoUpdated(c) => ({
                    &&& final(self).connected_channel_info == Some(c)
                    &&& final(self).did_we_try_to_join == old(self).did_we_try_to_join
                    &&& final(self).did_we_join == old(self).did_we_join
                    &&& final(self).twitch_irc_worker == old(self).twitch_irc_worker
                    &&& final(self).connected_channel_name == old(self).connected_channel_name
                    &&& final(self).connected_to_internet == old(self).connected_to_internet
                    &&& final(self).twitch_account == old(self).twitch_account
                    &&& final(self).toasts == old(self).toasts
                    &&& final(self).settings == old(self).settings
                }),
                AppStateDiff::SetSettingsChannelError(e) => ({
                    &&& !final(self).did_we_try_to_join
                    &&& !final(self).did_we_join
                    &&& final(self).twitch_irc_worker is None
                    &&& final(self).connected_channel_name is None
                    &&& final(self).connected_channel_info is None
                    &&& final(self).settings.channel_name == old(self).settings.channel_name
                    &&& final(self).settings.channel_name_error == Some(e)
                    &&& final(self).connected_to_internet == old(self).connected_to_internet
                    &&& final(self).twitch_account == old(self).twitch_account
                    &&& final(self).toasts == old(self).toasts
                }),
            },
    {
        match diff {
            AppStateDiff::InternetConnected => {
                self.connected_to_internet = true;
                None
            },
            AppStateDiff::InternetDisconnected => {
                self.connected_to_internet = false;
                None
            },
            AppStateDiff::SaveSettings => Some(EngineAction::SaveSettings),
            AppStateDiff::ResetLayout => Some(EngineAction::ResetLayout),
            AppStateDiff::ShowToast(t) => {
                self.toasts.push(t);
                None
            },
            AppStateDiff::AccountLinked(a) => {
                let toast = mk_login_toast(&a.login);
                self.toasts.push(toast);
                let r = match &self.connected_channel_name {
                    Some(name) => if self.did_we_join {
                        Some(EngineAction::FetchChannelInfo(name.clone()))
                    } else {
                        None
                    },
                    None => None,
                };
                self.twitch_account = Some(a);
                r
            },
            AppStateDiff::ChannelInfoUpdated(c) => {
                self.connected_channel_info = Some(c);
                None
            },
            AppStateDiff::SetSettingsChannelError(e) => {
                self.did_we_try_to_join = false;
                self.did_we_join = false;
                self.twitch_irc_worker = None;
                self.connected_channel_name = None;
                self.connected_channel_info = None;
                self.settings.channel_name_error = Some(e);
                None
            },
        }
    }

    /// Forgets the linked account. Nothing else changes.
    pub fn unlink_twitch_account(&mut self)
        ensures
            *final(self) == (AppState { twitch_account: None, ..*old(self) }),
    {
        self.twitch_account = None;
    }

    /// Appends an engine-made notice with the given text to the history.
    pub fn show_notice(&mut self, message: String)
        ensures
            hview(final(self).chat.events@) == hview(old(self).chat.events@).push(
                notice_event(message@),
            ),
            only_events_changed(*old(self), *final(self)),
    {
        let notice = make_notice(message);
        self.append_event(notice);
    }
}

} // verus!
