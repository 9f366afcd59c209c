//! The chat tab state: the owned event history, the channel mode flags,
//! and the operator's display filter settings.

use vstd::prelude::*;

use crate::events::{has_badge, PrivmsgMessageExt, PrivmsgV, TwitchEvent, TwitchEventV};
use crate::search::{query_accepts, query_is_valid, query_matches, query_valid};

verus! {

/// The state backing the chat view: the event history together with the
/// channel's mode flags and the operator's filter choices.
pub struct ChatState {
    /// The event history, oldest first.
    pub events: Vec<TwitchEvent>,
    /// Slow mode delay in seconds, when slow mode is on.
    pub is_slow_mode: Option<u64>,
    pub is_emote_only: bool,
    /// Required follow age in seconds, when follower-only mode is on.
    pub is_follow_only: Option<u64>,
    pub is_subscriber_only: bool,
    pub show_messages_by_broadcaster: bool,
    pub show_messages_by_moderator: bool,
    pub show_messages_by_vip: bool,
    pub show_messages_by_subscriber: bool,
    pub show_messages_by_regular_viewer: bool,
    pub show_notices: bool,
    pub show_messages: bool,
    pub show_follows: bool,
    pub show_subscriptions: bool,
    pub show_bits: bool,
    pub show_raids: bool,
    /// Case-insensitive search over sender names; empty means no constraint.
    pub user_query: String,
    /// Whether the user query is a well-formed search pattern.
    pub user_query_valid: bool,
    /// Case-insensitive search over message texts; empty means no constraint.
    pub message_query: String,
    /// Whether the message query is a well-formed search pattern.
    pub message_query_valid: bool,
    /// The draft text of the send box.
    pub message_input: String,
}

/// A fresh chat state: empty history, no mode active, everything shown,
/// no search constraint.
pub open spec fn chat_is_default(c: ChatState) -> bool {
    &&& c.events@ == Seq::<TwitchEvent>::empty()
    &&& c.is_slow_mode is None
    &&& c.is_emote_only == false
    &&& c.is_follow_only is None
    &&& c.is_subscriber_only == false
    &&& c.show_messages_by_broadcaster == true
    &&& c.show_messages_by_moderator == true
    &&& c.show_messages_by_vip == true
    &&& c.show_messages_by_subscriber == true
    &&& c.show_messages_by_regular_viewer == true
    &&& c.show_notices == true
    &&& c.show_messages == true
    &&& c.show_follows == true
    &&& c.show_subscriptions == true
    &&& c.show_bits == true
    &&& c.show_raids == true
    &&& c.user_query@ == Seq::<char>::empty()
    &&& c.user_query_valid == true
    &&& c.message_query@ == Seq::<char>::empty()
    &&& c.message_query_valid == true
    &&& c.message_input@ == Seq::<char>::empty()
}

impl Default for ChatState {
    fn default() -> (c: ChatState)
        ensures
            chat_is_default(c),
    {
        ChatState {
            events: Vec::new(),
            is_slow_mode: None,
            is_emote_only: false,
            is_follow_only: None,
            is_subscriber_only: false,
            show_messages_by_broadcaster: true,
            show_messages_by_moderator: true,
            show_messages_by_vip: true,
            show_messages_by_subscriber: true,
            show_messages_by_regular_viewer: true,
            show_notices: true,
            show_messages: true,
            show_follows: true,
            show_subscriptions: true,
            show_bits: true,
            show_raids: true,
            user_query: String::new(),
            user_query_valid: true,
            message_query: String::new(),
            message_query_valid: true,
            message_input: String::new(),
        }
    }
}

/// A sender with none of the recognized role badges.
pub open spec fn is_regular_viewer(p: PrivmsgV) -> bool {
    &&& !has_badge(p.badges, "broadcaster"@)
    &&& !has_badge(p.badges, "moderator"@)
    &&& !has_badge(p.badges, "vip"@)
    &&& !has_badge(p.badges, "subscriber"@)
}

/// The display filter: joins always show, notices by choice, chat
/// messages by kind, sender role and the two search queries; every other
/// event kind stays out of the rendered view (it is still retained in
/// the history).
pub open spec fn event_visible(c: ChatState, e: TwitchEventV) -> bool {
    match e {
        TwitchEventV::Join(_) => true,
        TwitchEventV::Notice(_) => c.show_notices,
        TwitchEventV::Privmsg(p) => {
            &&& c.show_messages
            &&& (c.show_messages_by_broadcaster || !has_badge(p.badges, "broadcaster"@))
            &&& (c.show_messages_by_moderator || !has_badge(p.badges, "moderator"@))
            &&& (c.show_messages_by_vip || !has_badge(p.badges, "vip"@))
            &&& (c.show_messages_by_subscriber || !has_badge(p.badges, "subscriber"@))
            &&& (c.show_messages_by_regular_viewer || !is_regular_viewer(p))
            &&& query_matches(c.user_query@, p.sender.name)
            &&& query_matches(c.message_query@, p.message_text)
        },
        _ => false,
    }
}

impl ChatState {
    /// Decides whether the filter settings let an event through to the
    /// rendered view.
    pub fn event_passes_filter(&self, event: &TwitchEvent) -> (r: bool)
        ensures
            r == event_visible(*self, event@),
    {
        match event {
            TwitchEvent::Join(_) => true,
            TwitchEvent::Notice(_) => self.show_notices,
            TwitchEvent::Privmsg(p) => {
                if !self.show_messages {
                    return false;
                }
                if !self.show_messages_by_broadcaster && p.is_by_broadcaster() {
                    return false;
                }
                if !self.show_messages_by_moderator && p.is_by_mod() {
                    return false;
                }
                if !self.show_messages_by_vip && p.is_by_vip() {
                    return false;
                }
                if !self.show_messages_by_subscriber && p.is_by_subscriber() {
                    return false;
                }
                if !self.show_messages_by_regular_viewer && p.is_by_regular_viewer() {
                    return false;
                }
                if !query_accepts(&self.user_query, &p.sender.name) {
                    return false;
                }
                if !query_accepts(&self.message_query, &p.message_text) {
                    return false;
                }
                true
            },
            _ => false,
        }
    }

    /// Recomputes whether the two search queries are usable patterns,
    /// touching nothing else. The display marks an unusable query; it
    /// never constrains the view.
    pub fn refresh_query_validity(&mut self)
        ensures
            *final(self) == (ChatState {
                user_query_valid: query_is_valid(old(self).user_query@),
                message_query_valid: query_is_valid(old(self).message_query@),
                ..*old(self)
            }),
    {
        let uv = query_valid(&self.user_query);
        let mv = query_valid(&self.message_query);
        self.user_query_valid = uv;
        self.message_query_valid = mv;
    }
}

} // verus!
