//! The properties the engine holds of every input, stated in one place
//! and proved once and for all against the spec functions that the
//! methods' own contracts use.

use vstd::prelude::*;

use crate::engine::{
    chat_cleared_notice_text, events_after_event, notice_event, timeout_notice_text,
    ban_notice_text, SHORT_TIMEOUT_SECS,
};
use crate::events::{ClearChatActionV, ClearChatV, TwitchEventV};
use crate::history::{
    count_messages, delete_message_by_id, has_message_id, is_annotated, lemma_delete_by_id_hit,
    mark_all_banned, mark_all_timed_out, mark_unannotated_deleted, privmsg_with_banned,
    privmsg_with_deleted, privmsg_with_timed_out, short_timeout_one, timeout_one, ban_one,
};

verus! {

/// The history after a batch of deliveries, each tagged with the worker
/// that sent it: only deliveries of the live worker are applied, in
/// order; everything else is dropped.
pub open spec fn deliveries_applied(
    live: Option<u64>,
    h: Seq<TwitchEventV>,
    ds: Seq<(u64, TwitchEventV)>,
) -> Seq<TwitchEventV>
    decreases ds.len(),
{
    if ds.len() == 0 {
        h
    } else {
        let h1 = if live == Some(ds[0].0) {
            events_after_event(h, ds[0].1)
        } else {
            h
        };
        deliveries_applied(live, h1, ds.drop_first())
    }
}

/// At most one worker feeds the history. A connect request installs a
/// fresh worker identifier (`connect_channel` hands identifiers out in
/// strictly increasing order and clears the history), so every worker
/// superseded earlier carries a different identifier — and no batch of
/// deliveries from such workers, of any length and in any order, changes
/// the history at all.
pub proof fn lemma_superseded_workers_never_fill_history(
    live: u64,
    h: Seq<TwitchEventV>,
    ds: Seq<(u64, TwitchEventV)>,
)
    requires
        forall|k: int| 0 <= k < ds.len() ==> (#[trigger] ds[k]).0 != live,
    ensures
        deliveries_applied(Some(live), h, ds) == h,
    decreases ds.len(),
{
    if ds.len() > 0 {
        assert(ds[0].0 != live);
        assert(forall|k: int|
            0 <= k < ds.drop_first().len() ==> (#[trigger] ds.drop_first()[k]).0 != live);
        lemma_superseded_workers_never_fill_history(live, h, ds.drop_first());
    }
}

/// A `ClearMsg` annotates exactly the message whose id matches: when one
/// message carries the id and no other does (ids are unique by
/// construction), that message alone is marked deleted, however many
/// other messages its sender has.
pub proof fn lemma_clear_msg_targets_exactly(events: Seq<TwitchEventV>, x: Seq<char>, i: int)
    requires
        0 <= i < events.len(),
        has_message_id(events[i], x),
        forall|j: int| 0 <= j < events.len() && j != i ==> !has_message_id(
            #[trigger] events[j],
            x,
        ),
    ensures
        ({
            let after = delete_message_by_id(events, x);
            &&& after.len() == events.len()
            &&& (forall|j: int|
                0 <= j < events.len() && j != i ==> #[trigger] after[j] == events[j])
            &&& after[i] == (match events[i] {
                TwitchEventV::Privmsg(p) => TwitchEventV::Privmsg(privmsg_with_deleted(p)),
                e => e,
            })
        }),
{
    lemma_delete_by_id_hit(events, x, i);
}

/// A short timeout is a disguised delete: every not yet annotated chat
/// message of the user is marked deleted and never timed out, every
/// already annotated message and every other event is left untouched,
/// and nothing is appended.
pub proof fn lemma_short_timeout_reclassified_as_delete(events: Seq<TwitchEventV>, user_id: Seq<
    char,
>)
    ensures
        ({
            let after = mark_unannotated_deleted(events, user_id);
            &&& after.len() == events.len()
            &&& (forall|j: int|
                0 <= j < events.len() ==> #[trigger] after[j] == (match events[j] {
                    TwitchEventV::Privmsg(p) => if p.sender.id == user_id && !is_annotated(p) {
                        TwitchEventV::Privmsg(privmsg_with_deleted(p))
                    } else {
                        events[j]
                    },
                    _ => events[j],
                }))
            &&& (forall|j: int|
                0 <= j < events.len() ==> match (events[j], #[trigger] after[j]) {
                    (TwitchEventV::Privmsg(p), TwitchEventV::Privmsg(q)) => q.timed_out
                        == p.timed_out,
                    _ => true,
                })
        }),
{
    let after = mark_unannotated_deleted(events, user_id);
    assert forall|j: int| 0 <= j < events.len() implies #[trigger] after[j] == short_timeout_one(
        events[j],
        user_id,
    ) by {}
}

/// A real timeout marks every chat message of the user timed out —
/// whatever annotations each already carries — leaves everyone else's
/// messages alone, and appends exactly one notice naming the user and
/// the duration in seconds.
pub proof fn lemma_long_timeout_marks_and_notices(
    events: Seq<TwitchEventV>,
    channel_login: Seq<char>,
    user_login: Seq<char>,
    user_id: Seq<char>,
    seconds: u64,
)
    requires
        seconds >= SHORT_TIMEOUT_SECS,
    ensures
        ({
            let e = TwitchEventV::ClearChat(
                ClearChatV {
                    channel_login,
                    action: ClearChatActionV::UserTimedOut {
                        user_login,
                        user_id,
                        timeout_seconds: seconds,
                    },
                },
            );
            let after = events_after_event(events, e);
            &&& after.len() == events.len() + 1
            &&& after.last() == notice_event(timeout_notice_text(user_login, seconds))
            &&& (forall|j: int|
                0 <= j < events.len() ==> #[trigger] after[j] == (match events[j] {
                    TwitchEventV::Privmsg(p) => if p.sender.id == user_id {
                        TwitchEventV::Privmsg(privmsg_with_timed_out(p))
                    } else {
                        events[j]
                    },
                    _ => events[j],
                }))
        }),
{
    let marked = mark_all_timed_out(events, user_id);
    assert forall|j: int| 0 <= j < events.len() implies #[trigger] marked[j] == timeout_one(
        events[j],
        user_id,
    ) by {}
}

/// Annotations are additive and never reset: a ban marks every chat
/// message of the user banned while keeping whatever `deleted` and
/// `timed-out` flags each message already has (so a message timed out
/// earlier ends up both timed out and banned), and appends exactly one
/// notice.
pub proof fn lemma_ban_supersedes_additively(
    events: Seq<TwitchEventV>,
    channel_login: Seq<char>,
    user_login: Seq<char>,
    user_id: Seq<char>,
)
    ensures
        ({
            let e = TwitchEventV::ClearChat(
                ClearChatV {
                    channel_login,
                    action: ClearChatActionV::UserBanned { user_login, user_id },
                },
            );
            let after = events_after_event(events, e);
            &&& after.len() == events.len() + 1
            &&& after.last() == notice_event(ban_notice_text(user_login))
            &&& (forall|j: int|
                0 <= j < events.len() ==> match (events[j], #[trigger] after[j]) {
                    (TwitchEventV::Privmsg(p), TwitchEventV::Privmsg(q)) => if p.sender.id
                        == user_id {
                        &&& q.banned
                        &&& q.timed_out == p.timed_out
                        &&& q.deleted == p.deleted
                        &&& q == privmsg_with_banned(p)
                    } else {
                        q == p
                    },
                    _ => after[j] == events[j],
                })
        }),
{
    let marked = mark_all_banned(events, user_id);
    assert forall|j: int| 0 <= j < events.len() implies #[trigger] marked[j] == ban_one(
        events[j],
        user_id,
    ) by {}
}

/// Clearing the chat retains every stored message: the count of chat
/// messages is unchanged, nothing already stored changes at all, and
/// exactly one informational notice is appended.
pub proof fn lemma_chat_cleared_retains(events: Seq<TwitchEventV>, channel_login: Seq<char>)
    ensures
        ({
            let e = TwitchEventV::ClearChat(
                ClearChatV { channel_login, action: ClearChatActionV::ChatCleared },
            );
            let after = events_after_event(events, e);
            &&& after.len() == events.len() + 1
            &&& after.last() == notice_event(chat_cleared_notice_text())
            &&& (forall|j: int| 0 <= j < events.len() ==> #[trigger] after[j] == events[j])
            &&& count_messages(after) == count_messages(events)
        }),
{
    let e = TwitchEventV::ClearChat(
        ClearChatV { channel_login, action: ClearChatActionV::ChatCleared },
    );
    let after = events_after_event(events, e);
    assert(after.drop_last() =~= events);
}

} // verus!
