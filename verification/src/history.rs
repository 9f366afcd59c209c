//! The event history: an insertion-ordered log of events whose chat
//! messages can be annotated in place by later moderation events.
//!
//! The spec functions here are the mathematical meaning of each mutation;
//! the exec functions apply them to the owned `Vec` and are proved equal
//! to the spec, element for element.

use vstd::prelude::*;

use crate::events::{PrivmsgMessage, PrivmsgMessageExt, PrivmsgV, TwitchEvent, TwitchEventV};

verus! {

/// The history as a mathematical sequence of event views.
pub open spec fn hview(v: Seq<TwitchEvent>) -> Seq<TwitchEventV> {
    v.map_values(|e: TwitchEvent| e@)
}

pub open spec fn privmsg_with_deleted(p: PrivmsgV) -> PrivmsgV {
    PrivmsgV { deleted: true, ..p }
}

pub open spec fn privmsg_with_timed_out(p: PrivmsgV) -> PrivmsgV {
    PrivmsgV { timed_out: true, ..p }
}

pub open spec fn privmsg_with_banned(p: PrivmsgV) -> PrivmsgV {
    PrivmsgV { banned: true, ..p }
}

/// Whether a message has already received any moderation annotation.
pub open spec fn is_annotated(p: PrivmsgV) -> bool {
    p.deleted || p.timed_out || p.banned
}

/// Whether an event is a chat message carrying the given message id.
pub open spec fn has_message_id(e: TwitchEventV, message_id: Seq<char>) -> bool {
    match e {
        TwitchEventV::Privmsg(p) => p.message_id == message_id,
        _ => false,
    }
}

/// The number of chat messages in the history (other event kinds do not
/// count).
pub open spec fn count_messages(events: Seq<TwitchEventV>) -> int
    decreases events.len(),
{
    if events.len() == 0 {
        0
    } else {
        count_messages(events.drop_last()) + match events.last() {
            TwitchEventV::Privmsg(_) => 1int,
            _ => 0int,
        }
    }
}

/// The effect of a `ClearMsg`: scanning newest to oldest, the first chat
/// message whose id matches is marked deleted, and the scan stops there.
/// At most one message is ever annotated.
pub open spec fn delete_message_by_id(events: Seq<TwitchEventV>, message_id: Seq<char>) -> Seq<
    TwitchEventV,
>
    decreases events.len(),
{
    if events.len() == 0 {
        events
    } else {
        if has_message_id(events.last(), message_id) {
            events.update(
                events.len() - 1,
                match events.last() {
                    TwitchEventV::Privmsg(p) => TwitchEventV::Privmsg(privmsg_with_deleted(p)),
                    _ => events.last(),
                },
            )
        } else {
            delete_message_by_id(events.drop_last(), message_id).push(events.last())
        }
    }
}

/// A short timeout is the platform's idiom for removing messages: every not
/// yet annotated chat message of the user is marked deleted (never
/// timed-out); messages that already carry an annotation are left alone.
pub open spec fn short_timeout_one(e: TwitchEventV, user_id: Seq<char>) -> TwitchEventV {
    match e {
        TwitchEventV::Privmsg(p) => if p.sender.id == user_id && !is_annotated(p) {
            TwitchEventV::Privmsg(privmsg_with_deleted(p))
        } else {
            e
        },
        _ => e,
    }
}

pub open spec fn mark_unannotated_deleted(events: Seq<TwitchEventV>, user_id: Seq<char>) -> Seq<
    TwitchEventV,
> {
    events.map_values(|e: TwitchEventV| short_timeout_one(e, user_id))
}

/// A real timeout marks every chat message of the user as timed out,
/// whatever annotations it already carries.
pub open spec fn timeout_one(e: TwitchEventV, user_id: Seq<char>) -> TwitchEventV {
    match e {
        TwitchEventV::Privmsg(p) => if p.sender.id == user_id {
            TwitchEventV::Privmsg(privmsg_with_timed_out(p))
        } else {
            e
        },
        _ => e,
    }
}

pub open spec fn mark_all_timed_out(events: Seq<TwitchEventV>, user_id: Seq<char>) -> Seq<
    TwitchEventV,
> {
    events.map_values(|e: TwitchEventV| timeout_one(e, user_id))
}

/// A ban marks every chat message of the user as banned, whatever
/// annotations it already carries.
pub open spec fn ban_one(e: TwitchEventV, user_id: Seq<char>) -> TwitchEventV {
    match e {
        TwitchEventV::Privmsg(p) => if p.sender.id == user_id {
            TwitchEventV::Privmsg(privmsg_with_banned(p))
        } else {
            e
        },
        _ => e,
    }
}

pub open spec fn mark_all_banned(events: Seq<TwitchEventV>, user_id: Seq<char>) -> Seq<
    TwitchEventV,
> {
    events.map_values(|e: TwitchEventV| ban_one(e, user_id))
}


/// Appending an event commutes with taking the history view.
pub proof fn lemma_hview_push(s: Seq<TwitchEvent>, e: TwitchEvent)
    ensures
        hview(s.push(e)) =~= hview(s).push(e@),
{
}

pub proof fn lemma_delete_by_id_no_match(events: Seq<TwitchEventV>, message_id: Seq<char>)
    requires
        forall|j: int| 0 <= j < events.len() ==> !has_message_id(#[trigger] events[j], message_id),
    ensures
        delete_message_by_id(events, message_id) =~= events,
    decreases events.len(),
{
    if events.len() > 0 {
        lemma_delete_by_id_no_match(events.drop_last(), message_id);
    }
}

pub proof fn lemma_delete_by_id_hit(events: Seq<TwitchEventV>, message_id: Seq<char>, i: int)
    requires
        0 <= i < events.len(),
        has_message_id(events[i], message_id),
        forall|j: int| i < j < events.len() ==> !has_message_id(#[trigger] events[j], message_id),
    ensures
        delete_message_by_id(events, message_id) =~= events.update(
            i,
            match events[i] {
                TwitchEventV::Privmsg(p) => TwitchEventV::Privmsg(privmsg_with_deleted(p)),
                _ => events[i],
            },
        ),
    decreases events.len(),
{
    if i == events.len() - 1 {
    } else {
        lemma_delete_by_id_hit(events.drop_last(), message_id, i);
        assert(events.drop_last().update(
            i,
            match events[i] {
                TwitchEventV::Privmsg(p) => TwitchEventV::Privmsg(privmsg_with_deleted(p)),
                _ => events[i],
            },
        ).push(events.last()) =~= events.update(
            i,
            match events[i] {
                TwitchEventV::Privmsg(p) => TwitchEventV::Privmsg(privmsg_with_deleted(p)),
                _ => events[i],
            },
        ));
    }
}

/// The kinds of annotation a moderation event can attach to a message.
enum Annotation {
    Deleted,
    TimedOut,
    Banned,
}

impl Annotation {
    spec fn applied(self, p: PrivmsgV) -> PrivmsgV {
        match self {
            Annotation::Deleted => privmsg_with_deleted(p),
            Annotation::TimedOut => privmsg_with_timed_out(p),
            Annotation::Banned => privmsg_with_banned(p),
        }
    }
}

/// Sets one annotation flag of the chat message in the given slot; any
/// other event kind in the slot is left untouched.
fn mark_slot(events: &mut Vec<TwitchEvent>, i: usize, how: Annotation)
    requires
        i < old(events)@.len(),
    ensures
        final(events)@.len() == old(events)@.len(),
        forall|j: int|
            0 <= j < old(events)@.len() && j != i ==> final(events)@[j] == old(events)@[j],
        final(events)@[i as int]@ == match old(events)@[i as int]@ {
            TwitchEventV::Privmsg(p) => TwitchEventV::Privmsg(how.applied(p)),
            x => x,
        },
{
    let ghost before = events@[i as int];
    let e = &mut events[i];
    match e {
        TwitchEvent::Privmsg(p) => {
            match how {
                Annotation::Deleted => p.mark_deleted(),
                Annotation::TimedOut => p.mark_timeouted(),
                Annotation::Banned => p.mark_banned(),
            }
        },
        _ => (),
    }
    proof {
        match before {
            TwitchEvent::Privmsg(p0) => {
                assert(events@[i as int]@ =~= TwitchEventV::Privmsg(how.applied(p0@)));
            },
            _ => {
                assert(events@[i as int] == before);
            },
        }
    }
}

/// Applies a `ClearMsg` for the given message id to the history.
#[verifier::loop_isolation(false)]
pub fn delete_message(events: &mut Vec<TwitchEvent>, message_id: &String)
    ensures
        hview(final(events)@) == delete_message_by_id(hview(old(events)@), message_id@),
{
    let ghost orig = events@;
    let mut i: usize = events.len();
    while i > 0
        invariant
            events@ == orig,
            0 <= i <= orig.len(),
            forall|j: int|
                i <= j < orig.len() ==> !has_message_id(#[trigger] hview(orig)[j], message_id@),
        decreases i,
    {
        i = i - 1;
        let matched = match &events[i] {
            TwitchEvent::Privmsg(p) => p.message_id == *message_id,
            _ => false,
        };
        if matched {
            mark_slot(events, i, Annotation::Deleted);
            proof {
                lemma_delete_by_id_hit(hview(orig), message_id@, i as int);
                assert(hview(events@) =~= delete_message_by_id(hview(orig), message_id@));
            }
            return ;
        }
        proof {
            assert(!has_message_id(hview(orig)[i as int], message_id@));
        }
    }
    proof {
        lemma_delete_by_id_no_match(hview(orig), message_id@);
        assert(hview(events@) =~= hview(orig));
    }
}

/// Marks every not yet annotated chat message of the user as deleted
/// (the short-timeout reclassification).
#[verifier::loop_isolation(false)]
pub fn delete_all_unannotated_from(events: &mut Vec<TwitchEvent>, user_id: &String)
    ensures
        hview(final(events)@) == mark_unannotated_deleted(hview(old(events)@), user_id@),
{
    let ghost orig = events@;
    let mut i: usize = 0;
    while i < events.len()
        invariant
            events@.len() == orig.len(),
            0 <= i <= orig.len(),
            forall|j: int| i <= j < orig.len() ==> events@[j] == orig[j],
            forall|j: int|
                0 <= j < i ==> #[trigger] hview(events@)[j] == short_timeout_one(
                    hview(orig)[j],
                    user_id@,
                ),
        decreases orig.len() - i,
    {
        let mark = match &events[i] {
            TwitchEvent::Privmsg(p) => p.sender.id == *user_id && !p.deleted && !p.timed_out
                && !p.banned,
            _ => false,
        };
        let ghost pre = events@;
        if mark {
            mark_slot(events, i, Annotation::Deleted);
        }
        proof {
            assert(pre[i as int] == orig[i as int]);
            assert(hview(orig)[i as int] == orig[i as int]@);
            assert(hview(events@)[i as int] == short_timeout_one(hview(orig)[i as int], user_id@));
            assert forall|j: int| 0 <= j <= i implies #[trigger] hview(events@)[j] == short_timeout_one(
                hview(orig)[j],
                user_id@,
            ) by {
                if j < i as int {
                    assert(events@[j] == pre[j]);
                    assert(hview(pre)[j] == short_timeout_one(hview(orig)[j], user_id@));
                    assert(hview(events@)[j] == events@[j]@);
                }
            }
        }
        i = i + 1;
    }
    proof {
        assert(hview(events@) =~= mark_unannotated_deleted(hview(orig), user_id@));
    }
}

/// Marks every chat message of the user as timed out.
#[verifier::loop_isolation(false)]
pub fn timeout_all_from(events: &mut Vec<TwitchEvent>, user_id: &String)
    ensures
        hview(final(events)@) == mark_all_timed_out(hview(old(events)@), user_id@),
{
    let ghost orig = events@;
    let mut i: usize = 0;
    while i < events.len()
        invariant
            events@.len() == orig.len(),
            0 <= i <= orig.len(),
            forall|j: int| i <= j < orig.len() ==> events@[j] == orig[j],
            forall|j: int|
                0 <= j < i ==> #[trigger] hview(events@)[j] == timeout_one(
                    hview(orig)[j],
                    user_id@,
                ),
        decreases orig.len() - i,
    {
        let mark = match &events[i] {
            TwitchEvent::Privmsg(p) => p.sender.id == *user_id,
            _ => false,
        };
        let ghost pre = events@;
        if mark {
            mark_slot(events, i, Annotation::TimedOut);
        }
        proof {
            assert(pre[i as int] == orig[i as int]);
            assert(hview(orig)[i as int] == orig[i as int]@);
            assert(hview(events@)[i as int] == timeout_one(hview(orig)[i as int], user_id@));
            assert forall|j: int| 0 <= j <= i implies #[trigger] hview(events@)[j] == timeout_one(
                hview(orig)[j],
                user_id@,
            ) by {
                if j < i as int {
                    assert(events@[j] == pre[j]);
                    assert(hview(pre)[j] == timeout_one(hview(orig)[j], user_id@));
                    assert(hview(events@)[j] == events@[j]@);
                }
            }
        }
        i = i + 1;
    }
    proof {
        assert(hview(events@) =~= mark_all_timed_out(hview(orig), user_id@));
    }
}

/// Marks every chat message of the user as banned.
#[verifier::loop_isolation(false)]
pub fn ban_all_from(events: &mut Vec<TwitchEvent>, user_id: &String)
    ensures
        hview(final(events)@) == mark_all_banned(hview(old(events)@), user_id@),
{
    let ghost orig = events@;
    let mut i: usize = 0;
    while i < events.len()
        invariant
            events@.len() == orig.len(),
            0 <= i <= orig.len(),
            forall|j: int| i <= j < orig.len() ==> events@[j] == orig[j],
            forall|j: int|
                0 <= j < i ==> #[trigger] hview(events@)[j] == ban_one(hview(orig)[j], user_id@),
        decreases orig.len() - i,
    {
        let mark = match &events[i] {
            TwitchEvent::Privmsg(p) => p.sender.id == *user_id,
            _ => false,
        };
        let ghost pre = events@;
        if mark {
            mark_slot(events, i, Annotation::Banned);
        }
        proof {
            assert(pre[i as int] == orig[i as int]);
            assert(hview(orig)[i as int] == orig[i as int]@);
            assert(hview(events@)[i as int] == ban_one(hview(orig)[i as int], user_id@));
            assert forall|j: int| 0 <= j <= i implies #[trigger] hview(events@)[j] == ban_one(
                hview(orig)[j],
                user_id@,
            ) by {
                if j < i as int {
                    assert(events@[j] == pre[j]);
                    assert(hview(pre)[j] == ban_one(hview(orig)[j], user_id@));
                    assert(hview(events@)[j] == events@[j]@);
                }
            }
        }
        i = i + 1;
    }
    proof {
        assert(hview(events@) =~= mark_all_banned(hview(orig), user_id@));
    }
}

} // verus!
