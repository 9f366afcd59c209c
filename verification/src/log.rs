//! Plain-text rendering of events for the exported chat log.

use vstd::prelude::*;

use crate::events::{has_badge, PrivmsgMessageExt, PrivmsgV, TwitchEvent, TwitchEventV};
use crate::text::{spec_clock, trim_blanks, trimmed, clock_string};

verus! {

/// The annotation tag in front of a logged message: the strongest
/// annotation wins.
pub open spec fn annotation_tag(p: PrivmsgV) -> Seq<char> {
    if p.banned {
        "[BANNED] "@
    } else if p.timed_out {
        "[TIMED OUT] "@
    } else if p.deleted {
        "[DELETED] "@
    } else {
        Seq::empty()
    }
}

/// The role tag in front of a logged message: a first message outranks
/// every role, then the highest role wins.
pub open spec fn role_tag(p: PrivmsgV) -> Seq<char> {
    if p.first_message {
        "FIRST "@
    } else if has_badge(p.badges, "broadcaster"@) {
        "CAST "@
    } else if has_badge(p.badges, "lead_moderator"@) {
        "LMOD "@
    } else if has_badge(p.badges, "moderator"@) {
        "MOD "@
    } else if has_badge(p.badges, "vip"@) {
        "VIP "@
    } else if has_badge(p.badges, "subscriber"@) {
        "SUB "@
    } else {
        Seq::empty()
    }
}

/// The log line an event contributes: joins and notices one line each,
/// chat messages with their time of day, tags, sender and text; all
/// other event kinds contribute nothing.
pub open spec fn log_line(e: TwitchEventV) -> Seq<char> {
    match e {
        TwitchEventV::Join(j) => "Joined channel "@ + j.channel_login + ".\n"@,
        TwitchEventV::Notice(n) => trim_blanks(n.message_text) + "\n"@,
        TwitchEventV::Privmsg(p) => spec_clock(p.server_timestamp as int) + " "@ + annotation_tag(
            p,
        ) + role_tag(p) + p.sender.name + ": "@ + p.message_text + "\n"@,
        _ => Seq::empty(),
    }
}

/// Appends the event's log line to the buffer.
pub fn render_event_for_log(buffer: &mut String, event: &TwitchEvent)
    ensures
        final(buffer)@ == old(buffer)@ + log_line(event@),
{
    match event {
        TwitchEvent::Join(j) => {
            buffer.append("Joined channel ");
            buffer.append(j.channel_login.as_str());
            buffer.append(".\n");
            proof {
                assert(buffer@ =~= old(buffer)@ + log_line(event@));
            }
        },
        TwitchEvent::Notice(n) => {
            let t = trimmed(n.message_text.as_str());
            buffer.append(t.as_str());
            buffer.append("\n");
            proof {
                assert(buffer@ =~= old(buffer)@ + log_line(event@));
            }
        },
        TwitchEvent::Privmsg(p) => {
            let clock = clock_string(p.server_timestamp);
            buffer.append(clock.as_str());
            buffer.append(" ");
            if p.is_banned() {
                buffer.append("[BANNED] ");
            } else if p.is_timeouted() {
                buffer.append("[TIMED OUT] ");
            } else if p.is_deleted() {
                buffer.append("[DELETED] ");
            }
            if p.is_first_message() {
                buffer.append("FIRST ");
            } else if p.is_by_broadcaster() {
                buffer.append("CAST ");
            } else if p.is_by_lead_mod() {
                buffer.append("LMOD ");
            } else if p.is_by_mod() {
                buffer.append("MOD ");
            } else if p.is_by_vip() {
                buffer.append("VIP ");
            } else if p.is_by_subscriber() {
                buffer.append("SUB ");
            }
            buffer.append(p.sender.name.as_str());
            buffer.append(": ");
            buffer.append(p.message_text.as_str());
            buffer.append("\n");
            proof {
                assert(buffer@ =~= old(buffer)@ + log_line(event@));
            }
        },
        _ => {
            proof {
                assert(buffer@ =~= old(buffer)@ + log_line(event@));
            }
        },
    }
}

} // verus!
