//! The moderation command dispatcher: one builder per outbound command.
//!
//! Each builder turns the operator's request into an [`ApiCommand`] value
//! that the caller sends to the platform, or into the error that aborts
//! the command. Builders require an active account session and, for
//! commands addressed to a channel, the channel snapshot; commands that
//! target a user by name take the result of the caller's lookup call and
//! abort with [`CommandError::UserNotFound`] when the lookup came back
//! empty. No builder touches the engine state: history reflects only what
//! the platform later confirms through ingested events.

use vstd::prelude::*;

use crate::engine::{ChannelInfo, Toast, ToastKind, TwitchAccount};
use crate::text::{trim_blanks, trimmed};

verus! {

/// Why a command was aborted before it was sent.
#[derive(Debug, Clone, Copy, PartialEq, Eq)]
pub enum CommandError {
    /// No account is linked.
    NotLinked,
    /// No channel is connected.
    NotConnected,
    /// The name lookup found no such user.
    UserNotFound,
}

/// The chat settings fields a patch may touch; `None` leaves a field as
/// it is. Durations follow the platform: the follower minimum in
/// minutes, the slow-mode delay in seconds.
#[derive(Debug, Clone, PartialEq, Eq, Default)]
pub struct ChatSettingsPatch {
    pub emote_mode: Option<bool>,
    pub follower_mode: Option<bool>,
    pub follower_mode_duration_minutes: Option<u64>,
    pub subscriber_mode: Option<bool>,
    pub slow_mode: Option<bool>,
    pub slow_mode_wait_seconds: Option<u64>,
}

/// An outbound platform command, ready to send.
#[derive(Debug, Clone, PartialEq, Eq)]
pub enum ApiCommand {
    SendMessage { broadcaster_id: String, sender_id: String, text: String },
    SendAnnouncement { broadcaster_id: String, sender_id: String, text: String },
    DeleteMessage { broadcaster_id: String, moderator_id: String, message_id: String },
    DeleteAllMessages { broadcaster_id: String, moderator_id: String },
    /// A ban, or a timeout when a duration is given.
    BanUser {
        broadcaster_id: String,
        moderator_id: String,
        target_user_id: String,
        timeout_seconds: Option<u64>,
    },
    UnbanUser { broadcaster_id: String, moderator_id: String, target_user_id: String },
    Shoutout { from_broadcaster_id: String, to_broadcaster_id: String, moderator_id: String },
    AddVip { broadcaster_id: String, target_user_id: String },
    RemoveVip { broadcaster_id: String, target_user_id: String },
    AddModerator { broadcaster_id: String, target_user_id: String },
    RemoveModerator { broadcaster_id: String, target_user_id: String },
    UpdateChatSettings { broadcaster_id: String, moderator_id: String, patch: ChatSettingsPatch },
}

/// Sending a chat line: the text is trimmed before it goes out.
pub fn twitch_send_message(
    account: &Option<TwitchAccount>,
    channel: &Option<ChannelInfo>,
    message: &String,
) -> (r: Result<ApiCommand, CommandError>)
    ensures
        match (*account, *channel) {
            (None, _) => r == Err::<ApiCommand, CommandError>(CommandError::NotLinked),
            (Some(_), None) => r == Err::<ApiCommand, CommandError>(CommandError::NotConnected),
            (Some(a), Some(c)) => r matches Ok(cmd) && cmd matches ApiCommand::SendMessage {
                broadcaster_id,
                sender_id,
                text,
            } && broadcaster_id == c.broadcaster_id && sender_id == a.user_id && text@
                == trim_blanks(message@),
        },
{
    let a = match account {
        Some(a) => a,
        None => {
            return Err(CommandError::NotLinked);
        },
    };
    let c = match channel {
        Some(c) => c,
        None => {
            return Err(CommandError::NotConnected);
        },
    };
    Ok(
        ApiCommand::SendMessage {
            broadcaster_id: c.broadcaster_id.clone(),
            sender_id: a.user_id.clone(),
            text: trimmed(message.as_str()),
        },
    )
}

/// Sending an announcement: the text is trimmed before it goes out.
pub fn twitch_send_announcement(
    account: &Option<TwitchAccount>,
    channel: &Option<ChannelInfo>,
    message: &String,
) -> (r: Result<ApiCommand, CommandError>)
    ensures
        match (*account, *channel) {
            (None, _) => r == Err::<ApiCommand, CommandError>(CommandError::NotLinked),
            (Some(_), None) => r == Err::<ApiCommand, CommandError>(CommandError::NotConnected),
            (Some(a), Some(c)) => r matches Ok(cmd) && cmd matches ApiCommand::SendAnnouncement {
                broadcaster_id,
                sender_id,
                text,
            } && broadcaster_id == c.broadcaster_id && sender_id == a.user_id && text@
                == trim_blanks(message@),
        },
{
    let a = match account {
        Some(a) => a,
        None => {
            return Err(CommandError::NotLinked);
        },
    };
    let c = match channel {
        Some(c) => c,
        None => {
            return Err(CommandError::NotConnected);
        },
    };
    Ok(
        ApiCommand::SendAnnouncement {
            broadcaster_id: c.broadcaster_id.clone(),
            sender_id: a.user_id.clone(),
            text: trimmed(message.as_str()),
        },
    )
}

/// Deleting one message by its id.
pub fn twitch_delete_message(
    account: &Option<TwitchAccount>,
    channel: &Option<ChannelInfo>,
    message_id: &String,
) -> (r: Result<ApiCommand, CommandError>)
    ensures
        match (*account, *channel) {
            (None, _) => r == Err::<ApiCommand, CommandError>(CommandError::NotLinked),
            (Some(_), None) => r == Err::<ApiCommand, CommandError>(CommandError::NotConnected),
            (Some(a), Some(c)) => r == Ok::<ApiCommand, CommandError>(
                ApiCommand::DeleteMessage {
                    broadcaster_id: c.broadcaster_id,
                    moderator_id: a.user_id,
                    message_id: *message_id,
                },
            ),
        },
{
    let a = match account {
        Some(a) => a,
        None => {
            return Err(CommandError::NotLinked);
        },
    };
    let c = match channel {
        Some(c) => c,
        None => {
            return Err(CommandError::NotConnected);
        },
    };
    Ok(
        ApiCommand::DeleteMessage {
            broadcaster_id: c.broadcaster_id.clone(),
            moderator_id: a.user_id.clone(),
            message_id: message_id.clone(),
        },
    )
}

/// Deleting every message of the channel.
pub fn twitch_delete_all_messages(
    account: &Option<TwitchAccount>,
    channel: &Option<ChannelInfo>,
) -> (r: Result<ApiCommand, CommandError>)
    ensures
        match (*account, *channel) {
            (None, _) => r == Err::<ApiCommand, CommandError>(CommandError::NotLinked),
            (Some(_), None) => r == Err::<ApiCommand, CommandError>(CommandError::NotConnected),
            (Some(a), Some(c)) => r == Ok::<ApiCommand, CommandError>(
                ApiCommand::DeleteAllMessages {
                    broadcaster_id: c.broadcaster_id,
                    moderator_id: a.user_id,
                },
            ),
        },
{
    let a = match account {
        Some(a) => a,
        None => {
            return Err(CommandError::NotLinked);
        },
    };
    let c = match channel {
        Some(c) => c,
        None => {
            return Err(CommandError::NotConnected);
        },
    };
    Ok(
        ApiCommand::DeleteAllMessages {
            broadcaster_id: c.broadcaster_id.clone(),
            moderator_id: a.user_id.clone(),
        },
    )
}

/// Timing out a user found by name, for the given number of seconds.
pub fn twitch_timeout_user(
    account: &Option<TwitchAccount>,
    channel: &Option<ChannelInfo>,
    lookup: &Option<String>,
    duration_seconds: u64,
) -> (r: Result<ApiCommand, CommandError>)
    ensures
        match (*account, *channel, *lookup) {
            (None, _, _) => r == Err::<ApiCommand, CommandError>(CommandError::NotLinked),
            (Some(_), None, _) => r == Err::<ApiCommand, CommandError>(
                CommandError::NotConnected,
            ),
            (Some(_), Some(_), None) => r == Err::<ApiCommand, CommandError>(
                CommandError::UserNotFound,
            ),
            (Some(a), Some(c), Some(t)) => r == Ok::<ApiCommand, CommandError>(ApiCommand::BanUser {
                broadcaster_id: c.broadcaster_id,
                moderator_id: a.user_id,
                target_user_id: t,
                timeout_seconds: Some(duration_seconds),
            }),
        },
{
    let a = match account {
        Some(a) => a,
        None => {
            return Err(CommandError::NotLinked);
        },
    };
    let c = match channel {
        Some(c) => c,
        None => {
            return Err(CommandError::NotConnected);
        },
    };
    let t = match lookup {
        Some(t) => t,
        None => {
            return Err(CommandError::UserNotFound);
        },
    };
    Ok(ApiCommand::BanUser {
            broadcaster_id: c.broadcaster_id.clone(),
            moderator_id: a.user_id.clone(),
            target_user_id: t.clone(),
            timeout_seconds: Some(duration_seconds),
        })
}

/// Lifting a timeout from a user found by name.
pub fn twitch_untimeout_user(
    account: &Option<TwitchAccount>,
    channel: &Option<ChannelInfo>,
    lookup: &Option<String>,
) -> (r: Result<ApiCommand, CommandError>)
    ensures
        match (*account, *channel, *lookup) {
            (None, _, _) => r == Err::<ApiCommand, CommandError>(CommandError::NotLinked),
            (Some(_), None, _) => r == Err::<ApiCommand, CommandError>(
                CommandError::NotConnected,
            ),
            (Some(_), Some(_), None) => r == Err::<ApiCommand, CommandError>(
                CommandError::UserNotFound,
            ),
            (Some(a), Some(c), Some(t)) => r == Ok::<ApiCommand, CommandError>(ApiCommand::UnbanUser {
                broadcaster_id: c.broadcaster_id,
                moderator_id: a.user_id,
                target_user_id: t,
            }),
        },
{
    let a = match account {
        Some(a) => a,
        None => {
            return Err(CommandError::NotLinked);
        },
    };
    let c = match channel {
        Some(c) => c,
        None => {
            return Err(CommandError::NotConnected);
        },
    };
    let t = match lookup {
        Some(t) => t,
        None => {
            return Err(CommandError::UserNotFound);
        },
    };
    Ok(ApiCommand::UnbanUser {
            broadcaster_id: c.broadcaster_id.clone(),
            moderator_id: a.user_id.clone(),
            target_user_id: t.clone(),
        })
}

/// Banning a user found by name, with no end date.
pub fn twitch_ban_user(
    account: &Option<TwitchAccount>,
    channel: &Option<ChannelInfo>,
    lookup: &Option<String>,
) -> (r: Result<ApiCommand, CommandError>)
    ensures
        match (*account, *channel, *lookup) {
            (None, _, _) => r == Err::<ApiCommand, CommandError>(CommandError::NotLinked),
            (Some(_), None, _) => r == Err::<ApiCommand, CommandError>(
                CommandError::NotConnected,
            ),
            (Some(_), Some(_), None) => r == Err::<ApiCommand, CommandError>(
                CommandError::UserNotFound,
            ),
            (Some(a), Some(c), Some(t)) => r == Ok::<ApiCommand, CommandError>(ApiCommand::BanUser {
                broadcaster_id: c.broadcaster_id,
                moderator_id: a.user_id,
                target_user_id: t,
                timeout_seconds: None,
            }),
        },
{
    let a = match account {
        Some(a) => a,
        None => {
            return Err(CommandError::NotLinked);
        },
    };
    let c = match channel {
        Some(c) => c,
        None => {
            return Err(CommandError::NotConnected);
        },
    };
    let t = match lookup {
        Some(t) => t,
        None => {
            return Err(CommandError::UserNotFound);
        },
    };
    Ok(ApiCommand::BanUser {
            broadcaster_id: c.broadcaster_id.clone(),
            moderator_id: a.user_id.clone(),
            target_user_id: t.clone(),
            timeout_seconds: None,
        })
}

/// Lifting a ban from a user found by name.
pub fn twitch_unban_user(
    account: &Option<TwitchAccount>,
    channel: &Option<ChannelInfo>,
    lookup: &Option<String>,
) -> (r: Result<ApiCommand, CommandError>)
    ensures
        match (*account, *channel, *lookup) {
            (None, _, _) => r == Err::<ApiCommand, CommandError>(CommandError::NotLinked),
            (Some(_), None, _) => r == Err::<ApiCommand, CommandError>(
                CommandError::NotConnected,
            ),
            (Some(_), Some(_), None) => r == Err::<ApiCommand, CommandError>(
                CommandError::UserNotFound,
            ),
            (Some(a), Some(c), Some(t)) => r == Ok::<ApiCommand, CommandError>(ApiCommand::UnbanUser {
                broadcaster_id: c.broadcaster_id,
                moderator_id: a.user_id,
                target_user_id: t,
            }),
        },
{
    let a = match account {
        Some(a) => a,
        None => {
            return Err(CommandError::NotLinked);
        },
    };
    let c = match channel {
        Some(c) => c,
        None => {
            return Err(CommandError::NotConnected);
        },
    };
    let t = match lookup {
        Some(t) => t,
        None => {
            return Err(CommandError::UserNotFound);
        },
    };
    Ok(ApiCommand::UnbanUser {
            broadcaster_id: c.broadcaster_id.clone(),
            moderator_id: a.user_id.clone(),
            target_user_id: t.clone(),
        })
}

/// Sending a shoutout to a channel found by name.
pub fn twitch_shoutout_user(
    account: &Option<TwitchAccount>,
    channel: &Option<ChannelInfo>,
    lookup: &Option<String>,
) -> (r: Result<ApiCommand, CommandError>)
    ensures
        match (*account, *channel, *lookup) {
            (None, _, _) => r == Err::<ApiCommand, CommandError>(CommandError::NotLinked),
            (Some(_), None, _) => r == Err::<ApiCommand, CommandError>(
                CommandError::NotConnected,
            ),
            (Some(_), Some(_), None) => r == Err::<ApiCommand, CommandError>(
                CommandError::UserNotFound,
            ),
            (Some(a), Some(c), Some(t)) => r == Ok::<ApiCommand, CommandError>(ApiCommand::Shoutout {
                from_broadcaster_id: c.broadcaster_id,
                to_broadcaster_id: t,
                moderator_id: a.user_id,
            }),
        },
{
    let a = match account {
        Some(a) => a,
        None => {
            return Err(CommandError::NotLinked);
        },
    };
    let c = match channel {
        Some(c) => c,
        None => {
            return Err(CommandError::NotConnected);
        },
    };
    let t = match lookup {
        Some(t) => t,
        None => {
            return Err(CommandError::UserNotFound);
        },
    };
    Ok(ApiCommand::Shoutout {
            from_broadcaster_id: c.broadcaster_id.clone(),
            to_broadcaster_id: t.clone(),
            moderator_id: a.user_id.clone(),
        })
}

/// Granting the VIP role to a user found by name.
pub fn twitch_vip_user(
    account: &Option<TwitchAccount>,
    channel: &Option<ChannelInfo>,
    lookup: &Option<String>,
) -> (r: Result<ApiCommand, CommandError>)
    ensures
        match (*account, *channel, *lookup) {
            (None, _, _) => r == Err::<ApiCommand, CommandError>(CommandError::NotLinked),
            (Some(_), None, _) => r == Err::<ApiCommand, CommandError>(
                CommandError::NotConnected,
            ),
            (Some(_), Some(_), None) => r == Err::<ApiCommand, CommandError>(
                CommandError::UserNotFound,
            ),
            (Some(a), Some(c), Some(t)) => r == Ok::<ApiCommand, CommandError>(ApiCommand::AddVip { broadcaster_id: c.broadcaster_id, target_user_id: t }),
        },
{
    let a = match account {
        Some(a) => a,
        None => {
            return Err(CommandError::NotLinked);
        },
    };
    let c = match channel {
        Some(c) => c,
        None => {
            return Err(CommandError::NotConnected);
        },
    };
    let t = match lookup {
        Some(t) => t,
        None => {
            return Err(CommandError::UserNotFound);
        },
    };
    Ok(ApiCommand::AddVip {
            broadcaster_id: c.broadcaster_id.clone(),
            target_user_id: t.clone(),
        })
}

/// Revoking the VIP role from a user found by name.
pub fn twitch_unvip_user(
    account: &Option<TwitchAccount>,
    channel: &Option<ChannelInfo>,
    lookup: &Option<String>,
) -> (r: Result<ApiCommand, CommandError>)
    ensures
        match (*account, *channel, *lookup) {
            (None, _, _) => r == Err::<ApiCommand, CommandError>(CommandError::NotLinked),
            (Some(_), None, _) => r == Err::<ApiCommand, CommandError>(
                CommandError::NotConnected,
            ),
            (Some(_), Some(_), None) => r == Err::<ApiCommand, CommandError>(
                CommandError::UserNotFound,
            ),
            (Some(a), Some(c), Some(t)) => r == Ok::<ApiCommand, CommandError>(ApiCommand::RemoveVip { broadcaster_id: c.broadcaster_id, target_user_id: t }),
        },
{
    let a = match account {
        Some(a) => a,
        None => {
            return Err(CommandError::NotLinked);
        },
    };
    let c = match channel {
        Some(c) => c,
        None => {
            return Err(CommandError::NotConnected);
        },
    };
    let t = match lookup {
        Some(t) => t,
        None => {
            return Err(CommandError::UserNotFound);
        },
    };
    Ok(ApiCommand::RemoveVip {
            broadcaster_id: c.broadcaster_id.clone(),
            target_user_id: t.clone(),
        })
}

/// Granting the moderator role to a user found by name.
pub fn twitch_mod_user(
    account: &Option<TwitchAccount>,
    channel: &Option<ChannelInfo>,
    lookup: &Option<String>,
) -> (r: Result<ApiCommand, CommandError>)
    ensures
        match (*account, *channel, *lookup) {
            (None, _, _) => r == Err::<ApiCommand, CommandError>(CommandError::NotLinked),
            (Some(_), None, _) => r == Err::<ApiCommand, CommandError>(
                CommandError::NotConnected,
            ),
            (Some(_), Some(_), None) => r == Err::<ApiCommand, CommandError>(
                CommandError::UserNotFound,
            ),
            (Some(a), Some(c), Some(t)) => r == Ok::<ApiCommand, CommandError>(ApiCommand::AddModerator { broadcaster_id: c.broadcaster_id, target_user_id: t }),
        },
{
    let a = match account {
        Some(a) => a,
        None => {
            return Err(CommandError::NotLinked);
        },
    };
    let c = match channel {
        Some(c) => c,
        None => {
            return Err(CommandError::NotConnected);
        },
    };
    let t = match lookup {
        Some(t) => t,
        None => {
            return Err(CommandError::UserNotFound);
        },
    };
    Ok(ApiCommand::AddModerator {
            broadcaster_id: c.broadcaster_id.clone(),
            target_user_id: t.clone(),
        })
}

/// Revoking the moderator role from a user found by name.
pub fn twitch_unmod_user(
    account: &Option<TwitchAccount>,
    channel: &Option<ChannelInfo>,
    lookup: &Option<String>,
) -> (r: Result<ApiCommand, CommandError>)
    ensures
        match (*account, *channel, *lookup) {
            (None, _, _) => r == Err::<ApiCommand, CommandError>(CommandError::NotLinked),
            (Some(_), None, _) => r == Err::<ApiCommand, CommandError>(
                CommandError::NotConnected,
            ),
            (Some(_), Some(_), None) => r == Err::<ApiCommand, CommandError>(
                CommandError::UserNotFound,
            ),
            (Some(a), Some(c), Some(t)) => r == Ok::<ApiCommand, CommandError>(ApiCommand::RemoveModerator { broadcaster_id: c.broadcaster_id, target_user_id: t }),
        },
{
    let a = match account {
        Some(a) => a,
        None => {
            return Err(CommandError::NotLinked);
        },
    };
    let c = match channel {
        Some(c) => c,
        None => {
            return Err(CommandError::NotConnected);
        },
    };
    let t = match lookup {
        Some(t) => t,
        None => {
            return Err(CommandError::UserNotFound);
        },
    };
    Ok(ApiCommand::RemoveModerator {
            broadcaster_id: c.broadcaster_id.clone(),
            target_user_id: t.clone(),
        })
}

/// Patching the channel's chat settings.
pub fn twitch_patch_chat_settings(
    account: &Option<TwitchAccount>,
    channel: &Option<ChannelInfo>,
    patch: ChatSettingsPatch,
) -> (r: Result<ApiCommand, CommandError>)
    ensures
        match (*account, *channel) {
            (None, _) => r == Err::<ApiCommand, CommandError>(CommandError::NotLinked),
            (Some(_), None) => r == Err::<ApiCommand, CommandError>(CommandError::NotConnected),
            (Some(a), Some(c)) => r == Ok::<ApiCommand, CommandError>(
                ApiCommand::UpdateChatSettings {
                    broadcaster_id: c.broadcaster_id,
                    moderator_id: a.user_id,
                    patch: patch,
                },
            ),
        },
{
    let a = match account {
        Some(a) => a,
        None => {
            return Err(CommandError::NotLinked);
        },
    };
    let c = match channel {
        Some(c) => c,
        None => {
            return Err(CommandError::NotConnected);
        },
    };
    Ok(
        ApiCommand::UpdateChatSettings {
            broadcaster_id: c.broadcaster_id.clone(),
            moderator_id: a.user_id.clone(),
            patch,
        },
    )
}

/// The toast shown when a command that was sent comes back failed.
pub fn command_failed_toast(command: &ApiCommand) -> (t: Toast)
    ensures
        t@.kind == ToastKind::Error,
        t@.text == match command {
            ApiCommand::SendMessage { .. } => "Failed to send message."@,
            ApiCommand::SendAnnouncement { .. } => "Failed to send announcement."@,
            ApiCommand::DeleteMessage { .. } => "Failed to delete message."@,
            ApiCommand::DeleteAllMessages { .. } => "Failed to delete all messages."@,
            ApiCommand::BanUser { timeout_seconds: Some(_), .. } => "Failed to timeout user."@,
            ApiCommand::BanUser { timeout_seconds: None, .. } => "Failed to ban user."@,
            ApiCommand::UnbanUser { .. } => "Failed to unban user."@,
            ApiCommand::Shoutout { .. } => "Failed to shoutout user."@,
            ApiCommand::AddVip { .. } => "Failed to vip user."@,
            ApiCommand::RemoveVip { .. } => "Failed to unvip user."@,
            ApiCommand::AddModerator { .. } => "Failed to mod user."@,
            ApiCommand::RemoveModerator { .. } => "Failed to unmod user."@,
            ApiCommand::UpdateChatSettings { .. } => "Failed to update chat settings."@,
        },
{
    let text = match command {
        ApiCommand::SendMessage { .. } => String::from_str("Failed to send message."),
        ApiCommand::SendAnnouncement { .. } => String::from_str("Failed to send announcement."),
        ApiCommand::DeleteMessage { .. } => String::from_str("Failed to delete message."),
        ApiCommand::DeleteAllMessages { .. } => String::from_str("Failed to delete all messages."),
        ApiCommand::BanUser { timeout_seconds: Some(_), .. } => String::from_str(
            "Failed to timeout user.",
        ),
        ApiCommand::BanUser { timeout_seconds: None, .. } => String::from_str(
            "Failed to ban user.",
        ),
        ApiCommand::UnbanUser { .. } => String::from_str("Failed to unban user."),
        ApiCommand::Shoutout { .. } => String::from_str("Failed to shoutout user."),
        ApiCommand::AddVip { .. } => String::from_str("Failed to vip user."),
        ApiCommand::RemoveVip { .. } => String::from_str("Failed to unvip user."),
        ApiCommand::AddModerator { .. } => String::from_str("Failed to mod user."),
        ApiCommand::RemoveModerator { .. } => String::from_str("Failed to unmod user."),
        ApiCommand::UpdateChatSettings { .. } => String::from_str(
            "Failed to update chat settings.",
        ),
    };
    Toast { kind: ToastKind::Error, text }
}

/// The toast shown when a by-name command aborts because the user was
/// not found.
pub fn user_not_found_toast() -> (t: Toast)
    ensures
        t@.kind == ToastKind::Error,
        t@.text == "User not found."@,
{
    Toast { kind: ToastKind::Error, text: String::from_str("User not found.") }
}

} // verus!
