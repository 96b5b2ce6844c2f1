//! The general commands.
use vstd::prelude::*;
use crate::commands::{set_channel, ChannelSetting, CommandChannel};

verus! {

/// `set`: makes `channel_id` the channel of the bot's general commands and
/// of the points queries.
pub fn set<'a>(channel_id: &'a str) -> (setting: ChannelSetting<'a>)
    ensures
        setting.row.key@ == CommandChannel::Bot.key(),
        setting.row.value@ == channel_id@,
        setting.reply matches Some(r) && r@ == "Set bot command channel"@,
{
    ChannelSetting { row: set_channel(CommandChannel::Bot, channel_id), reply: Some("Set bot command channel") }
}

} // verus!
