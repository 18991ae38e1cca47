//! The list of a channel's messages.

use crate::data::state::{Message, State};
use vstd::prelude::*;

verus! {

/// What the chat tells its view; nothing yet.
#[derive(Debug, Clone, Copy, PartialEq, Eq, Structural)]
pub enum TextChatMessage {
    Default,
}

/// What the chat remembers between events; nothing yet.
#[derive(Debug, Clone, Copy, PartialEq, Eq, Structural)]
pub struct TextChatState;

impl Default for TextChatState {
    fn default() -> (state: TextChatState)
        ensures
            state == TextChatState,
    {
        TextChatState
    }
}

/// What the user did in the chat; nothing yet.
#[derive(Debug, Clone, Copy, PartialEq, Eq, Structural)]
pub enum TextChatEvent {
    Default,
}

/// The message for the view after an event of the chat: never one.
pub fn text_chat_update(event: TextChatEvent) -> (message: Option<TextChatMessage>)
    ensures
        message is None,
{
    None
}

/// The messages to show for a channel; `None` where the channel has none, and the
/// chat says so instead.
pub fn messages_of<'a>(state: &'a State, channel_id: &str) -> (messages: Option<&'a Vec<Message>>)
    requires
        state.well_formed(),
    ensures
        match messages {
            Some(list) => state@.messages.dom().contains(channel_id@) && state@.messages[channel_id@]
                == list@,
            None => !state@.messages.dom().contains(channel_id@),
        },
{
    state.message_cache.get(channel_id)
}

} // verus!
