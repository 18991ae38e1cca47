//! The view of direct messages.

use crate::data::state::{RelationshipKind, RelationshipView, State};
use crate::data::user::{User, UserView};
use crate::gui::components::sidebar::SidebarEntryType;
use crate::json::views;
use vstd::prelude::*;

verus! {

/// What the view tells the application; nothing yet.
#[derive(Debug, Clone, Copy, PartialEq, Eq, Structural)]
pub enum DirectMessagesViewMessage {
    Default,
}

/// What the view remembers: the channel that is shown.
#[derive(Debug, Clone)]
pub struct DirectMessagesState {
    pub active_channel: String,
}

impl Default for DirectMessagesState {
    fn default() -> (state: DirectMessagesState)
        ensures
            state.active_channel@ == Seq::<char>::empty(),
    {
        DirectMessagesState { active_channel: String::new() }
    }
}

/// What the user did in the view.
#[derive(Debug, Clone)]
pub enum Event {
    ChannelSelected(SidebarEntryType<String>),
}

/// The channel that is shown after an event: the one of the button that was
/// pressed; any other entry leaves the channel as it is.
pub open spec fn channel_after(active: Seq<char>, event: Event) -> Seq<char> {
    match event {
        Event::ChannelSelected(SidebarEntryType::Button(channel, _)) => channel@,
        _ => active,
    }
}

/// Takes an event of the view. The application is told nothing.
pub fn update(state: &mut DirectMessagesState, event: Event) -> (message: Option<
    DirectMessagesViewMessage,
>)
    ensures
        message is None,
        final(state).active_channel@ == channel_after(old(state).active_channel@, event),
{
    match event {
        Event::ChannelSelected(SidebarEntryType::Button(channel, _)) => {
            state.active_channel = channel;
        },
        _ => {},
    }
    None
}

/// The users that the sidebar lists: of each relationship that is a friendship, the
/// user, where the user is known.
pub open spec fn friends_of(
    relationships: Seq<RelationshipView>,
    users: Map<Seq<char>, UserView>,
) -> Seq<UserView>
    decreases relationships.len(),
{
    if relationships.len() == 0 {
        Seq::empty()
    } else {
        let r = relationships.last();
        if r.kind == RelationshipKind::Friend && users.dom().contains(r.id) {
            friends_of(relationships.drop_last(), users).push(users[r.id])
        } else {
            friends_of(relationships.drop_last(), users)
        }
    }
}

/// Lists the friends for the sidebar.
pub fn friends(state: &State) -> (list: Vec<User>)
    requires
        state.well_formed(),
    ensures
        views(list@) == friends_of(state@.relationships, state@.users),
{
    let mut list: Vec<User> = Vec::new();
    let ghost all = state@.relationships;
    assert(all.take(0) == Seq::<RelationshipView>::empty());
    assert(views(list@) =~= Seq::<UserView>::empty());
    let mut i: usize = 0;
    while i < state.relationships.len()
        invariant
            i <= state.relationships.len(),
            state.well_formed(),
            all == state@.relationships,
            views(list@) == friends_of(all.take(i as int), state@.users),
        decreases state.relationships.len() - i,
    {
        assert(all.take(i + 1).drop_last() == all.take(i as int));
        assert(all.take(i + 1).last() == state.relationships@[i as int]@);
        let r = &state.relationships[i];
        let ghost before = views(list@);
        if r.kind == RelationshipKind::Friend {
            match state.user_cache.get(r.id.as_str()) {
                Some(user) => {
                    list.push(user.clone());
                    assert(views(list@) =~= before.push(user@));
                },
                None => {},
            }
        }
        i += 1;
    }
    assert(all.take(i as int) == all);
    list
}

} // verus!
