//! The view of private channels.

use crate::data::state::{
    channels_view, PrivateChannel, PrivateChannelKind, PrivateChannelView, State, StateView,
};
use crate::data::user::{User, UserView};
use crate::gui::components::sidebar::{EntryView, SidebarEntryType};
use crate::json::views;
use vstd::string::StringExecFns;
use crate::gui::components::text_chat::TextChatMessage;
use vstd::prelude::*;

verus! {

/// What the view shows beside its sidebar: the friends, or a channel by its id.
#[derive(Debug, Clone)]
pub enum Tab {
    Friends,
    Channel(String),
}

impl Default for Tab {
    fn default() -> (tab: Tab)
        ensures
            tab is Friends,
    {
        Tab::Friends
    }
}

/// What the view tells the application; nothing yet.
#[derive(Debug, Clone, Copy, PartialEq, Eq, Structural)]
pub enum PrivateChannelsViewMessage {
    Default,
}

/// What the view remembers: the tab that is shown.
#[derive(Debug, Clone)]
pub struct PrivateChannelsState {
    pub active_tab: Tab,
}

impl Default for PrivateChannelsState {
    fn default() -> (state: PrivateChannelsState)
        ensures
            state.active_tab is Friends,
    {
        PrivateChannelsState { active_tab: Tab::Friends }
    }
}

/// What the user did in the view.
#[derive(Debug, Clone)]
pub enum Event {
    TabSelected(SidebarEntryType<()>),
    TextChatMessage(TextChatMessage),
}

/// Mathematical value of a [`Tab`].
pub ghost enum TabView {
    Friends,
    Channel(Seq<char>),
}

impl View for Tab {
    type V = TabView;

    open spec fn view(&self) -> TabView {
        match self {
            Tab::Friends => TabView::Friends,
            Tab::Channel(id) => TabView::Channel(id@),
        }
    }
}

/// The tab that is shown after an event: the channel whose entry was picked, the
/// friends after any other entry, and the same tab after a message of the chat.
pub open spec fn tab_after(active: TabView, event: Event) -> TabView {
    match event {
        Event::TabSelected(SidebarEntryType::PrivateChannel(channel, _)) => TabView::Channel(
            channel.id@,
        ),
        Event::TabSelected(_) => TabView::Friends,
        Event::TextChatMessage(_) => active,
    }
}

/// Takes an event of the view. The application is told nothing.
pub fn update(state: &mut PrivateChannelsState, event: Event) -> (message: Option<
    PrivateChannelsViewMessage,
>)
    ensures
        message is None,
        final(state).active_tab@ == tab_after(old(state).active_tab@, event),
{
    match event {
        Event::TabSelected(entry) => match entry {
            SidebarEntryType::PrivateChannel(channel, _) => {
                let PrivateChannel { id, .. } = channel;
                state.active_tab = Tab::Channel(id);
            },
            _ => {
                state.active_tab = Tab::Friends;
            },
        },
        Event::TextChatMessage(_) => {},
    }
    None
}

/// The entry of a channel: with the user it is held with, where it is a direct
/// conversation and its first recipient is known.
pub open spec fn channel_entry(channel: PrivateChannelView, users: Map<Seq<char>, UserView>) -> EntryView<
    (),
> {
    let first = if channel.recipients.len() > 0 {
        channel.recipients[0]
    } else {
        Seq::empty()
    };
    EntryView::PrivateChannel(
        channel,
        if channel.kind == PrivateChannelKind::DirectMessage && users.dom().contains(first) {
            Some(users[first])
        } else {
            None
        },
    )
}

/// The entries of the sidebar: the friends, a gap, and the channels in their order.
pub open spec fn sidebar_entries(state: StateView) -> Seq<EntryView<()>> {
    seq![EntryView::Button((), "Friends"@), EntryView::Spacer] + state.private_channels.map_values(
        |c: PrivateChannelView| channel_entry(c, state.users),
    )
}

/// Lists the entries of the sidebar.
pub fn entries(state: &State) -> (list: Vec<SidebarEntryType<()>>)
    requires
        state.well_formed(),
    ensures
        views(list@) == sidebar_entries(state@),
{
    let mut list: Vec<SidebarEntryType<()>> = Vec::new();
    list.push(SidebarEntryType::Button((), String::from_str("Friends")));
    list.push(SidebarEntryType::Spacer);
    let ghost channels = state@.private_channels;
    let mut i: usize = 0;
    while i < state.private_channels.len()
        invariant
            i <= state.private_channels.len(),
            state.well_formed(),
            channels == state@.private_channels,
            list@.len() == i + 2,
            views(list@)[0] == EntryView::Button((), "Friends"@),
            views(list@)[1] == EntryView::<()>::Spacer,
            forall|k: int|
                0 <= k < i ==> #[trigger] views(list@)[k + 2] == channel_entry(
                    channels[k],
                    state@.users,
                ),
        decreases state.private_channels.len() - i,
    {
        let channel = &state.private_channels[i];
        assert(channels[i as int] == channel@);
        let user = match channel.kind {
            PrivateChannelKind::DirectMessage => {
                let found = if channel.recipients.len() > 0 {
                    state.user_cache.get(channel.recipients[0].as_str())
                } else {
                    state.user_cache.get("")
                };
                proof {
                    reveal_strlit("");
                    assert(channel@.recipients.len() == channel.recipients@.len());
                    if channel.recipients@.len() > 0 {
                        assert(channel@.recipients[0] == channel.recipients@[0]@);
                    } else {
                        assert(""@ =~= Seq::<char>::empty());
                    }
                }
                match found {
                    Some(user) => Some(user.clone()),
                    None => None,
                }
            },
            PrivateChannelKind::Group => None,
        };
        let ghost before = views(list@);
        let entry = SidebarEntryType::PrivateChannel(channel.clone(), user);
        let ghost e = entry@;
        list.push(entry);
        assert(views(list@) =~= before.push(e));
        i += 1;
    }
    let ghost expected = sidebar_entries(state@);
    assert(expected.len() == list@.len());
    assert forall|j: int| 0 <= j < expected.len() implies views(list@)[j] == expected[j] by {
        if j >= 2 {
            let k = j - 2;
            assert(views(list@)[k + 2] == channel_entry(channels[k], state@.users));
        }
    }
    assert(views(list@) =~= expected);
    list
}

} // verus!
