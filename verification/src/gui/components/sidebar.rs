//! The list of entries at the side of a view.

use crate::data::state::{PrivateChannel, PrivateChannelView};
use crate::data::user::{User, UserView};
use vstd::prelude::*;

verus! {

/// An entry of a sidebar: a button that stands for a value, a private channel with
/// the user it is held with, or a gap.
#[derive(Debug, Clone)]
pub enum SidebarEntryType<T> {
    Button(T, String),
    PrivateChannel(PrivateChannel, Option<User>),
    Spacer,
}

/// Mathematical value of a [`SidebarEntryType`].
pub ghost enum EntryView<V> {
    Button(V, Seq<char>),
    PrivateChannel(PrivateChannelView, Option<UserView>),
    Spacer,
}

impl<T: View> View for SidebarEntryType<T> {
    type V = EntryView<T::V>;

    open spec fn view(&self) -> EntryView<T::V> {
        match self {
            SidebarEntryType::Button(value, label) => EntryView::Button(value@, label@),
            SidebarEntryType::PrivateChannel(channel, user) => EntryView::PrivateChannel(
                channel@,
                match user {
                    Some(u) => Some(u@),
                    None => None,
                },
            ),
            SidebarEntryType::Spacer => EntryView::Spacer,
        }
    }
}

/// What a sidebar remembers: the entry that was picked last.
#[derive(Debug, Clone)]
pub struct State<T> {
    pub active_entry: Option<SidebarEntryType<T>>,
}

impl<T> State<T> {
    /// A sidebar in which nothing was picked yet.
    pub fn new() -> (state: State<T>)
        ensures
            state.active_entry is None,
    {
        State { active_entry: None }
    }
}

/// Takes the entry that the user picked: remembers its place and hands the entry to
/// `on_select`, whose answer is the message for the view.
pub fn update<T, Message, F: Fn(SidebarEntryType<T>) -> Message>(
    picked: &mut Option<usize>,
    place: usize,
    entry: SidebarEntryType<T>,
    on_select: &F,
) -> (message: Option<Message>)
    requires
        call_requires(*on_select, (entry,)),
    ensures
        *final(picked) == Some(place),
        match message {
            Some(m) => call_ensures(*on_select, (entry,), m),
            None => false,
        },
{
    *picked = Some(place);
    Some(on_select(entry))
}

/// Whether the entry at `place` of `count` entries is drawn as the selected one,
/// where `picked` is the place of the entry that was picked last: the picked entry,
/// or the first one while none was picked.
pub open spec fn is_selected(picked: Option<usize>, place: usize, count: usize) -> bool {
    place < count && match picked {
        Some(p) => p == place,
        None => place == 0,
    }
}

/// Decides whether an entry is drawn as the selected one.
pub fn selected(picked: Option<usize>, place: usize, count: usize) -> (drawn: bool)
    ensures
        drawn == is_selected(picked, place, count),
{
    place < count && match picked {
        Some(p) => p == place,
        None => place == 0,
    }
}

} // verus!
