//! The bar from which the user picks a view.

use vstd::prelude::*;

verus! {

/// The views that the bar leads to.
#[derive(Debug, Clone, Copy, PartialEq, Eq, Structural)]
pub enum View {
    DirectMessages,
    Settings,
}

/// What the user did on the bar.
#[derive(Debug, Clone, Copy, PartialEq, Eq, Structural)]
pub enum GuildbarEvent {
    DirectMessagesPressed,
    SettingsPressed,
}

/// The view that an event of the bar selects.
pub open spec fn selected_view(event: GuildbarEvent) -> View {
    match event {
        GuildbarEvent::DirectMessagesPressed => View::DirectMessages,
        GuildbarEvent::SettingsPressed => View::Settings,
    }
}

/// The bar: the view that is shown, and what to tell the application when the user
/// picks one.
pub struct Guildbar<F> {
    pub active_view: View,
    pub on_select: F,
}

/// A bar that shows `active_view` as the current one.
pub fn guildbar<Message, F: Fn(View) -> Message>(active_view: View, on_select: F) -> (bar: Guildbar<
    F,
>)
    ensures
        bar.active_view == active_view,
        bar.on_select == on_select,
{
    Guildbar::new(active_view, on_select)
}

impl<F> Guildbar<F> {
    /// A bar that shows `active_view` as the current one.
    pub fn new(active_view: View, on_select: F) -> (bar: Guildbar<F>)
        ensures
            bar.active_view == active_view,
            bar.on_select == on_select,
    {
        Guildbar { active_view, on_select }
    }

    /// Whether the button of `view` is drawn as the selected one.
    pub fn is_active(&self, view: View) -> (active: bool)
        ensures
            active == (self.active_view == view),
    {
        self.active_view == view
    }

    /// The message for the application after an event: what `on_select` makes of
    /// the view that the event selects.
    pub fn update<Message>(&self, event: GuildbarEvent) -> (message: Option<Message>) where
        F: Fn(View) -> Message,

        requires
            call_requires(self.on_select, (selected_view(event),)),
        ensures
            match message {
                Some(m) => call_ensures(self.on_select, (selected_view(event),), m),
                None => false,
            },
    {
        match event {
            GuildbarEvent::DirectMessagesPressed => Some((self.on_select)(View::DirectMessages)),
            GuildbarEvent::SettingsPressed => Some((self.on_select)(View::Settings)),
        }
    }
}

} // verus!
