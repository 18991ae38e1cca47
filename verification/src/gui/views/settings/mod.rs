//! The view of the settings.

pub mod accounts_tab;

pub use crate::gui::views::settings::accounts_tab::AccountsMessage;

use crate::data::settings::{Settings, SettingsView};
use crate::gui::components::sidebar::SidebarEntryType;
use vstd::prelude::*;
use vstd::string::StringExecFns;

verus! {

/// The tabs of the settings.
#[derive(Debug, Clone, Copy, PartialEq, Eq, Structural)]
pub enum Tab {
    Accounts,
    Appearance,
}

impl Tab {
    /// The entries of the sidebar: one button for each tab, accounts first.
    pub fn sidebar_entries() -> (entries: Vec<SidebarEntryType<Tab>>)
        ensures
            entries@.len() == 2,
            entries@[0] matches SidebarEntryType::Button(tab, label) && tab == Tab::Accounts
                && label@ == "Accounts"@,
            entries@[1] matches SidebarEntryType::Button(tab, label) && tab == Tab::Appearance
                && label@ == "Appearance"@,
    {
        let mut entries: Vec<SidebarEntryType<Tab>> = Vec::new();
        entries.push(SidebarEntryType::Button(Tab::Accounts, String::from_str("Accounts")));
        entries.push(SidebarEntryType::Button(Tab::Appearance, String::from_str("Appearance")));
        entries
    }
}

/// What the view tells the application.
#[derive(Debug, Clone)]
pub enum SettingsViewMessage {
    SettingsChanged(Settings),
    AccountsMessage(AccountsMessage),
}

/// What the view remembers: the tab that is shown.
#[derive(Debug, Clone)]
pub struct State {
    pub active_tab: Tab,
}

impl Default for State {
    fn default() -> (state: State)
        ensures
            state.active_tab == Tab::Accounts,
    {
        State { active_tab: Tab::Accounts }
    }
}

/// What the user did in the view.
#[derive(Debug, Clone)]
pub enum Event {
    TabSelected(SidebarEntryType<Tab>),
    AccountsMessage(AccountsMessage),
    ThemeSelected(String),
}

/// The tab that is shown after an event: the tab of the button that was pressed,
/// and the same tab after anything else.
pub open spec fn tab_after(active: Tab, event: Event) -> Tab {
    match event {
        Event::TabSelected(SidebarEntryType::Button(tab, _)) => tab,
        _ => active,
    }
}

/// Takes an event of the view. A message of the accounts tab is passed on; a theme
/// that was picked is passed on as the settings with that theme; a tab that was
/// picked is shown and the application is told nothing.
pub fn update(settings: &Settings, state: &mut State, event: Event) -> (message: Option<
    SettingsViewMessage,
>)
    ensures
        final(state).active_tab == tab_after(old(state).active_tab, event),
        match event {
            Event::TabSelected(_) => message is None,
            Event::AccountsMessage(m) => message == Some(SettingsViewMessage::AccountsMessage(m)),
            Event::ThemeSelected(id) => message matches Some(
                SettingsViewMessage::SettingsChanged(changed),
            ) && changed@ == (SettingsView { theme: id@, ..settings@ }),
        },
{
    match event {
        Event::TabSelected(SidebarEntryType::Button(tab, _)) => {
            state.active_tab = tab;
            None
        },
        Event::AccountsMessage(message) => Some(SettingsViewMessage::AccountsMessage(message)),
        Event::ThemeSelected(id) => {
            let accounts = crate::data::settings::clone_texts(&settings.accounts);
            let changed = Settings {
                theme: id,
                active_account: settings.active_account.clone(),
                accounts,
            };
            assert(changed@.accounts =~= settings@.accounts);
            Some(SettingsViewMessage::SettingsChanged(changed))
        },
        _ => None,
    }
}

} // verus!
