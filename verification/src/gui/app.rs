//! The application: what it holds and what it does about each message.
//!
//! Nothing is fetched, stored or drawn here. A message says what has happened; the
//! answer is the commands to carry out, in order. The credentials of the accounts
//! are handed in as they are known when the message arrives.

use crate::api::gateway::data::DispatchMessage;
use crate::api::gateway::GatewayEvent;
use crate::data::cache::TextMap;
use crate::data::settings::{
    clone_texts, contains_text, remove_text, texts_view, without, Settings, SettingsView,
};
use crate::data::state::{
    ConnectionState, ConnectionView, Message, PrivateChannel, PrivateChannelView, State,
    StateView,
};
use crate::data::user::{User, UserView};
use crate::gui::components::guildbar::View as Screen;
use crate::gui::theme::data::ThemeData;
use crate::gui::views::direct_messages::DirectMessagesViewMessage;
use crate::gui::views::settings::accounts_tab::{other_accounts, remove_account, AccountsMessage};
use crate::gui::views::settings::SettingsViewMessage;
use crate::json::text_opt;
use vstd::prelude::*;
use vstd::string::StringExecFns;

verus! {

/// What has happened.
#[derive(Debug)]
pub enum AppMessage {
    /// The settings were read.
    SettingsLoaded(Settings),
    /// The settings were written, or could not be.
    SettingsSaved(bool),
    /// An account was fetched by its token, or could not be. The token comes along
    /// where the account is new and its token is still to be stored.
    AccountLoaded(Option<User>, Option<String>),
    /// The avatar of an account was fetched, or could not be.
    AccountAvatarLoaded(String, bool),
    /// The gateway is ready with the session's first state, or the connect failed.
    GatewayConnected(Option<State>),
    /// The gateway has an event.
    GatewayEvent(GatewayEvent),
    /// The avatar of a user was fetched, or could not be.
    UserAvatarLoaded(String, bool),
    /// The icon of a group was fetched, or could not be.
    GroupIconLoaded(String, bool),
    /// The user picked a view.
    ViewSelect(Screen),
    /// The settings view has something to say.
    SettingsViewMessage(SettingsViewMessage),
    /// The view of direct messages has something to say.
    DirectMessagesViewMessage(DirectMessagesViewMessage),
}

/// What is to be done.
#[derive(Debug)]
pub enum AppCommand {
    /// Read the settings and report `SettingsLoaded`.
    LoadSettings,
    /// Write these settings and report `SettingsSaved`.
    SaveSettings(Settings),
    /// Fetch the account of this token and report `AccountLoaded`, with the token
    /// where the flag says so.
    LoadAccount(String, bool),
    /// Store the token (second) of the account with this id (first).
    StoreToken(String, String),
    /// Fetch the avatar of the account with this id, avatar and discriminator, and
    /// report `AccountAvatarLoaded`.
    LoadAccountAvatar(String, Option<String>, u16),
    /// Fetch the avatar of the user with this id, avatar and discriminator, and
    /// report `UserAvatarLoaded`.
    LoadUserAvatar(String, Option<String>, u16),
    /// Fetch the icon (second) of the channel with this id (first) and report
    /// `GroupIconLoaded`.
    LoadGroupIcon(String, String),
    /// Connect the gateway with this token and report `GatewayConnected`.
    Connect(String),
    /// Close the gateway.
    CloseGateway,
}

/// Mathematical value of an [`AppCommand`].
pub ghost enum CommandView {
    LoadSettings,
    SaveSettings(SettingsView),
    LoadAccount(Seq<char>, bool),
    StoreToken(Seq<char>, Seq<char>),
    LoadAccountAvatar(Seq<char>, Option<Seq<char>>, u16),
    LoadUserAvatar(Seq<char>, Option<Seq<char>>, u16),
    LoadGroupIcon(Seq<char>, Seq<char>),
    Connect(Seq<char>),
    CloseGateway,
}

impl View for AppCommand {
    type V = CommandView;

    open spec fn view(&self) -> CommandView {
        match self {
            AppCommand::LoadSettings => CommandView::LoadSettings,
            AppCommand::SaveSettings(settings) => CommandView::SaveSettings(settings@),
            AppCommand::LoadAccount(token, keep) => CommandView::LoadAccount(token@, *keep),
            AppCommand::StoreToken(id, token) => CommandView::StoreToken(id@, token@),
            AppCommand::LoadAccountAvatar(id, avatar, discriminator) => {
                CommandView::LoadAccountAvatar(id@, text_opt(*avatar), *discriminator)
            },
            AppCommand::LoadUserAvatar(id, avatar, discriminator) => CommandView::LoadUserAvatar(
                id@,
                text_opt(*avatar),
                *discriminator,
            ),
            AppCommand::LoadGroupIcon(id, icon) => CommandView::LoadGroupIcon(id@, icon@),
            AppCommand::Connect(token) => CommandView::Connect(token@),
            AppCommand::CloseGateway => CommandView::CloseGateway,
        }
    }
}

/// The views of a list of commands.
pub open spec fn commands_view(commands: Seq<AppCommand>) -> Seq<CommandView> {
    commands.map_values(|c: AppCommand| c@)
}

/// The application.
#[derive(Debug)]
pub struct App {
    pub connection_state: ConnectionState,
    pub settings: Settings,
    pub active_view: Screen,
    pub accounts: Vec<User>,
}

/// Mathematical value of an [`App`].
pub ghost struct AppView {
    pub connection_state: ConnectionView,
    pub settings: SettingsView,
    pub active_view: Screen,
    pub accounts: Seq<UserView>,
}

impl View for App {
    type V = AppView;

    open spec fn view(&self) -> AppView {
        AppView {
            connection_state: self.connection_state@,
            settings: self.settings@,
            active_view: self.active_view,
            accounts: self.accounts@.map_values(|u: User| u@),
        }
    }
}

/// The credentials that are known: tokens by the ids of their accounts.
pub type Vault = Map<Seq<char>, Seq<char>>;

/// The commands that fetch the accounts of `ids`, as far as their tokens are known.
pub open spec fn load_commands(ids: Seq<Seq<char>>, vault: Vault) -> Seq<CommandView>
    decreases ids.len(),
{
    if ids.len() == 0 {
        Seq::empty()
    } else if vault.dom().contains(ids.last()) {
        load_commands(ids.drop_last(), vault).push(
            CommandView::LoadAccount(vault[ids.last()], false),
        )
    } else {
        load_commands(ids.drop_last(), vault)
    }
}

/// The commands that fetch the avatars of the users under `keys`.
pub open spec fn avatar_commands(keys: Seq<Seq<char>>, users: Map<Seq<char>, UserView>) -> Seq<
    CommandView,
>
    decreases keys.len(),
{
    if keys.len() == 0 {
        Seq::empty()
    } else {
        let user = users[keys.last()];
        avatar_commands(keys.drop_last(), users).push(
            CommandView::LoadUserAvatar(user.id, user.avatar, user.discriminator),
        )
    }
}

/// The commands that fetch the icons of the channels that have one.
pub open spec fn icon_commands(channels: Seq<PrivateChannelView>) -> Seq<CommandView>
    decreases channels.len(),
{
    if channels.len() == 0 {
        Seq::empty()
    } else {
        match channels.last().icon {
            Some(icon) => icon_commands(channels.drop_last()).push(
                CommandView::LoadGroupIcon(channels.last().id, icon),
            ),
            None => icon_commands(channels.drop_last()),
        }
    }
}

/// The application and the commands after an attempt to connect the account with
/// the id `id`: connecting where its token is known, disconnected where it is not.
pub open spec fn connecting(pre: AppView, id: Seq<char>, vault: Vault) -> (
    AppView,
    Seq<CommandView>,
) {
    if vault.dom().contains(id) {
        (
            AppView { connection_state: ConnectionView::Connecting, ..pre },
            seq![CommandView::Connect(vault[id])],
        )
    } else {
        (AppView { connection_state: ConnectionView::Disconnected, ..pre }, Seq::empty())
    }
}

/// The state of a session with one more message of a channel.
pub open spec fn with_message(state: StateView, message: DispatchMessage) -> StateView {
    let shown = Message::Default { user_id: message.author.id, content: message.content };
    StateView {
        messages: state.messages.insert(
            message.channel_id@,
            if state.messages.dom().contains(message.channel_id@) {
                state.messages[message.channel_id@].push(shown)
            } else {
                seq![shown]
            },
        ),
        ..state
    }
}

/// The application and the commands after a message, where `vault` holds the
/// credentials that are known.
///
/// Loaded settings replace the current ones, but for the accounts, which come back
/// one by one as they are fetched; the last active account is connected. A fetched
/// account that is new is added, its token stored where it came along, the settings
/// saved and its avatar fetched. A ready gateway brings the session's state; the
/// avatars of all users it knows and the icons of its channels are fetched. A
/// gateway that needs a reconnect is connected again for the active account. A
/// message of a channel is kept with the session. A view is shown only while
/// connected; otherwise the settings are. Changed settings are saved; an added
/// account is fetched; a selected account that is not the active one is connected
/// in place of it; a removed account is forgotten, and the gateway closed where it
/// was the active one. Everything else changes nothing.
pub open spec fn updated(pre: AppView, message: AppMessage, vault: Vault) -> (
    AppView,
    Seq<CommandView>,
) {
    let connected = pre.connection_state is Connecetd;
    match message {
        AppMessage::SettingsLoaded(settings) => {
            let loaded = AppView {
                settings: SettingsView { accounts: Seq::empty(), ..settings@ },
                ..pre
            };
            let loading = load_commands(settings@.accounts, vault);
            if settings@.active_account.len() > 0 {
                (
                    connecting(loaded, settings@.active_account, vault).0,
                    loading + connecting(loaded, settings@.active_account, vault).1,
                )
            } else {
                (loaded, loading)
            }
        },
        AppMessage::AccountLoaded(Some(user), token) => {
            if pre.settings.accounts.contains(user@.id) {
                (pre, Seq::empty())
            } else {
                let settings = SettingsView {
                    accounts: pre.settings.accounts.push(user@.id),
                    ..pre.settings
                };
                let storing = match token {
                    Some(t) => seq![CommandView::StoreToken(user@.id, t@)],
                    None => Seq::empty(),
                };
                (
                    AppView { settings, accounts: pre.accounts.push(user@), ..pre },
                    storing + seq![
                        CommandView::SaveSettings(settings),
                        CommandView::LoadAccountAvatar(
                            user@.id,
                            user@.avatar,
                            user@.discriminator,
                        ),
                    ],
                )
            }
        },
        AppMessage::GatewayConnected(Some(state)) => (
            AppView { connection_state: ConnectionView::Connecetd(state@), ..pre },
            avatar_commands(state.user_cache.keys(), state@.users) + icon_commands(
                state@.private_channels,
            ),
        ),
        AppMessage::GatewayConnected(None) => (
            AppView { connection_state: ConnectionView::Disconnected, ..pre },
            Seq::empty(),
        ),
        AppMessage::GatewayEvent(GatewayEvent::ReconnectNeeded) => connecting(
            pre,
            pre.settings.active_account,
            vault,
        ),
        AppMessage::GatewayEvent(GatewayEvent::Message(m)) => match pre.connection_state {
            ConnectionView::Connecetd(state) => (
                AppView {
                    connection_state: ConnectionView::Connecetd(with_message(state, m)),
                    ..pre
                },
                Seq::empty(),
            ),
            _ => (pre, Seq::empty()),
        },
        AppMessage::ViewSelect(view) => (
            AppView {
                active_view: if connected {
                    view
                } else {
                    Screen::Settings
                },
                ..pre
            },
            Seq::empty(),
        ),
        AppMessage::SettingsViewMessage(SettingsViewMessage::SettingsChanged(settings)) => (
            AppView { settings: settings@, ..pre },
            seq![CommandView::SaveSettings(settings@)],
        ),
        AppMessage::SettingsViewMessage(
            SettingsViewMessage::AccountsMessage(AccountsMessage::AccountAdded(token)),
        ) => (pre, seq![CommandView::LoadAccount(token@, true)]),
        AppMessage::SettingsViewMessage(
            SettingsViewMessage::AccountsMessage(AccountsMessage::AccountSelected(id)),
        ) => {
            if id@ == pre.settings.active_account {
                (pre, Seq::empty())
            } else {
                let closing = if connected {
                    seq![CommandView::CloseGateway]
                } else {
                    Seq::empty()
                };
                if vault.dom().contains(id@) {
                    let settings = SettingsView { active_account: id@, ..pre.settings };
                    (
                        AppView {
                            settings,
                            connection_state: ConnectionView::Connecting,
                            ..pre
                        },
                        closing + seq![
                            CommandView::SaveSettings(settings),
                            CommandView::Connect(vault[id@]),
                        ],
                    )
                } else {
                    (AppView { connection_state: ConnectionView::Disconnected, ..pre }, closing)
                }
            }
        },
        AppMessage::SettingsViewMessage(
            SettingsViewMessage::AccountsMessage(AccountsMessage::AccountRemoved(id)),
        ) => {
            let active = pre.settings.active_account == id@;
            let settings = SettingsView {
                theme: pre.settings.theme,
                active_account: if active {
                    Seq::empty()
                } else {
                    pre.settings.active_account
                },
                accounts: without(pre.settings.accounts, id@),
            };
            (
                AppView {
                    settings,
                    accounts: other_accounts(pre.accounts, id@),
                    connection_state: if active && connected {
                        ConnectionView::Disconnected
                    } else {
                        pre.connection_state
                    },
                    ..pre
                },
                if active && connected {
                    seq![CommandView::CloseGateway, CommandView::SaveSettings(settings)]
                } else {
                    seq![CommandView::SaveSettings(settings)]
                },
            )
        },
        _ => (pre, Seq::empty()),
    }
}

impl AppMessage {
    /// The validity of a message: a state that comes with it is well formed.
    pub open spec fn well_formed(&self) -> bool {
        match self {
            AppMessage::GatewayConnected(Some(state)) => state.well_formed(),
            _ => true,
        }
    }
}

fn clone_text(text: &Option<String>) -> (copy: Option<String>)
    ensures
        copy == *text,
{
    match text {
        Some(t) => Some(t.clone()),
        None => None,
    }
}

fn push_load_commands(ids: &Vec<String>, vault: &TextMap<String>, commands: &mut Vec<AppCommand>)
    requires
        vault.well_formed(),
    ensures
        commands_view(final(commands)@) == commands_view(old(commands)@) + load_commands(
            texts_view(ids@),
            vault@,
        ),
{
    let ghost all = texts_view(ids@);
    let ghost start = commands_view(commands@);
    assert(all.take(0) == Seq::<Seq<char>>::empty());
    assert(start + Seq::<CommandView>::empty() == start);
    let mut i: usize = 0;
    while i < ids.len()
        invariant
            i <= ids.len(),
            vault.well_formed(),
            all == texts_view(ids@),
            commands_view(commands@) == start + load_commands(all.take(i as int), vault@),
        decreases ids.len() - i,
    {
        assert(all.take(i + 1).drop_last() == all.take(i as int));
        assert(all.take(i + 1).last() == ids@[i as int]@);
        let ghost before = commands_view(commands@);
        match vault.get(ids[i].as_str()) {
            Some(token) => {
                commands.push(AppCommand::LoadAccount(token.clone(), false));
                assert(commands_view(commands@) =~= before.push(
                    CommandView::LoadAccount(token@, false),
                ));
                assert(start + load_commands(all.take(i as int), vault@).push(
                    CommandView::LoadAccount(token@, false),
                ) =~= (start + load_commands(all.take(i as int), vault@)).push(
                    CommandView::LoadAccount(token@, false),
                ));
            },
            None => {},
        }
        i += 1;
    }
    assert(all.take(i as int) == all);
}

fn push_avatar_commands(state: &State, commands: &mut Vec<AppCommand>)
    requires
        state.well_formed(),
    ensures
        commands_view(final(commands)@) == commands_view(old(commands)@) + avatar_commands(
            state.user_cache.keys(),
            state@.users,
        ),
{
    let ghost keys = state.user_cache.keys();
    let ghost start = commands_view(commands@);
    assert(keys.take(0) == Seq::<Seq<char>>::empty());
    assert(start + Seq::<CommandView>::empty() == start);
    let n = state.user_cache.len();
    let mut i: usize = 0;
    while i < n
        invariant
            i <= n,
            n == keys.len(),
            state.well_formed(),
            keys == state.user_cache.keys(),
            commands_view(commands@) == start + avatar_commands(keys.take(i as int), state@.users),
        decreases n - i,
    {
        assert(keys.take(i + 1).drop_last() == keys.take(i as int));
        assert(keys.take(i + 1).last() == keys[i as int]);
        let ghost before = commands_view(commands@);
        let (_, user) = state.user_cache.entry(i);
        let command = AppCommand::LoadUserAvatar(
            user.id.clone(),
            clone_text(&user.avatar),
            user.discriminator,
        );
        let ghost c = command@;
        commands.push(command);
        assert(commands_view(commands@) =~= before.push(c));
        assert(start + avatar_commands(keys.take(i as int), state@.users).push(c) =~= (start
            + avatar_commands(keys.take(i as int), state@.users)).push(c));
        i += 1;
    }
    assert(keys.take(i as int) == keys);
}

fn push_icon_commands(channels: &Vec<PrivateChannel>, commands: &mut Vec<AppCommand>)
    ensures
        commands_view(final(commands)@) == commands_view(old(commands)@) + icon_commands(
            crate::data::state::channels_view(channels@),
        ),
{
    let ghost all = crate::data::state::channels_view(channels@);
    let ghost start = commands_view(commands@);
    assert(all.take(0) == Seq::<PrivateChannelView>::empty());
    assert(start + Seq::<CommandView>::empty() == start);
    let mut i: usize = 0;
    while i < channels.len()
        invariant
            i <= channels.len(),
            all == crate::data::state::channels_view(channels@),
            commands_view(commands@) == start + icon_commands(all.take(i as int)),
        decreases channels.len() - i,
    {
        assert(all.take(i + 1).drop_last() == all.take(i as int));
        assert(all.take(i + 1).last() == channels@[i as int]@);
        let ghost before = commands_view(commands@);
        match &channels[i].icon {
            Some(icon) => {
                let command = AppCommand::LoadGroupIcon(channels[i].id.clone(), icon.clone());
                let ghost c = command@;
                commands.push(command);
                assert(commands_view(commands@) =~= before.push(c));
                assert(start + icon_commands(all.take(i as int)).push(c) =~= (start
                    + icon_commands(all.take(i as int))).push(c));
            },
            None => {},
        }
        i += 1;
    }
    assert(all.take(i as int) == all);
}

impl App {
    /// The invariant of the type: the state of a connected application is well
    /// formed.
    pub open spec fn well_formed(&self) -> bool {
        self.connection_state.well_formed()
    }

    /// The application at its start: disconnected, with the settings of a first
    /// start, showing the settings; the settings are to be read.
    pub fn new() -> (started: (App, Vec<AppCommand>))
        ensures
            started.0.well_formed(),
            started.0@ == (AppView {
                connection_state: ConnectionView::Disconnected,
                settings: SettingsView {
                    theme: crate::gui::theme::data::dark_id(),
                    active_account: Seq::empty(),
                    accounts: Seq::empty(),
                },
                active_view: Screen::Settings,
                accounts: Seq::empty(),
            }),
            commands_view(started.1@) == seq![CommandView::LoadSettings],
    {
        let app = App {
            connection_state: ConnectionState::Disconnected,
            settings: Settings::default(),
            active_view: Screen::Settings,
            accounts: Vec::new(),
        };
        let mut commands: Vec<AppCommand> = Vec::new();
        commands.push(AppCommand::LoadSettings);
        assert(app@.accounts =~= Seq::empty());
        assert(commands_view(commands@) =~= seq![CommandView::LoadSettings]);
        (app, commands)
    }

    /// The title of the window.
    pub fn title(&self) -> (title: String)
        ensures
            title@ == "Strife"@,
    {
        String::from_str("Strife")
    }

    /// The theme that the settings name: the light one by its id, else the dark one.
    pub fn theme(&self) -> (theme: ThemeData)
        ensures
            theme.id@ == if self@.settings.theme == crate::gui::theme::data::light_id() {
                crate::gui::theme::data::light_id()
            } else {
                crate::gui::theme::data::dark_id()
            },
            theme.name@ == if self@.settings.theme == crate::gui::theme::data::light_id() {
                "Default Light"@
            } else {
                "Default Dark"@
            },
    {
        ThemeData::by_id(self.settings.theme.as_str())
    }

    /// What is shown beside the bar: the settings, the direct messages while
    /// connected, and nothing where direct messages are picked while not connected.
    pub fn screen(&self) -> (shown: Option<Screen>)
        ensures
            shown == if self@.active_view == Screen::Settings {
                Some(Screen::Settings)
            } else if self@.connection_state is Connecetd {
                Some(Screen::DirectMessages)
            } else {
                None
            },
    {
        match self.active_view {
            Screen::DirectMessages => {
                if self.connection_state.is_connected() {
                    Some(Screen::DirectMessages)
                } else {
                    None
                }
            },
            Screen::Settings => Some(Screen::Settings),
        }
    }

    /// Whether the events of a gateway are to be listened to: while connected.
    pub fn subscription(&self) -> (listening: bool)
        ensures
            listening == (self@.connection_state is Connecetd),
    {
        self.connection_state.is_connected()
    }

    /// The command that saves the settings as they are.
    pub fn save_settings(&self) -> (command: AppCommand)
        ensures
            command@ == CommandView::SaveSettings(self@.settings),
    {
        AppCommand::SaveSettings(self.settings.clone())
    }

    fn connect(&mut self, id: &str, vault: &TextMap<String>, commands: &mut Vec<AppCommand>)
        requires
            vault.well_formed(),
        ensures
            final(self).well_formed(),
            final(self)@ == connecting(old(self)@, id@, vault@).0,
            commands_view(final(commands)@) == commands_view(old(commands)@) + connecting(
                old(self)@,
                id@,
                vault@,
            ).1,
    {
        let ghost before = commands_view(commands@);
        match vault.get(id) {
            Some(token) => {
                self.connection_state = ConnectionState::Connecting;
                commands.push(AppCommand::Connect(token.clone()));
                assert(commands_view(commands@) =~= before + seq![CommandView::Connect(token@)]);
            },
            None => {
                self.connection_state = ConnectionState::Disconnected;
                assert(before + Seq::<CommandView>::empty() == before);
            },
        }
    }

    /// Takes a message and says what is to be done about it.
    pub fn update(&mut self, message: AppMessage, vault: &TextMap<String>) -> (commands: Vec<
        AppCommand,
    >)
        requires
            old(self).well_formed(),
            message.well_formed(),
            vault.well_formed(),
        ensures
            final(self).well_formed(),
            (final(self)@, commands_view(commands@)) == updated(old(self)@, message, vault@),
    {
        let mut commands: Vec<AppCommand> = Vec::new();
        let ghost none = Seq::<CommandView>::empty();
        assert(commands_view(commands@) =~= none);
        match message {
            AppMessage::SettingsLoaded(settings) => {
                let ghost loaded = settings@;
                assert(none + load_commands(loaded.accounts, vault@) == load_commands(
                    loaded.accounts,
                    vault@,
                ));
                push_load_commands(&settings.accounts, vault, &mut commands);
                let active = settings.active_account.clone();
                self.settings = Settings {
                    theme: settings.theme,
                    active_account: settings.active_account,
                    accounts: Vec::new(),
                };
                assert(self.settings@.accounts =~= Seq::empty());
                if !active.as_str().is_empty() {
                    self.connect(active.as_str(), vault, &mut commands);
                } else {
                    assert(active@.len() == 0);
                }
            },
            AppMessage::AccountLoaded(Some(user), token) => {
                if !contains_text(&self.settings.accounts, user.id.as_str()) {
                    let ghost u = user@;
                    let ghost old_ids = self.settings@.accounts;
                    let ghost old_accounts = self@.accounts;
                    let id = user.id.clone();
                    let avatar = clone_text(&user.avatar);
                    let discriminator = user.discriminator;
                    match token {
                        Some(t) => {
                            commands.push(AppCommand::StoreToken(id.clone(), t));
                        },
                        None => {},
                    }
                    self.accounts.push(user);
                    self.settings.accounts.push(id.clone());
                    assert(self.settings@.accounts =~= old_ids.push(u.id));
                    assert(self@.accounts =~= old_accounts.push(u));
                    commands.push(self.save_settings());
                    commands.push(AppCommand::LoadAccountAvatar(id, avatar, discriminator));
                    assert(commands_view(commands@) =~= updated(old(self)@, message, vault@).1);
                }
            },
            AppMessage::GatewayConnected(Some(state)) => {
                push_avatar_commands(&state, &mut commands);
                push_icon_commands(&state.private_channels, &mut commands);
                assert(none + avatar_commands(state.user_cache.keys(), state@.users)
                    == avatar_commands(state.user_cache.keys(), state@.users));
                self.connection_state = ConnectionState::Connecetd(state);
            },
            AppMessage::GatewayConnected(None) => {
                self.connection_state = ConnectionState::Disconnected;
            },
            AppMessage::GatewayEvent(GatewayEvent::ReconnectNeeded) => {
                let active = self.settings.active_account.clone();
                assert(none + connecting(old(self)@, active@, vault@).1 == connecting(
                    old(self)@,
                    active@,
                    vault@,
                ).1);
                self.connect(active.as_str(), vault, &mut commands);
            },
            AppMessage::GatewayEvent(GatewayEvent::Message(m)) => {
                match &mut self.connection_state {
                    ConnectionState::Connecetd(state) => {
                        state.insert_message(
                            m.channel_id,
                            Message::Default { user_id: m.author.id, content: m.content },
                        );
                    },
                    _ => {},
                }
            },
            AppMessage::ViewSelect(view) => {
                self.active_view = if self.connection_state.is_connected() {
                    view
                } else {
                    Screen::Settings
                };
            },
            AppMessage::SettingsViewMessage(SettingsViewMessage::SettingsChanged(settings)) => {
                self.settings = settings;
                commands.push(self.save_settings());
                assert(commands_view(commands@) =~= seq![
                    CommandView::SaveSettings(self@.settings),
                ]);
            },
            AppMessage::SettingsViewMessage(
                SettingsViewMessage::AccountsMessage(AccountsMessage::AccountAdded(token)),
            ) => {
                let ghost t = token@;
                commands.push(AppCommand::LoadAccount(token, true));
                assert(commands_view(commands@) =~= seq![CommandView::LoadAccount(t, true)]);
            },
            AppMessage::SettingsViewMessage(
                SettingsViewMessage::AccountsMessage(AccountsMessage::AccountSelected(id)),
            ) => {
                if !crate::json::text_eq(id.as_str(), self.settings.active_account.as_str()) {
                    if self.connection_state.is_connected() {
                        commands.push(AppCommand::CloseGateway);
                    }
                    let token = match vault.get(id.as_str()) {
                        Some(token) => Some(token.clone()),
                        None => None,
                    };
                    match token {
                        Some(token) => {
                            self.settings.active_account = id;
                            self.connection_state = ConnectionState::Connecting;
                            commands.push(self.save_settings());
                            commands.push(AppCommand::Connect(token));
                        },
                        None => {
                            self.connection_state = ConnectionState::Disconnected;
                        },
                    }
                    assert(commands_view(commands@) =~= updated(old(self)@, message, vault@).1);
                }
            },
            AppMessage::SettingsViewMessage(
                SettingsViewMessage::AccountsMessage(AccountsMessage::AccountRemoved(id)),
            ) => {
                if crate::json::text_eq(self.settings.active_account.as_str(), id.as_str()) {
                    self.settings.active_account = String::new();
                    if self.connection_state.is_connected() {
                        commands.push(AppCommand::CloseGateway);
                        self.connection_state = ConnectionState::Disconnected;
                    }
                }
                self.settings.accounts = remove_text(&self.settings.accounts, id.as_str());
                self.accounts = remove_account(&self.accounts, id.as_str());
                commands.push(self.save_settings());
                assert(commands_view(commands@) =~= updated(old(self)@, message, vault@).1);
            },
            _ => {},
        }
        commands
    }
}

} // verus!
