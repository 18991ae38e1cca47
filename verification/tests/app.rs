use strife::api::cdn_client::{avatar_url, channel_icon_url, decimal_text, default_avatar_url};
use strife::api::gateway::data::DispatchMessage;
use strife::api::gateway::GatewayEvent;
use strife::data::cache::TextMap;
use strife::data::settings::{clone_texts, contains_text, remove_text, Settings};
use strife::data::state::{
    ConnectionState, Message, PrivateChannel, PrivateChannelKind, State,
};
use strife::data::text::parse_decimal;
use strife::data::user::{Presence, User};
use strife::gui::app::{App, AppCommand, AppMessage};
use strife::gui::components::guildbar::View;
use strife::gui::views::direct_messages::DirectMessagesViewMessage;
use strife::gui::views::settings::accounts_tab::AccountsMessage;
use strife::gui::views::settings::SettingsViewMessage;

fn user(id: &str, avatar: Option<&str>) -> User {
    User {
        id: String::from(id),
        username: format!("user {}", id),
        discriminator: 7,
        accent_color: None,
        avatar: avatar.map(String::from),
        presence: Presence::Offline,
    }
}

fn channel(id: &str, icon: Option<&str>) -> PrivateChannel {
    PrivateChannel {
        id: String::from(id),
        kind: PrivateChannelKind::Group,
        recipients: vec![],
        owner_id: None,
        name: None,
        icon: icon.map(String::from),
        last_message_timestamp: 0,
    }
}

fn vault(entries: Vec<(&str, &str)>) -> TextMap<String> {
    let mut vault = TextMap::new();
    for (id, token) in entries {
        vault.insert(String::from(id), String::from(token));
    }
    vault
}

fn settings(active: &str, accounts: Vec<&str>) -> Settings {
    Settings {
        theme: String::from("strife.light"),
        active_account: String::from(active),
        accounts: accounts.into_iter().map(String::from).collect(),
    }
}

fn state() -> State {
    let mut users = TextMap::new();
    users.insert(String::from("1"), user("1", Some("aa")));
    users.insert(String::from("2"), user("2", None));
    State::new(
        String::from("1"),
        vec![],
        vec![channel("c1", None), channel("c2", Some("ii")), channel("c3", Some("jj"))],
        users,
    )
}

fn connected() -> App {
    let (mut app, _) = App::new();
    app.update(AppMessage::SettingsLoaded(settings("1", vec!["1"])), &vault(vec![("1", "t1")]));
    app.update(AppMessage::GatewayConnected(Some(state())), &vault(vec![]));
    assert!(app.subscription());
    app
}

fn accounts_message(message: AccountsMessage) -> AppMessage {
    AppMessage::SettingsViewMessage(SettingsViewMessage::AccountsMessage(message))
}

#[test]
fn numbers_are_written_in_base_ten() {
    assert_eq!(decimal_text(0), "0");
    assert_eq!(decimal_text(9), "9");
    assert_eq!(decimal_text(10), "10");
    assert_eq!(decimal_text(65535), "65535");
    assert_eq!(decimal_text(u64::MAX), "18446744073709551615");
    for n in [0u64, 1, 99, 100, 4096, u64::MAX] {
        assert_eq!(parse_decimal(&decimal_text(n), u64::MAX), Some(n));
    }
}

#[test]
fn image_addresses() {
    assert_eq!(
        avatar_url("80351110224678912", "8342729096ea", 64),
        "https://cdn.discordapp.com/avatars/80351110224678912/8342729096ea.png?size=64"
    );
    assert_eq!(default_avatar_url(0), "https://cdn.discordapp.com/embed/avatars/0.png?size=16");
    assert_eq!(default_avatar_url(1337), "https://cdn.discordapp.com/embed/avatars/2.png?size=16");
    assert_eq!(default_avatar_url(9999), "https://cdn.discordapp.com/embed/avatars/4.png?size=16");
    assert_eq!(
        channel_icon_url("1", "abc", 1024),
        "https://cdn.discordapp.com/channel-icons/1/abc.png?size=1024"
    );
}

#[test]
fn lists_of_texts() {
    let texts = vec![String::from("a"), String::from("b"), String::from("a"), String::from("c")];
    assert_eq!(clone_texts(&texts), texts);
    assert!(contains_text(&texts, "b"));
    assert!(!contains_text(&texts, "d"));
    assert_eq!(remove_text(&texts, "a"), vec![String::from("b"), String::from("c")]);
    assert_eq!(remove_text(&texts, "d"), texts);
    let copy = settings("1", vec!["1", "2"]).clone();
    assert_eq!(copy.theme, "strife.light");
    assert_eq!(copy.active_account, "1");
    assert_eq!(copy.accounts, vec![String::from("1"), String::from("2")]);
}

#[test]
fn application_starts_by_reading_the_settings() {
    let (app, commands) = App::new();
    assert!(matches!(app.connection_state, ConnectionState::Disconnected));
    assert_eq!(app.active_view, View::Settings);
    assert!(app.accounts.is_empty());
    assert_eq!(app.settings.theme, "strife.dark");
    assert_eq!(commands.len(), 1);
    assert!(matches!(commands[0], AppCommand::LoadSettings));
    assert_eq!(app.title(), "Strife");
    assert_eq!(app.theme().id, "strife.dark");
    assert!(!app.subscription());
}

#[test]
fn loaded_settings_fetch_the_accounts_and_connect() {
    let (mut app, _) = App::new();
    let commands = app.update(
        AppMessage::SettingsLoaded(settings("2", vec!["1", "2", "3"])),
        &vault(vec![("1", "t1"), ("2", "t2")]),
    );
    assert_eq!(commands.len(), 3);
    assert!(matches!(&commands[0], AppCommand::LoadAccount(t, false) if t == "t1"));
    assert!(matches!(&commands[1], AppCommand::LoadAccount(t, false) if t == "t2"));
    assert!(matches!(&commands[2], AppCommand::Connect(t) if t == "t2"));
    assert!(matches!(app.connection_state, ConnectionState::Connecting));
    assert_eq!(app.settings.theme, "strife.light");
    assert_eq!(app.settings.active_account, "2");
    assert!(app.settings.accounts.is_empty());
    assert_eq!(app.theme().id, "strife.light");
}

#[test]
fn loaded_settings_without_token_or_active_account() {
    let (mut app, _) = App::new();
    let commands = app.update(AppMessage::SettingsLoaded(settings("2", vec!["1"])), &vault(vec![]));
    assert!(commands.is_empty());
    assert!(matches!(app.connection_state, ConnectionState::Disconnected));

    let (mut app, _) = App::new();
    app.connection_state = ConnectionState::Connecting;
    let commands =
        app.update(AppMessage::SettingsLoaded(settings("", vec![])), &vault(vec![("", "t")]));
    assert!(commands.is_empty());
    assert!(matches!(app.connection_state, ConnectionState::Connecting));
}

#[test]
fn new_account_is_kept_and_its_token_stored() {
    let (mut app, _) = App::new();
    let commands = app.update(
        AppMessage::AccountLoaded(Some(user("5", Some("av"))), Some(String::from("tok"))),
        &vault(vec![]),
    );
    assert_eq!(commands.len(), 3);
    assert!(matches!(&commands[0], AppCommand::StoreToken(id, t) if id == "5" && t == "tok"));
    assert!(matches!(&commands[1], AppCommand::SaveSettings(s) if s.accounts == vec![String::from("5")]));
    assert!(matches!(
        &commands[2],
        AppCommand::LoadAccountAvatar(id, Some(a), 7) if id == "5" && a == "av"
    ));
    assert_eq!(app.accounts.len(), 1);
    assert_eq!(app.settings.accounts, vec![String::from("5")]);

    let commands = app.update(AppMessage::AccountLoaded(Some(user("6", None)), None), &vault(vec![]));
    assert_eq!(commands.len(), 2);
    assert!(matches!(&commands[0], AppCommand::SaveSettings(_)));
    assert!(matches!(&commands[1], AppCommand::LoadAccountAvatar(id, None, 7) if id == "6"));

    let again = app.update(
        AppMessage::AccountLoaded(Some(user("5", None)), Some(String::from("tok"))),
        &vault(vec![]),
    );
    assert!(again.is_empty());
    assert_eq!(app.accounts.len(), 2);
    assert!(app.update(AppMessage::AccountLoaded(None, None), &vault(vec![])).is_empty());
    assert_eq!(app.accounts.len(), 2);
}

#[test]
fn ready_gateway_fetches_avatars_and_icons() {
    let (mut app, _) = App::new();
    let commands = app.update(AppMessage::GatewayConnected(Some(state())), &vault(vec![]));
    assert_eq!(commands.len(), 4);
    assert!(matches!(&commands[0], AppCommand::LoadUserAvatar(id, Some(a), 7) if id == "1" && a == "aa"));
    assert!(matches!(&commands[1], AppCommand::LoadUserAvatar(id, None, 7) if id == "2"));
    assert!(matches!(&commands[2], AppCommand::LoadGroupIcon(id, i) if id == "c2" && i == "ii"));
    assert!(matches!(&commands[3], AppCommand::LoadGroupIcon(id, i) if id == "c3" && i == "jj"));
    assert!(matches!(&app.connection_state, ConnectionState::Connecetd(s) if s.user_id == "1"));

    let commands = app.update(AppMessage::GatewayConnected(None), &vault(vec![]));
    assert!(commands.is_empty());
    assert!(matches!(app.connection_state, ConnectionState::Disconnected));
}

#[test]
fn reconnect_uses_the_active_account() {
    let mut app = connected();
    let commands =
        app.update(AppMessage::GatewayEvent(GatewayEvent::ReconnectNeeded), &vault(vec![("1", "t1")]));
    assert_eq!(commands.len(), 1);
    assert!(matches!(&commands[0], AppCommand::Connect(t) if t == "t1"));
    assert!(matches!(app.connection_state, ConnectionState::Connecting));

    let mut app = connected();
    let commands =
        app.update(AppMessage::GatewayEvent(GatewayEvent::ReconnectNeeded), &vault(vec![("2", "t2")]));
    assert!(commands.is_empty());
    assert!(matches!(app.connection_state, ConnectionState::Disconnected));
}

#[test]
fn messages_are_kept_while_connected() {
    let message = DispatchMessage {
        id: String::from("m"),
        channel_id: String::from("c1"),
        author: user("2", None),
        content: String::from("hello"),
        timestamp: String::from("now"),
        edited_timestamp: None,
    };
    let mut app = connected();
    let commands =
        app.update(AppMessage::GatewayEvent(GatewayEvent::Message(message.clone())), &vault(vec![]));
    assert!(commands.is_empty());
    match &app.connection_state {
        ConnectionState::Connecetd(state) => {
            let kept = state.message_cache.get("c1").expect("the channel's messages");
            assert_eq!(kept.len(), 1);
            assert!(matches!(
                &kept[0],
                Message::Default { user_id, content } if user_id == "2" && content == "hello"
            ));
        }
        other => panic!("not connected: {:?}", other),
    }

    let (mut app, _) = App::new();
    app.update(AppMessage::GatewayEvent(GatewayEvent::Message(message)), &vault(vec![]));
    assert!(matches!(app.connection_state, ConnectionState::Disconnected));
}

#[test]
fn views_are_shown_only_while_connected() {
    let (mut app, _) = App::new();
    app.update(AppMessage::ViewSelect(View::DirectMessages), &vault(vec![]));
    assert_eq!(app.active_view, View::Settings);
    let mut app = connected();
    app.update(AppMessage::ViewSelect(View::DirectMessages), &vault(vec![]));
    assert_eq!(app.active_view, View::DirectMessages);
    app.update(AppMessage::ViewSelect(View::Settings), &vault(vec![]));
    assert_eq!(app.active_view, View::Settings);
}

#[test]
fn changed_settings_are_saved() {
    let (mut app, _) = App::new();
    let commands = app.update(
        AppMessage::SettingsViewMessage(SettingsViewMessage::SettingsChanged(settings("9", vec!["9"]))),
        &vault(vec![]),
    );
    assert_eq!(commands.len(), 1);
    assert!(matches!(&commands[0], AppCommand::SaveSettings(s) if s.theme == "strife.light" && s.active_account == "9"));
    assert_eq!(app.settings.accounts, vec![String::from("9")]);
}

#[test]
fn added_account_is_fetched_with_its_token() {
    let (mut app, _) = App::new();
    let commands =
        app.update(accounts_message(AccountsMessage::AccountAdded(String::from("tok"))), &vault(vec![]));
    assert_eq!(commands.len(), 1);
    assert!(matches!(&commands[0], AppCommand::LoadAccount(t, true) if t == "tok"));
}

#[test]
fn selected_account_replaces_the_active_one() {
    let mut app = connected();
    let commands = app.update(
        accounts_message(AccountsMessage::AccountSelected(String::from("2"))),
        &vault(vec![("2", "t2")]),
    );
    assert_eq!(commands.len(), 3);
    assert!(matches!(commands[0], AppCommand::CloseGateway));
    assert!(matches!(&commands[1], AppCommand::SaveSettings(s) if s.active_account == "2"));
    assert!(matches!(&commands[2], AppCommand::Connect(t) if t == "t2"));
    assert!(matches!(app.connection_state, ConnectionState::Connecting));
    assert_eq!(app.settings.active_account, "2");

    let same = app.update(
        accounts_message(AccountsMessage::AccountSelected(String::from("2"))),
        &vault(vec![("2", "t2")]),
    );
    assert!(same.is_empty());
    assert!(matches!(app.connection_state, ConnectionState::Connecting));

    let mut app = connected();
    let commands =
        app.update(accounts_message(AccountsMessage::AccountSelected(String::from("3"))), &vault(vec![]));
    assert_eq!(commands.len(), 1);
    assert!(matches!(commands[0], AppCommand::CloseGateway));
    assert!(matches!(app.connection_state, ConnectionState::Disconnected));
    assert_eq!(app.settings.active_account, "1");
}

#[test]
fn removed_account_is_forgotten() {
    let mut app = connected();
    app.update(AppMessage::AccountLoaded(Some(user("1", None)), None), &vault(vec![]));
    app.update(AppMessage::AccountLoaded(Some(user("2", None)), None), &vault(vec![]));
    assert_eq!(app.settings.accounts, vec![String::from("1"), String::from("2")]);

    let commands =
        app.update(accounts_message(AccountsMessage::AccountRemoved(String::from("2"))), &vault(vec![]));
    assert_eq!(commands.len(), 1);
    assert!(matches!(&commands[0], AppCommand::SaveSettings(s) if s.accounts == vec![String::from("1")]));
    assert_eq!(app.accounts.len(), 1);
    assert_eq!(app.accounts[0].id, "1");
    assert!(app.subscription());
    assert_eq!(app.settings.active_account, "1");

    let commands =
        app.update(accounts_message(AccountsMessage::AccountRemoved(String::from("1"))), &vault(vec![]));
    assert_eq!(commands.len(), 2);
    assert!(matches!(commands[0], AppCommand::CloseGateway));
    assert!(matches!(&commands[1], AppCommand::SaveSettings(s) if s.accounts.is_empty() && s.active_account.is_empty()));
    assert!(matches!(app.connection_state, ConnectionState::Disconnected));
    assert!(app.accounts.is_empty());
    assert_eq!(app.settings.active_account, "");
}

#[test]
fn reports_of_finished_work_change_nothing() {
    let mut app = connected();
    for message in [
        AppMessage::SettingsSaved(true),
        AppMessage::SettingsSaved(false),
        AppMessage::AccountAvatarLoaded(String::from("1"), true),
        AppMessage::UserAvatarLoaded(String::from("1"), false),
        AppMessage::GroupIconLoaded(String::from("c2"), true),
        AppMessage::DirectMessagesViewMessage(DirectMessagesViewMessage::Default),
    ] {
        assert!(app.update(message, &vault(vec![("1", "t1")])).is_empty());
    }
    assert!(app.subscription());
    assert_eq!(app.settings.active_account, "1");
}
