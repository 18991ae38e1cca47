use strife::data::cache::TextMap;
use strife::data::state::{
    PrivateChannel, PrivateChannelKind, Relationship, RelationshipKind, State,
};
use strife::data::user::{Presence, User};
use strife::gui::app::{App, AppMessage};
use strife::gui::components::guildbar::View;
use strife::gui::components::sidebar::{update, SidebarEntryType};
use strife::gui::views::direct_messages::friends;
use strife::gui::views::private_channels::entries;
use strife::gui::views::settings::accounts_tab::{can_add, current_account, remove_account};

fn user(id: &str) -> User {
    User {
        id: String::from(id),
        username: format!("user {}", id),
        discriminator: 1,
        accent_color: None,
        avatar: None,
        presence: Presence::Offline,
    }
}

fn channel(id: &str, kind: PrivateChannelKind, recipients: Vec<&str>) -> PrivateChannel {
    PrivateChannel {
        id: String::from(id),
        kind,
        recipients: recipients.into_iter().map(String::from).collect(),
        owner_id: None,
        name: Some(format!("channel {}", id)),
        icon: None,
        last_message_timestamp: 3,
    }
}

fn relationship(id: &str, kind: RelationshipKind) -> Relationship {
    Relationship { id: String::from(id), kind }
}

fn state() -> State {
    let mut users = TextMap::new();
    users.insert(String::from("1"), user("1"));
    users.insert(String::from("2"), user("2"));
    users.insert(String::from("3"), user("3"));
    State::new(
        String::from("1"),
        vec![
            relationship("2", RelationshipKind::Friend),
            relationship("3", RelationshipKind::Blocked),
            relationship("9", RelationshipKind::Friend),
            relationship("3", RelationshipKind::Friend),
        ],
        vec![
            channel("a", PrivateChannelKind::DirectMessage, vec!["2", "3"]),
            channel("b", PrivateChannelKind::Group, vec!["2"]),
            channel("c", PrivateChannelKind::DirectMessage, vec!["9"]),
            channel("d", PrivateChannelKind::DirectMessage, vec![]),
        ],
        users,
    )
}

#[test]
fn token_can_be_added_when_it_looks_like_one() {
    let part = "x".repeat(30);
    assert!(can_add(&format!("{}.{}.{}", part, part, part)));
    assert!(!can_add(&format!("{}.{}{}", part, part, part)));
    assert!(!can_add(&format!("{}.{}.{}.{}", part, part, part, part)));
    assert!(!can_add("a.b.c"));
    assert!(!can_add(""));
    // 58 characters and two full stops make 60 bytes, which is not more than 60
    assert!(!can_add(&format!("{}.{}.", "x".repeat(29), "x".repeat(29))));
    assert!(can_add(&format!("{}.{}.", "x".repeat(30), "x".repeat(29))));
    // the length is counted in bytes
    assert!(can_add(&format!("{}.{}.", "é".repeat(15), "x".repeat(29))));
    assert!(!can_add(&format!("{}.{}.", "e".repeat(15), "x".repeat(29))));
}

#[test]
fn current_account_is_the_first_with_the_active_id() {
    let accounts = vec![user("1"), user("2"), user("2"), user("3")];
    assert_eq!(current_account(&accounts, "2"), Some(1));
    assert_eq!(current_account(&accounts, "1"), Some(0));
    assert_eq!(current_account(&accounts, "4"), None);
    assert_eq!(current_account(&vec![], "1"), None);
    let others: Vec<String> = remove_account(&accounts, "2").into_iter().map(|u| u.id).collect();
    assert_eq!(others, vec![String::from("1"), String::from("3")]);
    assert_eq!(remove_account(&accounts, "4").len(), 4);
}

#[test]
fn friends_are_the_known_users_of_friendships() {
    let listed: Vec<String> = friends(&state()).into_iter().map(|u| u.id).collect();
    assert_eq!(listed, vec![String::from("2"), String::from("3")]);
}

#[test]
fn channels_are_listed_below_the_friends() {
    let list = entries(&state());
    assert_eq!(list.len(), 6);
    assert!(matches!(&list[0], SidebarEntryType::Button((), label) if label == "Friends"));
    assert!(matches!(list[1], SidebarEntryType::Spacer));
    assert!(matches!(
        &list[2],
        SidebarEntryType::PrivateChannel(c, Some(u))
            if c.id == "a" && u.id == "2" && c.name.as_deref() == Some("channel a")
                && c.recipients.len() == 2 && c.last_message_timestamp == 3
    ));
    assert!(matches!(&list[3], SidebarEntryType::PrivateChannel(c, None) if c.id == "b"));
    assert!(matches!(&list[4], SidebarEntryType::PrivateChannel(c, None) if c.id == "c"));
    assert!(matches!(&list[5], SidebarEntryType::PrivateChannel(c, None) if c.id == "d"));
}

#[test]
fn picked_entry_is_remembered_and_passed_on() {
    let mut picked = None;
    let describe = |entry: SidebarEntryType<u8>| match entry {
        SidebarEntryType::Button(value, label) => format!("{} {}", value, label),
        SidebarEntryType::PrivateChannel(channel, _) => channel.id,
        SidebarEntryType::Spacer => String::from("gap"),
    };
    let message = update(&mut picked, 4, SidebarEntryType::Button(7, String::from("seven")), &describe);
    assert_eq!(message.as_deref(), Some("7 seven"));
    assert_eq!(picked, Some(4));
    let message = update(&mut picked, 0, SidebarEntryType::Spacer, &describe);
    assert_eq!(message.as_deref(), Some("gap"));
    assert_eq!(picked, Some(0));
}

#[test]
fn direct_messages_are_shown_only_while_connected() {
    let (mut app, _) = App::new();
    assert_eq!(app.screen(), Some(View::Settings));
    app.active_view = View::DirectMessages;
    assert_eq!(app.screen(), None);
    app.update(AppMessage::GatewayConnected(Some(state())), &TextMap::new());
    assert_eq!(app.screen(), Some(View::DirectMessages));
    app.active_view = View::Settings;
    assert_eq!(app.screen(), Some(View::Settings));
}
