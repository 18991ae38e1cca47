//! Users and their presence.

use crate::data::text::{decimal, parse_decimal};
use crate::json::{parse, parsed, text_opt, Json, JsonValue};
use vstd::prelude::*;
use vstd::std_specs::cmp::PartialEqSpecImpl;

verus! {

/// Whether, and how, a user is reachable right now.
#[derive(Debug, Clone, Copy, PartialEq, Eq, Structural)]
pub enum Presence {
    Offline,
    Online,
    Idle,
    DoNotDisturb,
}

impl Default for Presence {
    fn default() -> (presence: Presence)
        ensures
            presence == Presence::Offline,
    {
        Presence::Offline
    }
}

/// The presence that a status word stands for; any word but the three known ones
/// means offline.
pub open spec fn presence_of(status: Seq<char>) -> Presence {
    if status == "online"@ {
        Presence::Online
    } else if status == "idle"@ {
        Presence::Idle
    } else if status == "dnd"@ {
        Presence::DoNotDisturb
    } else {
        Presence::Offline
    }
}

impl Presence {
    /// Reads a status word.
    pub fn from_status(status: &str) -> (presence: Presence)
        ensures
            presence == presence_of(status@),
    {
        if crate::json::text_eq(status, "online") {
            Presence::Online
        } else if crate::json::text_eq(status, "idle") {
            Presence::Idle
        } else if crate::json::text_eq(status, "dnd") {
            Presence::DoNotDisturb
        } else {
            Presence::Offline
        }
    }
}

/// A user account as the service describes it.
#[derive(Debug)]
pub struct User {
    pub id: String,
    pub username: String,
    pub discriminator: u16,
    pub accent_color: Option<u32>,
    pub avatar: Option<String>,
    pub presence: Presence,
}

/// Mathematical value of a [`User`].
pub ghost struct UserView {
    pub id: Seq<char>,
    pub username: Seq<char>,
    pub discriminator: u16,
    pub accent_color: Option<u32>,
    pub avatar: Option<Seq<char>>,
    pub presence: Presence,
}

impl View for User {
    type V = UserView;

    open spec fn view(&self) -> UserView {
        UserView {
            id: self.id@,
            username: self.username@,
            discriminator: self.discriminator,
            accent_color: self.accent_color,
            avatar: text_opt(self.avatar),
            presence: self.presence,
        }
    }
}

impl Clone for User {
    fn clone(&self) -> (copy: User)
        ensures
            copy == *self,
    {
        User {
            id: self.id.clone(),
            username: self.username.clone(),
            discriminator: self.discriminator,
            accent_color: self.accent_color,
            avatar: match &self.avatar {
                Some(a) => Some(a.clone()),
                None => None,
            },
            presence: self.presence,
        }
    }
}

/// Two users are the same user when their ids agree, whatever else is known of them.
impl PartialEq for User {
    fn eq(&self, other: &User) -> (same: bool) {
        self.id == other.id
    }
}

impl PartialEqSpecImpl for User {
    open spec fn obeys_eq_spec() -> bool {
        true
    }

    open spec fn eq_spec(&self, other: &User) -> bool {
        self.id@ == other.id@
    }
}

/// The view of an optional user.
pub open spec fn user_opt(user: Option<User>) -> Option<UserView> {
    match user {
        Some(u) => Some(u@),
        None => None,
    }
}

/// The user that a JSON object describes: `id` and `username` are strings,
/// `discriminator` is a string that writes a number below 65536, `accent_color` is a
/// 32-bit unsigned number, `null` or missing, and `avatar` is a string, `null` or
/// missing. A user read this way is offline. `None` stands for any other document.
pub open spec fn user_of(j: JsonValue) -> Option<UserView> {
    match (
        j.text_at("id"@),
        j.text_at("username"@),
        j.text_at("discriminator"@),
        j.optional_uint_at("accent_color"@, u32::MAX as u64),
        j.optional_text_at("avatar"@),
    ) {
        (Some(id), Some(username), Some(digits), Some(accent), Some(avatar)) => match decimal(
            digits,
            u16::MAX as nat,
        ) {
            Some(discriminator) => Some(
                UserView {
                    id,
                    username,
                    discriminator: discriminator as u16,
                    accent_color: match accent {
                        Some(n) => Some(n as u32),
                        None => None,
                    },
                    avatar,
                    presence: Presence::Offline,
                },
            ),
            None => None,
        },
        _ => None,
    }
}

impl User {
    /// The same user with another presence.
    pub fn with_presence(&self, presence: Presence) -> (user: User)
        ensures
            user == (User { presence, ..*self }),
    {
        User {
            id: self.id.clone(),
            username: self.username.clone(),
            discriminator: self.discriminator,
            accent_color: self.accent_color,
            avatar: match &self.avatar {
                Some(a) => Some(a.clone()),
                None => None,
            },
            presence,
        }
    }

    /// Reads a user from a JSON object.
    pub fn from_json(j: &Json) -> (user: Option<User>)
        ensures
            user_opt(user) == user_of(j@),
    {
        let id = j.text_at("id");
        let username = j.text_at("username");
        let digits = j.text_at("discriminator");
        let accent = j.optional_uint_at("accent_color", u32::MAX as u64);
        let avatar = j.optional_text_at("avatar");
        match (id, username, digits, accent, avatar) {
            (Some(id), Some(username), Some(digits), Some(accent), Some(avatar)) => {
                match parse_decimal(digits.as_str(), u16::MAX as u64) {
                    Some(discriminator) => Some(
                        User {
                            id,
                            username,
                            discriminator: discriminator as u16,
                            accent_color: match accent {
                                Some(n) => Some(n as u32),
                                None => None,
                            },
                            avatar,
                            presence: Presence::Offline,
                        },
                    ),
                    None => None,
                }
            },
            _ => None,
        }
    }

    /// Reads a user from the text of a JSON object.
    pub fn from_text(text: &str) -> (user: Option<User>)
        ensures
            user_opt(user) == match parsed(text@) {
                Some(j) => user_of(j),
                None => None,
            },
    {
        match parse(text) {
            Some(j) => User::from_json(&j),
            None => None,
        }
    }
}

} // verus!
