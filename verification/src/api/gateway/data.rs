//! The documents that the gateway sends, read from JSON.

use crate::data::cache::TextMap;
use crate::data::state::{
    channel_kind_of, channels_view, latest_first, place_latest_first, relationship_kind_of,
    relationships_view, PrivateChannel, PrivateChannelKind, PrivateChannelView, Relationship,
    RelationshipKind, RelationshipView, State, StateView,
};
use crate::data::text::{decimal, parse_decimal};
use crate::data::user::{presence_of, user_of, Presence, User, UserView};
use crate::json::{decode_list, list_of, text_opt, views, Json, JsonValue};
use vstd::prelude::*;

verus! {

/// One frame of the wire protocol: an operation code, its payload, and for a
/// dispatch the event's name and sequence number.
#[derive(Debug)]
pub struct GatewayMessage {
    pub op: u32,
    pub data: Json,
    pub kind: Option<String>,
    pub sequence: Option<u32>,
}

/// Mathematical value of a [`GatewayMessage`].
pub ghost struct GatewayMessageView {
    pub op: u32,
    pub data: JsonValue,
    pub kind: Option<Seq<char>>,
    pub sequence: Option<u32>,
}

impl View for GatewayMessage {
    type V = GatewayMessageView;

    open spec fn view(&self) -> GatewayMessageView {
        GatewayMessageView {
            op: self.op,
            data: self.data@,
            kind: text_opt(self.kind),
            sequence: self.sequence,
        }
    }
}

/// The frame that a document is: an object whose `op` is a 32-bit unsigned number,
/// which has a member `d` of any kind, whose `t` is a string, `null` or missing, and
/// whose `s` is a 32-bit unsigned number, `null` or missing. `None` for any other
/// document.
pub open spec fn frame_of(j: JsonValue) -> Option<GatewayMessageView> {
    match (
        j.uint_at("op"@, u32::MAX as u64),
        j.get("d"@),
        j.optional_text_at("t"@),
        j.optional_uint_at("s"@, u32::MAX as u64),
    ) {
        (Some(op), Some(data), Some(kind), Some(sequence)) => Some(
            GatewayMessageView {
                op: op as u32,
                data,
                kind,
                sequence: match sequence {
                    Some(s) => Some(s as u32),
                    None => None,
                },
            },
        ),
        _ => None,
    }
}

/// The user that the member `key` of `j` describes.
pub open spec fn user_at(j: JsonValue, key: Seq<char>) -> Option<UserView> {
    match j.get(key) {
        Some(v) => user_of(v),
        None => None,
    }
}

/// Reads the user under the member `key`.
pub fn read_user_at(j: &Json, key: &str) -> (user: Option<User>)
    ensures
        match user {
            Some(u) => user_at(j@, key@) == Some(u@),
            None => user_at(j@, key@) is None,
        },
{
    match j.get(key) {
        Some(v) => User::from_json(v),
        None => None,
    }
}

impl GatewayMessage {
    /// Reads a frame from a document.
    pub fn from_json(j: Json) -> (frame: Option<GatewayMessage>)
        ensures
            match frame {
                Some(f) => frame_of(j@) == Some(f@),
                None => frame_of(j@) is None,
            },
    {
        let op = j.uint_at("op", u32::MAX as u64);
        let kind = j.optional_text_at("t");
        let sequence = j.optional_uint_at("s", u32::MAX as u64);
        let data = j.into_member("d");
        match (op, data, kind, sequence) {
            (Some(op), Some(data), Some(kind), Some(sequence)) => Some(
                GatewayMessage {
                    op: op as u32,
                    data,
                    kind,
                    sequence: match sequence {
                        Some(s) => Some(s as u32),
                        None => None,
                    },
                },
            ),
            _ => None,
        }
    }
}

/// A relationship as the gateway sends it: the other user and a wire code.
#[derive(Debug, Clone)]
pub struct RelationshipData {
    pub user: User,
    pub kind: u16,
}

/// Mathematical value of a [`RelationshipData`].
pub ghost struct RelationshipDataView {
    pub user: UserView,
    pub kind: u16,
}

impl View for RelationshipData {
    type V = RelationshipDataView;

    open spec fn view(&self) -> RelationshipDataView {
        RelationshipDataView { user: self.user@, kind: self.kind }
    }
}

/// The relationship that a document describes: `user` is a user and `type` a 16-bit
/// unsigned number.
pub open spec fn relationship_of(j: JsonValue) -> Option<RelationshipDataView> {
    match (user_at(j, "user"@), j.uint_at("type"@, u16::MAX as u64)) {
        (Some(user), Some(kind)) => Some(RelationshipDataView { user, kind: kind as u16 }),
        _ => None,
    }
}

impl RelationshipData {
    /// Reads a relationship from a document.
    pub fn from_json(j: &Json) -> (relationship: Option<RelationshipData>)
        ensures
            match relationship {
                Some(r) => relationship_of(j@) == Some(r@),
                None => relationship_of(j@) is None,
            },
    {
        match (read_user_at(j, "user"), j.uint_at("type", u16::MAX as u64)) {
            (Some(user), Some(kind)) => Some(RelationshipData { user, kind: kind as u16 }),
            _ => None,
        }
    }
}

/// A presence update as the gateway sends it: a user and a status word.
#[derive(Debug, Clone)]
pub struct PresenceData {
    pub user: User,
    pub status: String,
}

/// Mathematical value of a [`PresenceData`].
pub ghost struct PresenceDataView {
    pub user: UserView,
    pub status: Seq<char>,
}

impl View for PresenceData {
    type V = PresenceDataView;

    open spec fn view(&self) -> PresenceDataView {
        PresenceDataView { user: self.user@, status: self.status@ }
    }
}

/// The presence update that a document describes: `user` is a user and `status` a
/// string.
pub open spec fn presence_data_of(j: JsonValue) -> Option<PresenceDataView> {
    match (user_at(j, "user"@), j.text_at("status"@)) {
        (Some(user), Some(status)) => Some(PresenceDataView { user, status }),
        _ => None,
    }
}

impl PresenceData {
    /// Reads a presence update from a document.
    pub fn from_json(j: &Json) -> (presence: Option<PresenceData>)
        ensures
            match presence {
                Some(p) => presence_data_of(j@) == Some(p@),
                None => presence_data_of(j@) is None,
            },
    {
        match (read_user_at(j, "user"), j.text_at("status")) {
            (Some(user), Some(status)) => Some(PresenceData { user, status }),
            _ => None,
        }
    }
}

/// A message event as the gateway sends it.
#[derive(Debug, Clone)]
pub struct DispatchMessage {
    pub id: String,
    pub channel_id: String,
    pub author: User,
    pub content: String,
    pub timestamp: String,
    pub edited_timestamp: Option<String>,
}

/// Mathematical value of a [`DispatchMessage`].
pub ghost struct DispatchMessageView {
    pub id: Seq<char>,
    pub channel_id: Seq<char>,
    pub author: UserView,
    pub content: Seq<char>,
    pub timestamp: Seq<char>,
    pub edited_timestamp: Option<Seq<char>>,
}

impl View for DispatchMessage {
    type V = DispatchMessageView;

    open spec fn view(&self) -> DispatchMessageView {
        DispatchMessageView {
            id: self.id@,
            channel_id: self.channel_id@,
            author: self.author@,
            content: self.content@,
            timestamp: self.timestamp@,
            edited_timestamp: text_opt(self.edited_timestamp),
        }
    }
}

/// The message that a document describes: `id`, `channel_id`, `content` and
/// `timestamp` are strings, `author` is a user, and `edited_timestamp` is a string,
/// `null` or missing.
pub open spec fn message_of(j: JsonValue) -> Option<DispatchMessageView> {
    match (
        j.text_at("id"@),
        j.text_at("channel_id"@),
        user_at(j, "author"@),
        j.text_at("content"@),
        j.text_at("timestamp"@),
        j.optional_text_at("edited_timestamp"@),
    ) {
        (
            Some(id),
            Some(channel_id),
            Some(author),
            Some(content),
            Some(timestamp),
            Some(edited_timestamp),
        ) => Some(
            DispatchMessageView { id, channel_id, author, content, timestamp, edited_timestamp },
        ),
        _ => None,
    }
}

impl DispatchMessage {
    /// Reads a message event from a document.
    pub fn from_json(j: &Json) -> (message: Option<DispatchMessage>)
        ensures
            match message {
                Some(m) => message_of(j@) == Some(m@),
                None => message_of(j@) is None,
            },
    {
        match (
            j.text_at("id"),
            j.text_at("channel_id"),
            read_user_at(j, "author"),
            j.text_at("content"),
            j.text_at("timestamp"),
            j.optional_text_at("edited_timestamp"),
        ) {
            (
                Some(id),
                Some(channel_id),
                Some(author),
                Some(content),
                Some(timestamp),
                Some(edited_timestamp),
            ) => Some(
                DispatchMessage { id, channel_id, author, content, timestamp, edited_timestamp },
            ),
            _ => None,
        }
    }
}

/// A private channel as the gateway sends it.
#[derive(Debug, Clone)]
pub struct PrivateChannelData {
    pub id: String,
    pub kind: u16,
    pub recipients: Vec<User>,
    pub name: Option<String>,
    pub icon: Option<String>,
    pub owner_id: Option<String>,
    pub last_message_id: String,
}

/// Mathematical value of a [`PrivateChannelData`].
pub ghost struct PrivateChannelDataView {
    pub id: Seq<char>,
    pub kind: u16,
    pub recipients: Seq<UserView>,
    pub name: Option<Seq<char>>,
    pub icon: Option<Seq<char>>,
    pub owner_id: Option<Seq<char>>,
    pub last_message_id: Seq<char>,
}

impl View for PrivateChannelData {
    type V = PrivateChannelDataView;

    open spec fn view(&self) -> PrivateChannelDataView {
        PrivateChannelDataView {
            id: self.id@,
            kind: self.kind,
            recipients: views(self.recipients@),
            name: text_opt(self.name),
            icon: text_opt(self.icon),
            owner_id: text_opt(self.owner_id),
            last_message_id: self.last_message_id@,
        }
    }
}

/// The decoded elements of the array under the member `key`, if it is an array and
/// each element decodes under `model`.
pub open spec fn list_at<V>(
    j: JsonValue,
    key: Seq<char>,
    model: spec_fn(JsonValue) -> Option<V>,
) -> Option<Seq<V>> {
    match j.array_at(key) {
        Some(items) => list_of(items, model),
        None => None,
    }
}

/// The private channel that a document describes: `id` and `last_message_id` are
/// strings, `type` is a 16-bit unsigned number, `recipients` is an array of users,
/// and `name`, `icon` and `owner_id` are strings, `null` or missing.
pub open spec fn channel_data_of(j: JsonValue) -> Option<PrivateChannelDataView> {
    match (
        j.text_at("id"@),
        j.uint_at("type"@, u16::MAX as u64),
        list_at(j, "recipients"@, |v: JsonValue| user_of(v)),
        j.optional_text_at("name"@),
        j.optional_text_at("icon"@),
        j.optional_text_at("owner_id"@),
        j.text_at("last_message_id"@),
    ) {
        (
            Some(id),
            Some(kind),
            Some(recipients),
            Some(name),
            Some(icon),
            Some(owner_id),
            Some(last_message_id),
        ) => Some(
            PrivateChannelDataView {
                id,
                kind: kind as u16,
                recipients,
                name,
                icon,
                owner_id,
                last_message_id,
            },
        ),
        _ => None,
    }
}

impl PrivateChannelData {
    /// Reads a private channel from a document.
    pub fn from_json(j: &Json) -> (channel: Option<PrivateChannelData>)
        ensures
            match channel {
                Some(c) => channel_data_of(j@) == Some(c@),
                None => channel_data_of(j@) is None,
            },
    {
        let recipients = match j.array_at("recipients") {
            Some(items) => decode_list(items, User::from_json, Ghost(|v: JsonValue| user_of(v))),
            None => None,
        };
        match (
            j.text_at("id"),
            j.uint_at("type", u16::MAX as u64),
            recipients,
            j.optional_text_at("name"),
            j.optional_text_at("icon"),
            j.optional_text_at("owner_id"),
            j.text_at("last_message_id"),
        ) {
            (
                Some(id),
                Some(kind),
                Some(recipients),
                Some(name),
                Some(icon),
                Some(owner_id),
                Some(last_message_id),
            ) => Some(
                PrivateChannelData {
                    id,
                    kind: kind as u16,
                    recipients,
                    name,
                    icon,
                    owner_id,
                    last_message_id,
                },
            ),
            _ => None,
        }
    }
}

/// The time of a channel's last message, in milliseconds since 1970: what is left
/// of the message id without its lowest 22 bits, counted from the first second of
/// 2015. An id that is no number below 2^64 counts as 0.
pub open spec fn timestamp_of(last_message_id: Seq<char>) -> u64 {
    let id: u64 = match decimal(last_message_id, u64::MAX as nat) {
        Some(n) => n as u64,
        None => 0,
    };
    ((id >> 22) + 1420070400000) as u64
}

/// The private channel that a session keeps for a channel as the gateway sent it.
pub open spec fn channel_of(c: PrivateChannelDataView) -> PrivateChannelView {
    PrivateChannelView {
        id: c.id,
        kind: channel_kind_of(c.kind),
        recipients: c.recipients.map_values(|u: UserView| u.id),
        owner_id: c.owner_id,
        name: c.name,
        icon: c.icon,
        last_message_timestamp: timestamp_of(c.last_message_id),
    }
}

fn clone_text(text: &Option<String>) -> (copy: Option<String>)
    ensures
        copy == *text,
{
    match text {
        Some(t) => Some(t.clone()),
        None => None,
    }
}

impl PrivateChannelData {
    /// The channel as a session keeps it.
    pub fn to_channel(&self) -> (channel: PrivateChannel)
        ensures
            channel@ == channel_of(self@),
    {
        let mut recipients: Vec<String> = Vec::new();
        let mut i: usize = 0;
        while i < self.recipients.len()
            invariant
                i <= self.recipients.len(),
                recipients.len() == i,
                forall|k: int| 0 <= k < i ==> (#[trigger] recipients@[k])@ == self.recipients@[k].id@,
            decreases self.recipients.len() - i,
        {
            recipients.push(self.recipients[i].id.clone());
            i += 1;
        }
        let id: u64 = match parse_decimal(self.last_message_id.as_str(), u64::MAX) {
            Some(n) => n,
            None => 0,
        };
        assert((id >> 22) <= 0x3ff_ffff_ffffu64) by (bit_vector);
        let channel = PrivateChannel {
            id: self.id.clone(),
            kind: PrivateChannelKind::from_code(self.kind),
            recipients,
            owner_id: clone_text(&self.owner_id),
            name: clone_text(&self.name),
            icon: clone_text(&self.icon),
            last_message_timestamp: (id >> 22) + 1420070400000,
        };
        assert(channel@.recipients =~= channel_of(self@).recipients);
        channel
    }
}

/// The first full description of a session: the current user, what the user is
/// related to, and how to resume the session.
#[derive(Debug, Clone)]
pub struct DispatchReady {
    pub user: User,
    pub relationships: Vec<RelationshipData>,
    pub private_channels: Vec<PrivateChannelData>,
    pub presences: Vec<PresenceData>,
    pub resume_gateway_url: String,
    pub session_id: String,
}

/// Mathematical value of a [`DispatchReady`].
pub ghost struct DispatchReadyView {
    pub user: UserView,
    pub relationships: Seq<RelationshipDataView>,
    pub private_channels: Seq<PrivateChannelDataView>,
    pub presences: Seq<PresenceDataView>,
    pub resume_gateway_url: Seq<char>,
    pub session_id: Seq<char>,
}

impl View for DispatchReady {
    type V = DispatchReadyView;

    open spec fn view(&self) -> DispatchReadyView {
        DispatchReadyView {
            user: self.user@,
            relationships: views(self.relationships@),
            private_channels: views(self.private_channels@),
            presences: views(self.presences@),
            resume_gateway_url: self.resume_gateway_url@,
            session_id: self.session_id@,
        }
    }
}

/// The session description that a document is: `user` is a user, `relationships`,
/// `private_channels` and `presences` are arrays of what their names say, and
/// `resume_gateway_url` and `session_id` are strings.
pub open spec fn ready_of(j: JsonValue) -> Option<DispatchReadyView> {
    match (
        user_at(j, "user"@),
        list_at(j, "relationships"@, |v: JsonValue| relationship_of(v)),
        list_at(j, "private_channels"@, |v: JsonValue| channel_data_of(v)),
        list_at(j, "presences"@, |v: JsonValue| presence_data_of(v)),
        j.text_at("resume_gateway_url"@),
        j.text_at("session_id"@),
    ) {
        (
            Some(user),
            Some(relationships),
            Some(private_channels),
            Some(presences),
            Some(resume_gateway_url),
            Some(session_id),
        ) => Some(
            DispatchReadyView {
                user,
                relationships,
                private_channels,
                presences,
                resume_gateway_url,
                session_id,
            },
        ),
        _ => None,
    }
}

/// The relationship that a session keeps for one as the gateway sent it.
pub open spec fn relationship_kept(r: RelationshipDataView) -> RelationshipView {
    RelationshipView { id: r.user.id, kind: relationship_kind_of(r.kind) }
}

/// The users that a list of relationships makes known, by id; of two with one id the
/// later stays.
pub open spec fn known_users(relationships: Seq<RelationshipDataView>) -> Map<Seq<char>, UserView>
    decreases relationships.len(),
{
    if relationships.len() == 0 {
        Map::empty()
    } else {
        known_users(relationships.drop_last()).insert(
            relationships.last().user.id,
            relationships.last().user,
        )
    }
}

/// The known users after the presence updates, taken in order. An update for a user
/// who is not known changes nothing; of an update only the status word counts.
pub open spec fn with_presences(
    users: Map<Seq<char>, UserView>,
    presences: Seq<PresenceDataView>,
) -> Map<Seq<char>, UserView>
    decreases presences.len(),
{
    if presences.len() == 0 {
        users
    } else {
        let earlier = with_presences(users, presences.drop_last());
        let update = presences.last();
        if earlier.dom().contains(update.user.id) {
            earlier.insert(
                update.user.id,
                UserView { presence: presence_of(update.status), ..earlier[update.user.id] },
            )
        } else {
            earlier
        }
    }
}

/// The state with which a session starts, given its first description.
pub open spec fn ready_state(ready: DispatchReadyView) -> StateView {
    StateView {
        user_id: ready.user.id,
        relationships: ready.relationships.map_values(|r: RelationshipDataView| relationship_kept(r)),
        private_channels: latest_first(
            ready.private_channels.map_values(|c: PrivateChannelDataView| channel_of(c)),
        ),
        users: with_presences(
            known_users(ready.relationships).insert(ready.user.id, ready.user),
            ready.presences,
        ),
        messages: Map::empty(),
    }
}

impl DispatchReady {
    /// The state with which the session starts: the relationships, the private
    /// channels from the latest message to the earliest, and every user that the
    /// description makes known, with the presences it reports.
    pub fn into_state(self) -> (state: State)
        ensures
            state.well_formed(),
            state@ == ready_state(self@),
    {
        let ghost view = self@;
        let mut relationships: Vec<Relationship> = Vec::new();
        let mut user_cache: TextMap<User> = TextMap::new();
        let mut i: usize = 0;
        while i < self.relationships.len()
            invariant
                i <= self.relationships.len(),
                view == self@,
                relationships.len() == i,
                forall|k: int|
                    0 <= k < i ==> (#[trigger] relationships@[k])@ == relationship_kept(
                        view.relationships[k],
                    ),
                user_cache.well_formed(),
                user_cache@ == known_users(view.relationships.take(i as int)),
            decreases self.relationships.len() - i,
        {
            let r = &self.relationships[i];
            assert(view.relationships[i as int] == r@);
            assert(view.relationships.take(i + 1).drop_last() == view.relationships.take(
                i as int,
            ));
            relationships.push(
                Relationship { id: r.user.id.clone(), kind: RelationshipKind::from_code(r.kind) },
            );
            user_cache.insert(r.user.id.clone(), r.user.clone());
            i += 1;
        }
        assert(view.relationships.take(i as int) == view.relationships);
        assert(relationships_view(relationships@) =~= ready_state(view).relationships);

        let mut private_channels: Vec<PrivateChannel> = Vec::new();
        let ghost kept = view.private_channels.map_values(|c: PrivateChannelDataView| channel_of(c));
        let mut i: usize = 0;
        while i < self.private_channels.len()
            invariant
                i <= self.private_channels.len(),
                view == self@,
                kept == view.private_channels.map_values(|c: PrivateChannelDataView| channel_of(c)),
                channels_view(private_channels@) == latest_first(kept.take(i as int)),
            decreases self.private_channels.len() - i,
        {
            let channel = self.private_channels[i].to_channel();
            assert(view.private_channels[i as int] == self.private_channels@[i as int]@);
            assert(kept.take(i + 1).drop_last() == kept.take(i as int));
            assert(kept.take(i + 1).last() == channel@);
            place_latest_first(&mut private_channels, channel);
            i += 1;
        }
        assert(kept.take(i as int) == kept);

        let user_id = self.user.id.clone();
        user_cache.insert(self.user.id.clone(), self.user.clone());
        let ghost known = user_cache@;
        let mut i: usize = 0;
        while i < self.presences.len()
            invariant
                i <= self.presences.len(),
                view == self@,
                user_cache.well_formed(),
                user_cache@ == with_presences(known, view.presences.take(i as int)),
            decreases self.presences.len() - i,
        {
            let p = &self.presences[i];
            assert(view.presences[i as int] == p@);
            assert(view.presences.take(i + 1).drop_last() == view.presences.take(i as int));
            let updated = match user_cache.get(p.user.id.as_str()) {
                Some(user) => Some(user.with_presence(Presence::from_status(p.status.as_str()))),
                None => None,
            };
            match updated {
                Some(user) => {
                    user_cache.insert(p.user.id.clone(), user);
                },
                None => {},
            }
            i += 1;
        }
        assert(view.presences.take(i as int) == view.presences);
        State::new(user_id, relationships, private_channels, user_cache)
    }

    /// Reads a session description from a document.
    pub fn from_json(j: &Json) -> (ready: Option<DispatchReady>)
        ensures
            match ready {
                Some(r) => ready_of(j@) == Some(r@),
                None => ready_of(j@) is None,
            },
    {
        let relationships = match j.array_at("relationships") {
            Some(items) => decode_list(
                items,
                RelationshipData::from_json,
                Ghost(|v: JsonValue| relationship_of(v)),
            ),
            None => None,
        };
        let private_channels = match j.array_at("private_channels") {
            Some(items) => decode_list(
                items,
                PrivateChannelData::from_json,
                Ghost(|v: JsonValue| channel_data_of(v)),
            ),
            None => None,
        };
        let presences = match j.array_at("presences") {
            Some(items) => decode_list(
                items,
                PresenceData::from_json,
                Ghost(|v: JsonValue| presence_data_of(v)),
            ),
            None => None,
        };
        match (
            read_user_at(j, "user"),
            relationships,
            private_channels,
            presences,
            j.text_at("resume_gateway_url"),
            j.text_at("session_id"),
        ) {
            (
                Some(user),
                Some(relationships),
                Some(private_channels),
                Some(presences),
                Some(resume_gateway_url),
                Some(session_id),
            ) => Some(
                DispatchReady {
                    user,
                    relationships,
                    private_channels,
                    presences,
                    resume_gateway_url,
                    session_id,
                },
            ),
            _ => None,
        }
    }
}

} // verus!
